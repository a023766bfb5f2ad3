use beacn_utility::channel::{
    Colour, DeviceDescription, Mix, MuteStates, MuteTarget, SourceDevice, Volumes,
};
use beacn_utility::colour::Rgba;
use beacn_utility::device::{ButtonLighting, DeviceType};
use beacn_utility::paging::DeviceOrder;
use beacn_utility::codec::decode_image;
use beacn_utility::raster::Image;
use beacn_utility::render::TextRun;
use beacn_utility::session::{
    blank_lights, dark, draw, draw_status, part_position, DisplayPart, PipeweaverSession,
    SyncAction, SyncError,
};
use beacn_utility::text::Glyph;
use beacn_utility::sources::{get_channel_renderers, get_device_ref, SourceDevices};

fn source(id: u128, name: &str, red: u8) -> SourceDevice {
    SourceDevice {
        description: DeviceDescription {
            id,
            name: String::from(name),
            colour: Colour { red, green: 0, blue: 0 },
        },
        volumes: Volumes { mix_a: 50, mix_b: 60 },
        mute_states: MuteStates {
            mute_state: vec![],
            mute_targets_a: vec![],
            mute_targets_b: vec![],
        },
    }
}

fn sources(default: &[u128]) -> SourceDevices {
    SourceDevices {
        device_order: DeviceOrder { pinned: vec![], default: default.to_vec() },
        physical_devices: vec![source(1, "one", 1), source(2, "two", 2), source(3, "three", 3)],
        virtual_devices: vec![source(4, "four", 4), source(5, "five", 5), source(1, "shadow", 9)],
    }
}

fn red(value: u8) -> Rgba {
    Rgba { red: value, green: 0, blue: 0, alpha: 255 }
}

#[test]
fn a_part_is_drawn_at_its_place_in_its_slot() {
    assert_eq!(
        draw(DisplayPart::Header, 0),
        SyncAction::Draw { part: DisplayPart::Header, slot: 0, x: 13, y: 101 }
    );
    assert_eq!(
        draw(DisplayPart::Volume(Mix::B), 2),
        SyncAction::Draw { part: DisplayPart::Volume(Mix::B), slot: 2, x: 413, y: 145 }
    );
    assert_eq!(
        draw(DisplayPart::MuteBox(MuteTarget::TargetA), 3),
        SyncAction::Draw { part: DisplayPart::MuteBox(MuteTarget::TargetA), slot: 3, x: 613, y: 315 }
    );
    assert_eq!(
        draw(DisplayPart::MuteBox(MuteTarget::TargetB), 1),
        SyncAction::Draw { part: DisplayPart::MuteBox(MuteTarget::TargetB), slot: 1, x: 213, y: 361 }
    );
    assert_eq!(
        draw(DisplayPart::Channel, 1),
        SyncAction::Draw { part: DisplayPart::Channel, slot: 1, x: 200, y: 80 }
    );
    assert_eq!(
        draw(DisplayPart::Canvas, 3),
        SyncAction::Draw { part: DisplayPart::Canvas, slot: 0, x: 0, y: 0 }
    );
    assert_eq!(part_position(DisplayPart::Header), (13, 21));
    assert_eq!(part_position(DisplayPart::Channel), (0, 0));
    assert_eq!(
        draw(DisplayPart::Channel, 3),
        SyncAction::Draw { part: DisplayPart::Channel, slot: 3, x: 600, y: 80 }
    );
}

#[test]
fn a_source_is_looked_up_among_the_physical_ones_first() {
    let sources = sources(&[]);
    assert_eq!(get_device_ref(1, &sources).unwrap().description.name, "one");
    assert_eq!(get_device_ref(5, &sources).unwrap().description.name, "five");
    assert!(get_device_ref(6, &sources).is_none());
    assert_eq!(get_channel_renderers(4, &sources).unwrap().title(), "four");
    assert!(get_channel_renderers(77, &sources).is_none());
}

#[test]
fn a_session_starts_with_every_light_and_the_whole_display() {
    let sources = sources(&[3, 1, 4]);
    let (session, actions) = PipeweaverSession::start(DeviceType::BeacnMix, &sources).unwrap();
    assert_eq!(session.devices_shown(), &vec![3, 1, 4]);
    assert_eq!(session.page(), 0);
    assert_eq!(session.active_mix(), Mix::A);
    assert_eq!(session.command_index(), 1);
    assert_eq!(session.renderer(4).unwrap().title(), "four");
    assert!(session.renderer(2).is_none());
    assert_eq!(
        actions,
        vec![
            SyncAction::ButtonColour(ButtonLighting::Dial1, red(3)),
            SyncAction::ButtonColour(ButtonLighting::Dial2, red(1)),
            SyncAction::ButtonColour(ButtonLighting::Dial3, red(4)),
            SyncAction::Draw { part: DisplayPart::Canvas, slot: 0, x: 0, y: 0 },
        ]
    );
}

#[test]
fn a_session_without_sources_draws_the_empty_display() {
    let sources = sources(&[]);
    let (session, actions) = PipeweaverSession::start(DeviceType::BeacnMixCreate, &sources).unwrap();
    assert!(session.devices_shown().is_empty());
    assert_eq!(actions, vec![SyncAction::Draw { part: DisplayPart::Canvas, slot: 0, x: 0, y: 0 }]);
}

#[test]
fn a_session_cannot_show_a_source_that_is_not_reported() {
    let sources = sources(&[1, 9, 8]);
    assert_eq!(
        PipeweaverSession::start(DeviceType::BeacnMix, &sources).err(),
        Some(SyncError::UnknownDevice(9))
    );
}

#[test]
fn a_new_colour_sets_one_light_and_draws_one_channel() {
    let mut sources = sources(&[1, 2, 3]);
    let (mut session, _) = PipeweaverSession::start(DeviceType::BeacnMix, &sources).unwrap();
    sources.physical_devices[1].description.colour.red = 200;
    assert_eq!(
        session.apply_status(&sources).unwrap(),
        vec![
            SyncAction::ButtonColour(ButtonLighting::Dial2, red(200)),
            SyncAction::Draw { part: DisplayPart::Channel, slot: 1, x: 200, y: 80 },
        ]
    );
    assert_eq!(session.renderer(2).unwrap().colour(), red(200));
    assert_eq!(session.apply_status(&sources).unwrap(), vec![]);
}

#[test]
fn only_what_changed_is_drawn() {
    let mut sources = sources(&[1, 2, 3]);
    let (mut session, _) = PipeweaverSession::start(DeviceType::BeacnMix, &sources).unwrap();
    sources.physical_devices[0].description.name = String::from("uno");
    sources.physical_devices[0].volumes.mix_a = 51;
    sources.physical_devices[2].volumes.mix_b = 10;
    sources.physical_devices[2].mute_states.mute_state = vec![MuteTarget::TargetB];
    assert_eq!(
        session.apply_status(&sources).unwrap(),
        vec![
            SyncAction::Draw { part: DisplayPart::Header, slot: 0, x: 13, y: 101 },
            SyncAction::Draw { part: DisplayPart::Volume(Mix::A), slot: 0, x: 13, y: 145 },
            SyncAction::Draw {
                part: DisplayPart::MuteBox(MuteTarget::TargetB),
                slot: 2,
                x: 413,
                y: 361
            },
        ]
    );
    assert_eq!(session.renderer(3).unwrap().volume(Mix::B), 10);
}

#[test]
fn a_new_order_refreshes_the_whole_display_and_keeps_known_renderers() {
    let mut sources = sources(&[1, 2, 3]);
    let (mut session, _) = PipeweaverSession::start(DeviceType::BeacnMix, &sources).unwrap();
    sources.device_order.default = vec![2, 5];
    sources.physical_devices[1].description.colour.red = 77;
    assert_eq!(
        session.apply_status(&sources).unwrap(),
        vec![
            SyncAction::ButtonColour(ButtonLighting::Dial1, red(2)),
            SyncAction::ButtonColour(ButtonLighting::Dial2, red(5)),
            SyncAction::Draw { part: DisplayPart::Canvas, slot: 0, x: 0, y: 0 },
        ]
    );
    assert_eq!(session.devices_shown(), &vec![2, 5]);
    assert!(session.renderer(1).is_none());
    assert!(session.renderer(3).is_none());
    // the renderer that was kept catches up with the next status
    assert_eq!(
        session.apply_status(&sources).unwrap(),
        vec![
            SyncAction::ButtonColour(ButtonLighting::Dial1, red(77)),
            SyncAction::Draw { part: DisplayPart::Channel, slot: 0, x: 0, y: 80 },
        ]
    );
}

#[test]
fn a_status_that_lacks_a_shown_source_fails_and_changes_nothing() {
    let mut sources = sources(&[1, 2, 3]);
    let (mut session, _) = PipeweaverSession::start(DeviceType::BeacnMix, &sources).unwrap();
    sources.physical_devices[0].description.name = String::from("uno");
    sources.physical_devices.remove(1);
    assert_eq!(session.apply_status(&sources).err(), Some(SyncError::UnknownDevice(2)));
    assert_eq!(session.renderer(1).unwrap().title(), "one");
    sources.device_order.default = vec![1, 3, 2];
    assert_eq!(session.apply_status(&sources).unwrap().len(), 4);
    assert_eq!(session.devices_shown(), &vec![1, 3, 2]);
    sources.device_order.default = vec![2, 1, 42];
    assert_eq!(session.apply_status(&sources).err(), Some(SyncError::UnknownDevice(42)));
    assert_eq!(session.devices_shown(), &vec![1, 3, 2]);
}

#[test]
fn a_source_shown_twice_has_one_renderer() {
    let mut sources = sources(&[1, 1, 2]);
    let (mut session, actions) = PipeweaverSession::start(DeviceType::BeacnMix, &sources).unwrap();
    assert_eq!(actions.len(), 4);
    sources.physical_devices[0].description.name = String::from("uno");
    assert_eq!(
        session.apply_status(&sources).unwrap(),
        vec![SyncAction::Draw { part: DisplayPart::Header, slot: 0, x: 13, y: 101 }]
    );
}

#[test]
fn blanking_turns_every_light_off() {
    let off = Rgba { red: 0, green: 0, blue: 0, alpha: 255 };
    assert_eq!(dark(), off);
    assert_eq!(
        blank_lights(),
        vec![
            SyncAction::ButtonColour(ButtonLighting::Dial1, off),
            SyncAction::ButtonColour(ButtonLighting::Dial2, off),
            SyncAction::ButtonColour(ButtonLighting::Dial3, off),
            SyncAction::ButtonColour(ButtonLighting::Dial4, off),
            SyncAction::ButtonColour(ButtonLighting::Mix, off),
        ]
    );
}

#[test]
fn a_status_screen_is_the_splash_with_a_line_over_it() {
    let splash = Image::from_pixel(400, 480, Rgba { red: 250, green: 0, blue: 0, alpha: 255 });
    let glyph = Glyph::new(40, 40, 0, 0, 40, vec![255; 1600]).unwrap();
    let line = TextRun { glyphs: vec![glyph], baseline_y: 260 };
    let screen = draw_status(&splash, &line).unwrap();
    assert_eq!(screen.position, (0, 0));
    let decoded = decode_image(&screen.image).unwrap();
    assert_eq!((decoded.width(), decoded.height()), (800, 480));
    // the splash on the left, the background on the right
    assert!(decoded.get_pixel(100, 100).red > 220);
    assert!(decoded.get_pixel(700, 100).red < 70);
    // the line: one glyph 40 wide, centred, on rows 220 to 259
    let ink = decoded.get_pixel(400, 240);
    assert!(ink.red > 150 && ink.green > 150 && ink.blue > 150);
    assert!(decoded.get_pixel(390, 210).red > 220 && decoded.get_pixel(390, 210).green < 40);
    assert!(decoded.get_pixel(390, 240).green > 150);
    assert!(decoded.get_pixel(450, 240).green > 30 && decoded.get_pixel(450, 240).red < 70);
}
