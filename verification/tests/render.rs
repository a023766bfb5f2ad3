use beacn_utility::channel::{
    ChannelRenderer, Colour, DeviceDescription, Mix, MuteStates, MuteTarget, SourceDevice, Volumes,
};
use beacn_utility::codec::{decode_image, CodecError};
use beacn_utility::colour::Rgba;
use beacn_utility::device::DeviceType;
use beacn_utility::dial_cache::DialImageCache;
use beacn_utility::layout::DrawingUtils;
use beacn_utility::paging::DeviceOrder;
use beacn_utility::raster::Image;
use beacn_utility::dial_cache::DialHandler;
use beacn_utility::render::{DialLayers, MuteArt, RenderError, TextRun};
use beacn_utility::session::{DisplayPart, PartError, PipeweaverSession};
use beacn_utility::sources::SourceDevices;
use beacn_utility::text::Glyph;

const BG: Rgba = Rgba { red: 42, green: 48, blue: 45, alpha: 255 };
const BORDER: Rgba = Rgba { red: 101, green: 101, blue: 101, alpha: 255 };
const INNER: Rgba = Rgba { red: 51, green: 55, blue: 53, alpha: 255 };

fn source(id: u128, muted: bool) -> SourceDevice {
    SourceDevice {
        description: DeviceDescription {
            id,
            name: String::from("Music"),
            colour: Colour { red: 200, green: 100, blue: 0 },
        },
        volumes: Volumes { mix_a: 30, mix_b: 70 },
        mute_states: MuteStates {
            mute_state: if muted { vec![MuteTarget::TargetA] } else { vec![] },
            mute_targets_a: vec![],
            mute_targets_b: vec![1],
        },
    }
}

fn run(count: usize) -> TextRun {
    let glyphs = (0..count)
        .map(|_| Glyph::new(4, 6, 1, 0, 6, vec![255; 24]).unwrap())
        .collect();
    TextRun { glyphs, baseline_y: 20 }
}

fn art() -> MuteArt {
    MuteArt {
        to_all: run(3),
        to_some: run(5),
        muted_icon: Image::from_pixel(16, 16, Rgba { red: 255, green: 0, blue: 0, alpha: 255 }),
        unmuted_icon: Image::from_pixel(16, 16, Rgba { red: 0, green: 255, blue: 0, alpha: 255 }),
    }
}

fn dial(colour: Rgba) -> Vec<u8> {
    let track = Image::from_pixel(174, 174, Rgba { red: 37, green: 41, blue: 39, alpha: 255 });
    let arc = Image::from_pixel(174, 174, colour);
    let label = Image::new(174, 174);
    DrawingUtils::get_volume_image(&track, &arc, &label).unwrap()
}

fn cache() -> DialImageCache {
    let mut cache = DialImageCache::new();
    cache.insert(Mix::A, 30, dial(Rgba { red: 0, green: 0, blue: 250, alpha: 255 }));
    cache.insert(Mix::B, 70, vec![1, 2, 3]);
    cache
}

#[test]
fn the_box_of_a_channel_has_rounded_upper_corners() {
    let renderer = ChannelRenderer::from_source_device(&source(1, false));
    let content = renderer.draw_content_box();
    assert_eq!(content.position, (10, 10));
    assert_eq!((content.image.width(), content.image.height()), (180, 310));
    assert_eq!(content.image.get_pixel(0, 0), BG);
    assert_eq!(content.image.get_pixel(90, 1), BORDER);
    assert_eq!(content.image.get_pixel(90, 100), INNER);
    assert_eq!(content.image.get_pixel(0, 309), BORDER);
}

#[test]
fn the_header_is_the_title_over_a_gradient() {
    let mut renderer = ChannelRenderer::from_source_device(&source(1, false));
    let header = renderer.draw_header(&run(2));
    assert_eq!(header.position, (13, 21));
    assert_eq!((header.image.width(), header.image.height()), (174, 38));
    // the gradient: alpha 100 * y / 37
    assert_eq!(header.image.get_pixel(0, 0), Rgba { red: 200, green: 100, blue: 0, alpha: 0 });
    assert_eq!(header.image.get_pixel(0, 37), Rgba { red: 200, green: 100, blue: 0, alpha: 100 });
    assert_eq!(header.image.get_pixel(3, 10).alpha, 27);
    // the line is 12 wide and starts at (174 - 12) / 2 = 81; glyphs stand at 82 and 88,
    // on rows 14 to 19
    assert_eq!(
        header.image.get_pixel(82, 14),
        Rgba { red: 180, green: 180, blue: 180, alpha: 255 }
    );
    assert_eq!(header.image.get_pixel(91, 19).red, 180);
    assert_eq!(header.image.get_pixel(81, 14).red, 200);
    assert_eq!(header.image.get_pixel(86, 14).red, 200);
    assert_eq!(header.image.get_pixel(82, 13).red, 200);
    assert_eq!(header.image.get_pixel(82, 20).red, 200);
}

#[test]
fn a_bar_has_the_accent_colour() {
    let renderer = ChannelRenderer::from_source_device(&source(1, false));
    let bar = renderer.draw_bar((13, 59));
    assert_eq!(bar.position, (13, 59));
    assert_eq!((bar.image.width(), bar.image.height()), (174, 6));
    assert_eq!(bar.image.get_pixel(173, 5), Rgba { red: 200, green: 100, blue: 0, alpha: 255 });
    let background = renderer.draw_mute_background();
    assert_eq!(background.position, (13, 235));
    assert_eq!((background.image.width(), background.image.height()), (174, 85));
    assert_eq!(background.image.get_pixel(0, 0).alpha, 120);
    assert_eq!(background.image.get_pixel(0, 84).alpha, 0);
}

#[test]
fn a_mute_button_shows_its_state() {
    let art = art();
    let mut muted = ChannelRenderer::from_source_device(&source(1, true));
    let button = muted.draw_mute_box(MuteTarget::TargetA, &art);
    assert_eq!(button.position, (13, 235));
    assert_eq!((button.image.width(), button.image.height()), (174, 37));
    // the muted icon, 16 high, centred: rows 18 - 8 = 10 to 25, columns 10 to 25
    assert_eq!(button.image.get_pixel(10, 10), Rgba { red: 255, green: 0, blue: 0, alpha: 255 });
    assert_eq!(button.image.get_pixel(25, 25), Rgba { red: 255, green: 0, blue: 0, alpha: 255 });
    assert_ne!(button.image.get_pixel(9, 10).red, 255);
    // the line at the bottom
    assert_eq!(button.image.get_pixel(100, 35), BORDER);
    assert_eq!(button.image.get_pixel(100, 36), BORDER);
    // "Mute to All": three glyphs from column 16 + 20 + 1 on, rows 3 + 14 to 3 + 19
    assert_eq!(button.image.get_pixel(37, 17).red, 180);
    assert_eq!(button.image.get_pixel(52, 22).red, 180);
    assert_ne!(button.image.get_pixel(55, 17).red, 180);

    let other = muted.draw_mute_box(MuteTarget::TargetB, &art);
    assert_eq!(other.position, (13, 281));
    assert_eq!((other.image.width(), other.image.height()), (174, 37));
    // the line at the top, and everything two rows lower
    assert_eq!(other.image.get_pixel(100, 0), BORDER);
    assert_eq!(other.image.get_pixel(100, 1), BORDER);
    assert_eq!(other.image.get_pixel(10, 12), Rgba { red: 0, green: 255, blue: 0, alpha: 255 });
    assert_ne!(other.image.get_pixel(10, 11).green, 255);
    // "Mute To...": five glyphs
    assert_eq!(other.image.get_pixel(61, 19).red, 180);
    assert_eq!(other.image.get_pixel(64, 19).red, 180);
}

#[test]
fn the_dial_comes_from_the_cache() {
    let cache = cache();
    let renderer = ChannelRenderer::from_source_device(&source(1, false));
    let raw = renderer.get_volume(Mix::B, &cache).unwrap();
    assert_eq!(raw.position, (13, 65));
    assert_eq!(raw.image, vec![1, 2, 3]);
    let drawn = renderer.draw_volume(Mix::A, &cache).unwrap();
    assert_eq!(drawn.position, (13, 65));
    assert_eq!((drawn.image.width(), drawn.image.height()), (174, 164));
    assert!(drawn.image.get_pixel(80, 80).blue > 230);
    assert_eq!(
        renderer.draw_volume(Mix::B, &cache).err(),
        Some(RenderError::Codec(CodecError::Decode))
    );
    let empty = DialImageCache::new();
    assert_eq!(renderer.get_volume(Mix::A, &empty).err(), Some(RenderError::MissingDial));
    assert_eq!(renderer.draw_volume(Mix::A, &empty).err(), Some(RenderError::MissingDial));
}

#[test]
fn an_encoded_dial_is_cut_at_the_bottom_and_flattened() {
    let track = Image::from_pixel(174, 174, Rgba { red: 37, green: 41, blue: 39, alpha: 255 });
    let arc = Image::new(174, 174);
    let mut label = Image::new(174, 174);
    for y in 60..100 {
        for x in 60..100 {
            label.put_pixel(x, y, Rgba { red: 250, green: 250, blue: 250, alpha: 255 });
        }
    }
    let bytes = DrawingUtils::get_volume_image(&track, &arc, &label).unwrap();
    let decoded = decode_image(&bytes).unwrap();
    assert_eq!((decoded.width(), decoded.height()), (174, 164));
    assert!(decoded.get_pixel(80, 80).red > 230);
    assert!(decoded.get_pixel(10, 10).red < 60);
    let small = Image::new(0, 0);
    assert_eq!(
        DrawingUtils::get_volume_image(&small, &arc, &label).err(),
        Some(CodecError::Encode)
    );
}

#[test]
fn a_channel_is_its_parts_laid_over_one_another() {
    let cache = cache();
    let mut renderer = ChannelRenderer::from_source_device(&source(1, true));
    let picture = renderer.full_render(Mix::A, &run(2), &art(), &cache).unwrap();
    assert_eq!(picture.position, (0, 80));
    assert_eq!((picture.image.width(), picture.image.height()), (200, 400));
    // the margin, the border, the inside
    assert_eq!(picture.image.get_pixel(0, 0), BG);
    assert_eq!(picture.image.get_pixel(100, 11), BORDER);
    assert_eq!(picture.image.get_pixel(100, 330), BG);
    // the two bars
    let accent = Rgba { red: 200, green: 100, blue: 0, alpha: 255 };
    assert_eq!(picture.image.get_pixel(13, 59), accent);
    assert_eq!(picture.image.get_pixel(186, 64), accent);
    assert_eq!(picture.image.get_pixel(13, 229), accent);
    assert_eq!(picture.image.get_pixel(186, 234), accent);
    // the dial
    assert!(picture.image.get_pixel(100, 150).blue > 230);
    // the icons of the two mute buttons
    assert_eq!(picture.image.get_pixel(23, 245), Rgba { red: 255, green: 0, blue: 0, alpha: 255 });
    assert_eq!(picture.image.get_pixel(23, 293), Rgba { red: 0, green: 255, blue: 0, alpha: 255 });
    // the title on the header
    assert_eq!(picture.image.get_pixel(95, 35), Rgba { red: 180, green: 180, blue: 180, alpha: 255 });

    assert_eq!(
        renderer.full_render(Mix::B, &run(2), &art(), &cache).err(),
        Some(RenderError::Codec(CodecError::Decode))
    );
}

#[test]
fn the_display_shows_each_channel_in_its_slot() {
    let cache = cache();
    let sources = SourceDevices {
        device_order: DeviceOrder { pinned: vec![2], default: vec![1] },
        physical_devices: vec![source(1, false)],
        virtual_devices: vec![source(2, true)],
    };
    let (session, _) = PipeweaverSession::start(DeviceType::BeacnMix, &sources).unwrap();
    let titles = vec![run(1), run(2)];
    let canvas = session.do_full_render(&titles, &art(), &cache).unwrap();
    assert_eq!(canvas.position, (0, 0));
    assert_eq!((canvas.image.width(), canvas.image.height()), (800, 480));
    assert_eq!(canvas.image.get_pixel(0, 0), BG);
    assert_eq!(canvas.image.get_pixel(100, 91), BORDER);
    assert_eq!(canvas.image.get_pixel(300, 91), BORDER);
    assert_eq!(canvas.image.get_pixel(500, 91), BG);
    // slot 0 is muted, slot 1 is not
    assert_eq!(canvas.image.get_pixel(23, 325).red, 255);
    assert_eq!(canvas.image.get_pixel(223, 325).green, 255);

    let single = session
        .renderer(2)
        .unwrap()
        .paint_channel(Mix::A, &titles[0], &art(), &cache)
        .unwrap();
    for (x, y) in [(0, 0), (50, 50), (100, 150), (23, 245), (199, 399)] {
        assert_eq!(canvas.image.get_pixel(x, y + 80), single.image.get_pixel(x, y));
    }
    let empty = DialImageCache::new();
    assert_eq!(
        session.do_full_render(&titles, &art(), &empty).err(),
        Some(RenderError::MissingDial)
    );
}

#[test]
fn icons_have_to_fit_a_mute_button() {
    assert!(art().icons_fit());
    let wide = MuteArt { muted_icon: Image::new(155, 10), ..art() };
    assert!(!wide.icons_fit());
    let high = MuteArt { unmuted_icon: Image::new(10, 38), ..art() };
    assert!(!high.icons_fit());
    let edge = MuteArt { unmuted_icon: Image::new(154, 37), ..art() };
    assert!(edge.icons_fit());
}

#[test]
fn a_header_is_kept_until_title_or_colour_change() {
    let mut renderer = ChannelRenderer::from_source_device(&source(1, false));
    let first = renderer.draw_header(&run(2));
    // the picture kept is handed out, whatever it is asked to be drawn with
    let kept = renderer.draw_header(&run(5));
    assert_eq!(kept.image.pixels(), first.image.pixels());
    assert_eq!(renderer.paint_header(&run(2)).image.pixels(), first.image.pixels());

    let mut louder = source(1, false);
    louder.volumes.mix_a = 31;
    renderer.update_from_device(&louder);
    assert_eq!(renderer.draw_header(&run(5)).image.pixels(), first.image.pixels());

    let mut renamed = louder.clone();
    renamed.description.name = String::from("Game");
    renderer.update_from_device(&renamed);
    let second = renderer.draw_header(&run(5));
    assert_ne!(second.image.pixels(), first.image.pixels());
    assert_eq!(second.image.pixels(), renderer.paint_header(&run(5)).image.pixels());

    let mut recoloured = renamed.clone();
    recoloured.description.colour.blue = 9;
    renderer.update_from_device(&recoloured);
    let third = renderer.draw_header(&run(5));
    assert_eq!(third.image.get_pixel(0, 37).blue, 9);
}

#[test]
fn a_mute_button_is_kept_until_its_state_changes() {
    let art = art();
    let mut renderer = ChannelRenderer::from_source_device(&source(1, false));
    let a = renderer.draw_mute_box(MuteTarget::TargetA, &art);
    let b = renderer.draw_mute_box(MuteTarget::TargetB, &art);
    let other = MuteArt { to_all: run(1), to_some: run(1), ..self::art() };
    assert_eq!(renderer.draw_mute_box(MuteTarget::TargetA, &other).image.pixels(), a.image.pixels());

    renderer.update_from_device(&source(1, true));
    // the button of target A is drawn anew, that of target B is the one kept
    let muted = renderer.draw_mute_box(MuteTarget::TargetA, &other);
    assert_ne!(muted.image.pixels(), a.image.pixels());
    assert_eq!(muted.image.pixels(), renderer.paint_mute_box(MuteTarget::TargetA, &other).image.pixels());
    assert_eq!(renderer.draw_mute_box(MuteTarget::TargetB, &other).image.pixels(), b.image.pixels());
}

#[test]
fn a_whole_channel_is_kept_for_its_mix_until_anything_changes() {
    let mut cache = cache();
    let mut renderer = ChannelRenderer::from_source_device(&source(1, false));
    let first = renderer.full_render(Mix::A, &run(2), &art(), &cache).unwrap();
    // kept: neither the title given nor the dial cache is looked at
    let kept = renderer.full_render(Mix::A, &run(7), &art(), &DialImageCache::new()).unwrap();
    assert_eq!(kept.image.pixels(), first.image.pixels());
    // another mix is drawn anew
    assert_eq!(
        renderer.full_render(Mix::B, &run(2), &art(), &cache).err(),
        Some(RenderError::Codec(CodecError::Decode))
    );
    assert_eq!(
        renderer.full_render(Mix::A, &run(7), &art(), &cache).unwrap().image.pixels(),
        first.image.pixels()
    );
    cache.insert(Mix::B, 70, dial(Rgba { red: 250, green: 0, blue: 0, alpha: 255 }));
    let second = renderer.full_render(Mix::B, &run(2), &art(), &cache).unwrap();
    assert!(second.image.get_pixel(100, 150).red > 230);
    // a new volume makes the picture stale
    let mut louder = source(1, false);
    louder.volumes.mix_a = 31;
    renderer.update_from_device(&louder);
    assert_eq!(
        renderer.full_render(Mix::B, &run(2), &art(), &DialImageCache::new()).err(),
        Some(RenderError::MissingDial)
    );
}

#[test]
fn a_part_is_encoded_for_its_place_on_the_display() {
    let cache = cache();
    let sources = SourceDevices {
        device_order: DeviceOrder { pinned: vec![], default: vec![1, 2] },
        physical_devices: vec![source(1, false), source(2, true)],
        virtual_devices: vec![],
    };
    let (mut session, _) = PipeweaverSession::start(DeviceType::BeacnMix, &sources).unwrap();
    let art = art();

    let header = session.render_part(DisplayPart::Header, 1, &run(2), &art, &cache).unwrap();
    assert_eq!(header.position, (213, 101));
    let decoded = decode_image(&header.image).unwrap();
    assert_eq!((decoded.width(), decoded.height()), (174, 38));

    let button = session
        .render_part(DisplayPart::MuteBox(MuteTarget::TargetB), 0, &run(2), &art, &cache)
        .unwrap();
    assert_eq!(button.position, (13, 361));
    let decoded = decode_image(&button.image).unwrap();
    assert_eq!((decoded.width(), decoded.height()), (174, 37));
    assert!(decoded.get_pixel(18, 20).green > 200);

    let channel = session.render_part(DisplayPart::Channel, 1, &run(2), &art, &cache).unwrap();
    assert_eq!(channel.position, (200, 80));
    let decoded = decode_image(&channel.image).unwrap();
    assert_eq!((decoded.width(), decoded.height()), (200, 400));

    let volume = session.render_part(DisplayPart::Volume(Mix::B), 0, &run(2), &art, &cache).unwrap();
    assert_eq!(volume.position, (13, 145));
    assert_eq!(volume.image, vec![1, 2, 3]);
    assert_eq!(
        session.render_part(DisplayPart::Volume(Mix::A), 0, &run(2), &art, &DialImageCache::new()).err(),
        Some(PartError::Render(RenderError::MissingDial))
    );

    assert_eq!(
        session.render_part(DisplayPart::Header, 2, &run(2), &art, &cache).err(),
        Some(PartError::NoChannel)
    );
    assert_eq!(
        session.render_part(DisplayPart::Canvas, 0, &run(2), &art, &cache).err(),
        Some(PartError::NoChannel)
    );

    let canvas = session.render_canvas(&vec![run(1), run(2)], &art, &cache).unwrap();
    assert_eq!(canvas.position, (0, 0));
    let decoded = decode_image(&canvas.image).unwrap();
    assert_eq!((decoded.width(), decoded.height()), (800, 480));
    assert_eq!(
        session.render_canvas(&vec![run(1), run(2)], &art, &DialImageCache::new()).err(),
        Some(PartError::Render(RenderError::MissingDial))
    );
    assert_eq!(session.devices_shown(), &vec![1, 2]);
    assert_eq!(session.renderer(2).unwrap().title(), "Music");
}

#[test]
fn the_dials_are_made_of_their_layers() {
    let grey = Rgba { red: 37, green: 41, blue: 39, alpha: 255 };
    let mut layers = DialLayers {
        track: Image::from_pixel(174, 174, grey),
        arcs_a: Vec::new(),
        arcs_b: Vec::new(),
        labels: Vec::new(),
    };
    for percent in 0..=100u8 {
        layers.arcs_a.push(Image::from_pixel(174, 174, Rgba { red: percent * 2, green: 0, blue: 0, alpha: 255 }));
        layers.arcs_b.push(Image::from_pixel(174, 174, Rgba { red: 0, green: 0, blue: percent * 2, alpha: 255 }));
        layers.labels.push(Image::new(174, 174));
    }
    assert!(layers.is_complete());
    let cache = DialHandler::generate(&layers);
    assert!(cache.is_warm());
    assert!(cache.get(Mix::A, 101).is_none());
    let a = decode_image(cache.get(Mix::A, 100).unwrap()).unwrap();
    assert_eq!((a.width(), a.height()), (174, 164));
    assert!(a.get_pixel(80, 80).red > 180 && a.get_pixel(80, 80).blue < 30);
    let b = decode_image(cache.get(Mix::B, 50).unwrap()).unwrap();
    assert!(b.get_pixel(80, 80).blue > 80 && b.get_pixel(80, 80).red < 30);
    assert_eq!(
        cache.get(Mix::A, 7),
        Some(&DrawingUtils::get_volume_image(&layers.track, &layers.arcs_a[7], &layers.labels[7]).unwrap())
    );
    let file = DialHandler::save_cache(&cache).unwrap();
    let loaded = DialHandler::composite_dials(Some(&file)).unwrap();
    assert_eq!(loaded.get(Mix::B, 33), cache.get(Mix::B, 33));
}

#[test]
fn a_track_without_pixels_yields_no_dial() {
    let mut layers = DialLayers {
        track: Image::new(0, 174),
        arcs_a: Vec::new(),
        arcs_b: Vec::new(),
        labels: Vec::new(),
    };
    for _ in 0..=100 {
        layers.arcs_a.push(Image::new(174, 174));
        layers.arcs_b.push(Image::new(174, 174));
        layers.labels.push(Image::new(174, 174));
    }
    let cache = DialHandler::generate(&layers);
    assert!(!cache.is_warm());
    for percent in 0..=255u8 {
        assert!(cache.get(Mix::A, percent).is_none());
        assert!(cache.get(Mix::B, percent).is_none());
    }
}

#[test]
fn every_dial_up_to_a_hundred_is_made_and_none_above() {
    let mut layers = DialLayers {
        track: Image::new(8, 20),
        arcs_a: Vec::new(),
        arcs_b: Vec::new(),
        labels: Vec::new(),
    };
    for _ in 0..=100 {
        layers.arcs_a.push(Image::new(8, 20));
        layers.arcs_b.push(Image::new(8, 20));
        layers.labels.push(Image::new(8, 20));
    }
    let cache = DialHandler::generate(&layers);
    assert!(cache.is_warm());
    for percent in 0..=255u8 {
        assert_eq!(cache.get(Mix::A, percent).is_some(), percent <= 100);
        assert_eq!(cache.get(Mix::B, percent).is_some(), percent <= 100);
    }
    let dial = decode_image(cache.get(Mix::A, 0).unwrap()).unwrap();
    assert_eq!((dial.width(), dial.height()), (8, 20));
}

#[test]
fn dial_layers_are_complete_with_a_layer_for_every_percent() {
    let mut layers = DialLayers {
        track: Image::new(1, 1),
        arcs_a: Vec::new(),
        arcs_b: Vec::new(),
        labels: Vec::new(),
    };
    assert!(!layers.is_complete());
    for _ in 0..=100 {
        layers.arcs_a.push(Image::new(1, 1));
        layers.arcs_b.push(Image::new(1, 1));
        layers.labels.push(Image::new(1, 1));
    }
    assert!(layers.is_complete());
    layers.labels.pop();
    assert!(!layers.is_complete());
}

#[test]
fn a_channel_is_drawn_around_the_dial_it_is_given() {
    let renderer = ChannelRenderer::from_source_device(&source(1, false));
    let dial = Image::from_pixel(174, 164, Rgba { red: 1, green: 2, blue: 3, alpha: 255 });
    let picture = renderer.paint_channel_with(&dial, &run(2), &art());
    assert_eq!(picture.position, (0, 80));
    assert_eq!(picture.image.get_pixel(13, 65), Rgba { red: 1, green: 2, blue: 3, alpha: 255 });
    assert_eq!(picture.image.get_pixel(186, 228), Rgba { red: 1, green: 2, blue: 3, alpha: 255 });
    assert_ne!(picture.image.get_pixel(12, 65), Rgba { red: 1, green: 2, blue: 3, alpha: 255 });
}

#[test]
fn a_display_without_channels_is_blank() {
    let sources = SourceDevices {
        device_order: DeviceOrder { pinned: vec![], default: vec![] },
        physical_devices: vec![source(1, false)],
        virtual_devices: vec![],
    };
    let (session, _) = PipeweaverSession::start(DeviceType::BeacnMix, &sources).unwrap();
    let empty = DialImageCache::new();
    let canvas = session.do_full_render(&vec![], &art(), &empty).unwrap();
    assert_eq!(canvas.position, (0, 0));
    assert_eq!((canvas.image.width(), canvas.image.height()), (800, 480));
    assert!(canvas.image.pixels().iter().all(|pixel| *pixel == BG));
    let encoded = session.render_canvas(&vec![], &art(), &empty).unwrap();
    assert_eq!(encoded.position, (0, 0));
    let decoded = decode_image(&encoded.image).unwrap();
    assert_eq!((decoded.width(), decoded.height()), (800, 480));
    assert_eq!(
        encoded.image,
        DrawingUtils::image_as_jpeg(&canvas.image, BG, 70).unwrap()
    );
}
