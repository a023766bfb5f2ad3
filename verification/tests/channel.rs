use beacn_utility::channel::{
    ChannelChangedProperty, ChannelRenderer, Colour, DeviceDescription, Mix, MuteStates,
    MuteTarget, SourceDevice, UpdateFrom, Volumes,
};
use beacn_utility::colour::Rgba;

fn device() -> SourceDevice {
    SourceDevice {
        description: DeviceDescription {
            id: 7,
            name: String::from("Music"),
            colour: Colour { red: 10, green: 20, blue: 30 },
        },
        volumes: Volumes { mix_a: 50, mix_b: 60 },
        mute_states: MuteStates {
            mute_state: vec![MuteTarget::TargetB],
            mute_targets_a: vec![],
            mute_targets_b: vec![3, 4],
        },
    }
}

#[test]
fn a_renderer_takes_its_attributes_from_the_device() {
    let renderer = ChannelRenderer::from_source_device(&device());
    assert_eq!(renderer.title(), "Music");
    assert_eq!(renderer.colour(), Rgba { red: 10, green: 20, blue: 30, alpha: 255 });
    assert_eq!(renderer.volume(Mix::A), 50);
    assert_eq!(renderer.volume(Mix::B), 60);
    let a = renderer.mute_state(MuteTarget::TargetA);
    assert!(!a.is_active);
    assert!(a.is_mute_to_all);
    let b = renderer.mute_state(MuteTarget::TargetB);
    assert!(b.is_active);
    assert!(!b.is_mute_to_all);
}

#[test]
fn from_gives_the_same_renderer_as_from_source_device() {
    let renderer = ChannelRenderer::from(device());
    assert_eq!(renderer.title(), "Music");
    assert_eq!(renderer.volume(Mix::B), 60);
    assert!(renderer.mute_state(MuteTarget::TargetB).is_active);
}

#[test]
fn the_same_snapshot_changes_nothing() {
    let mut renderer = ChannelRenderer::from_source_device(&device());
    assert_eq!(renderer.update_from_device(&device()), vec![]);
    assert_eq!(renderer.update_from(device()), vec![]);
}

#[test]
fn a_new_volume_of_one_mix_is_the_only_change() {
    let mut renderer = ChannelRenderer::from_source_device(&device());
    let mut changed = device();
    changed.volumes.mix_b = 61;
    assert_eq!(
        renderer.update_from_device(&changed),
        vec![ChannelChangedProperty::Volumes(Mix::B)]
    );
    assert_eq!(renderer.volume(Mix::B), 61);
    let mut again = device();
    again.volumes.mix_a = 0;
    again.volumes.mix_b = 61;
    assert_eq!(renderer.update_from(again), vec![ChannelChangedProperty::Volumes(Mix::A)]);
    assert_eq!(renderer.volume(Mix::A), 0);
}

#[test]
fn every_change_is_reported_once_and_in_order() {
    let mut renderer = ChannelRenderer::from_source_device(&device());
    let changed = SourceDevice {
        description: DeviceDescription {
            id: 7,
            name: String::from("Game"),
            colour: Colour { red: 1, green: 2, blue: 3 },
        },
        volumes: Volumes { mix_a: 51, mix_b: 59 },
        mute_states: MuteStates {
            mute_state: vec![MuteTarget::TargetA],
            mute_targets_a: vec![9],
            mute_targets_b: vec![],
        },
    };
    assert_eq!(
        renderer.update_from_device(&changed),
        vec![
            ChannelChangedProperty::Title,
            ChannelChangedProperty::Colour,
            ChannelChangedProperty::Volumes(Mix::A),
            ChannelChangedProperty::Volumes(Mix::B),
            ChannelChangedProperty::MuteState(MuteTarget::TargetA),
            ChannelChangedProperty::MuteState(MuteTarget::TargetB),
        ]
    );
    assert_eq!(renderer.title(), "Game");
    assert_eq!(renderer.update_from_device(&changed), vec![]);
}

#[test]
fn a_new_routing_alone_reports_the_mute_state() {
    let mut renderer = ChannelRenderer::from_source_device(&device());
    let mut changed = device();
    changed.mute_states.mute_targets_a = vec![5];
    assert_eq!(
        renderer.update_from_device(&changed),
        vec![ChannelChangedProperty::MuteState(MuteTarget::TargetA)]
    );
    assert!(!renderer.mute_state(MuteTarget::TargetA).is_mute_to_all);
}

#[test]
fn a_target_with_a_new_routing_follows_the_targets_with_a_new_state() {
    let mut renderer = ChannelRenderer::from_source_device(&device());
    let mut changed = device();
    changed.mute_states.mute_targets_a = vec![5];
    changed.mute_states.mute_state = vec![];
    assert_eq!(
        renderer.update_from_device(&changed),
        vec![
            ChannelChangedProperty::MuteState(MuteTarget::TargetB),
            ChannelChangedProperty::MuteState(MuteTarget::TargetA),
        ]
    );
}

#[test]
fn a_volume_above_a_hundred_is_stored_as_a_hundred() {
    let mut loud = device();
    loud.volumes.mix_a = 250;
    let mut renderer = ChannelRenderer::from_source_device(&loud);
    assert_eq!(renderer.volume(Mix::A), 100);
    loud.volumes.mix_a = 101;
    assert_eq!(renderer.update_from_device(&loud), vec![]);
    loud.volumes.mix_a = 99;
    assert_eq!(
        renderer.update_from_device(&loud),
        vec![ChannelChangedProperty::Volumes(Mix::A)]
    );
}
