//! What the console reports and what it can be told: dials, buttons, their
//! lights, and the commands that the daemon and the console accept.

use crate::channel::{Mix, MuteTarget};
use crate::colour::Rgba;
use vstd::prelude::*;

verus! {

/// Kind of console or microphone.
#[derive(Debug, Clone, Copy, PartialEq, Eq, Structural)]
pub enum DeviceType {
    BeacnMic,
    BeacnStudio,
    BeacnMix,
    BeacnMixCreate,
}

/// One of the four dials, left to right.
#[derive(Debug, Clone, Copy, PartialEq, Eq, Structural)]
pub enum Dials {
    Dial1,
    Dial2,
    Dial3,
    Dial4,
}

/// A button of the console.  The dials can be pressed; the audience buttons
/// form the row below them.
#[derive(Debug, Clone, Copy, PartialEq, Eq, Structural)]
pub enum Buttons {
    AudienceMix,
    PageLeft,
    PageRight,
    Dial1,
    Dial2,
    Dial3,
    Dial4,
    Audience1,
    Audience2,
    Audience3,
    Audience4,
}

/// Whether a button went down or came up.
#[derive(Debug, Clone, Copy, PartialEq, Eq, Structural)]
pub enum ButtonState {
    Press,
    Release,
}

/// An input event of the console.
#[derive(Debug, Clone, Copy, PartialEq, Eq, Structural)]
pub enum Interactions {
    ButtonPress(Buttons, ButtonState),
    DialChanged(Dials, i8),
}

/// A light of the console.
#[derive(Debug, Clone, Copy, PartialEq, Eq, Structural)]
pub enum ButtonLighting {
    Dial1,
    Dial2,
    Dial3,
    Dial4,
    Mix,
}

/// A command that the daemon accepts.
#[derive(Debug, Clone, Copy, PartialEq, Eq, Structural)]
pub enum APICommand {
    SetSourceVolume(u128, Mix, u8),
    AddSourceMuteTarget(u128, MuteTarget),
    DelSourceMuteTarget(u128, MuteTarget),
}

/// A request to the daemon.
#[derive(Debug, Clone, Copy, PartialEq, Eq, Structural)]
pub enum DaemonRequest {
    GetStatus,
    Pipewire(APICommand),
}

/// A request as it goes over the connection: numbered, so that the answer
/// can be told from other traffic.
#[derive(Debug, Clone, Copy, PartialEq, Eq, Structural)]
pub struct WebsocketRequest {
    pub id: u64,
    pub data: DaemonRequest,
}

/// The slot that a dial stands for, counted from 0.
pub open spec fn spec_dial_slot(dial: Dials) -> usize {
    match dial {
        Dials::Dial1 => 0,
        Dials::Dial2 => 1,
        Dials::Dial3 => 2,
        Dials::Dial4 => 3,
    }
}

/// The slot that a dial stands for, counted from 0.
#[verifier::when_used_as_spec(spec_dial_slot)]
pub fn dial_slot(dial: Dials) -> (slot: usize)
    ensures
        slot == spec_dial_slot(dial),
        slot < 4,
{
    match dial {
        Dials::Dial1 => 0,
        Dials::Dial2 => 1,
        Dials::Dial3 => 2,
        Dials::Dial4 => 3,
    }
}

/// The light of the dial at `slot`; `None` above the fourth.
pub open spec fn spec_dial_light(slot: usize) -> Option<ButtonLighting> {
    if slot == 0 {
        Some(ButtonLighting::Dial1)
    } else if slot == 1 {
        Some(ButtonLighting::Dial2)
    } else if slot == 2 {
        Some(ButtonLighting::Dial3)
    } else if slot == 3 {
        Some(ButtonLighting::Dial4)
    } else {
        None
    }
}

/// The light of the dial at `slot`; `None` above the fourth.
#[verifier::when_used_as_spec(spec_dial_light)]
pub fn dial_light(slot: usize) -> (light: Option<ButtonLighting>)
    ensures
        light == spec_dial_light(slot),
{
    if slot == 0 {
        Some(ButtonLighting::Dial1)
    } else if slot == 1 {
        Some(ButtonLighting::Dial2)
    } else if slot == 2 {
        Some(ButtonLighting::Dial3)
    } else if slot == 3 {
        Some(ButtonLighting::Dial4)
    } else {
        None
    }
}

/// What a button of the mute rows stands for: its slot and the mute target of
/// its row.  The dials' own buttons toggle target A, the audience buttons
/// target B.  `None` for the other buttons.
pub open spec fn spec_mute_button(button: Buttons) -> Option<(usize, MuteTarget)> {
    match button {
        Buttons::Dial1 => Some((0usize, MuteTarget::TargetA)),
        Buttons::Dial2 => Some((1usize, MuteTarget::TargetA)),
        Buttons::Dial3 => Some((2usize, MuteTarget::TargetA)),
        Buttons::Dial4 => Some((3usize, MuteTarget::TargetA)),
        Buttons::Audience1 => Some((0usize, MuteTarget::TargetB)),
        Buttons::Audience2 => Some((1usize, MuteTarget::TargetB)),
        Buttons::Audience3 => Some((2usize, MuteTarget::TargetB)),
        Buttons::Audience4 => Some((3usize, MuteTarget::TargetB)),
        _ => None,
    }
}

/// What a button of the mute rows stands for.
#[verifier::when_used_as_spec(spec_mute_button)]
pub fn mute_button(button: Buttons) -> (key: Option<(usize, MuteTarget)>)
    ensures
        key == spec_mute_button(button),
{
    match button {
        Buttons::Dial1 => Some((0usize, MuteTarget::TargetA)),
        Buttons::Dial2 => Some((1usize, MuteTarget::TargetA)),
        Buttons::Dial3 => Some((2usize, MuteTarget::TargetA)),
        Buttons::Dial4 => Some((3usize, MuteTarget::TargetA)),
        Buttons::Audience1 => Some((0usize, MuteTarget::TargetB)),
        Buttons::Audience2 => Some((1usize, MuteTarget::TargetB)),
        Buttons::Audience3 => Some((2usize, MuteTarget::TargetB)),
        Buttons::Audience4 => Some((3usize, MuteTarget::TargetB)),
        _ => None,
    }
}

pub open spec fn spec_mix_colour(mix: Mix) -> Rgba {
    match mix {
        Mix::A => Rgba { red: 89, green: 177, blue: 182, alpha: 255 },
        Mix::B => Rgba { red: 224, green: 124, blue: 36, alpha: 255 },
    }
}

/// The colour that stands for a mix, on the dial and on the mix light.
#[verifier::when_used_as_spec(spec_mix_colour)]
pub fn mix_colour(mix: Mix) -> (colour: Rgba)
    ensures
        colour == spec_mix_colour(mix),
{
    match mix {
        Mix::A => Rgba { red: 89, green: 177, blue: 182, alpha: 255 },
        Mix::B => Rgba { red: 224, green: 124, blue: 36, alpha: 255 },
    }
}

pub open spec fn spec_other_mix(mix: Mix) -> Mix {
    match mix {
        Mix::A => Mix::B,
        Mix::B => Mix::A,
    }
}

/// The mix that `mix` is not.
#[verifier::when_used_as_spec(spec_other_mix)]
pub fn other_mix(mix: Mix) -> (other: Mix)
    ensures
        other == spec_other_mix(mix),
{
    match mix {
        Mix::A => Mix::B,
        Mix::B => Mix::A,
    }
}

} // verus!
