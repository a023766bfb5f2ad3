//! Where everything stands on the display: the sizes and places of the parts
//! of a channel, and the colours they are drawn in.
//!
//! The display is 800 by 480 pixels.  A strip of 80 rows at the top is left
//! to the header; below it stand four channels side by side, each 200 by 400
//! pixels.  Places inside a channel are relative to the channel's top left
//! corner.

use crate::colour::Rgba;
use vstd::prelude::*;

verus! {

/// Home of the drawing routines: boxes, gradients, text, compositing and
/// encoding.
pub struct DrawingUtils;

/// A width and a height, in pixels.
pub type Dimension = (u32, u32);

/// A column and a row, in pixels.
pub type Position = (u32, u32);

pub const DISPLAY_DIMENSIONS: Dimension = (800, 480);


/// Top left corner of the channel area on the display.
pub const POSITION_ROOT: Position = (0, 80);

/// A quarter of the display's width; its height less the header strip.
pub const CHANNEL_DIMENSIONS: Dimension = (200, 400);

pub const CHANNEL_MARGIN: u32 = 10;

/// The bordered box of a channel: the channel's width less both margins.
pub const CHANNEL_INNER_DIMENSIONS: Dimension = (180, 310);

pub const CHANNEL_INNER_POSITION: Position = (10, 10);

/// What the border leaves of the inner box.
pub const CONTENT_DIMENSIONS: Dimension = (174, 304);

pub const CONTENT_POSITION: Position = (13, 13);

/// The header: as wide as the content, 30 rows and the corner radius high.
pub const HEADER_DIMENSIONS: Dimension = (174, 38);

/// Below the rounded corners of the inner box.
pub const HEADER_POSITION: Position = (13, 21);

pub const HEADER_TEXT_DIMENSIONS: Dimension = (174, 30);

/// An accent bar.
pub const BAR_DIMENSIONS: Dimension = (174, 6);

/// Directly below the header.
pub const HEADER_BAR_POSITION: Position = (13, 59);

/// Rows cut from the bottom of the dial.
pub const VOLUME_CROP: u32 = 10;

/// The dial: a square as wide as the content.
pub const VOLUME_DIMENSIONS: Dimension = (174, 174);

/// Directly below the header's bar.
pub const VOLUME_POSITION: Position = (13, 65);

/// Directly below the cropped dial.
pub const MUTE_BAR_POSITION: Position = (13, 229);

pub const MUTE_AREA_DIMENSIONS: Dimension = (174, 85);

/// Directly below the second bar.
pub const MUTE_AREA_POSITION: Position = (13, 235);

pub const MUTE_BUTTON_DIMENSIONS: Dimension = (174, 37);

pub const MUTE_POSITION_A: Position = (13, 235);

/// Inside the mute area.
pub const MUTE_LOCAL_POSITION_A: Position = (0, 0);

/// Rows between the two mute buttons.
pub const MUTE_GAP: u32 = 9;

/// One button and the gap below the first.
pub const MUTE_POSITION_B: Position = (13, 281);

/// Inside the mute area.
pub const MUTE_LOCAL_POSITION_B: Position = (0, 46);

pub const ICON_MARGIN: u32 = 10;

pub const MUTE_TEXT_DIMENSIONS: Dimension = (174, 30);

/// Radius of each corner of a box, in pixels.
#[derive(Debug, Clone, Copy, PartialEq, Eq, Structural)]
pub struct BorderRadius {
    pub top_left: u32,
    pub top_right: u32,
    pub bottom_left: u32,
    pub bottom_right: u32,
}

/// Thickness of each edge of a box's border, in pixels.
#[derive(Debug, Clone, Copy, PartialEq, Eq, Structural)]
pub struct BorderThickness {
    pub top: u32,
    pub right: u32,
    pub bottom: u32,
    pub left: u32,
}

/// Direction in which a gradient grows opaque.
#[derive(Debug, Clone, Copy, PartialEq, Eq, Structural)]
pub enum GradientDirection {
    TopToBottom,
    BottomToTop,
}

/// Where a line of text stands in its box.
#[derive(Debug, Clone, Copy, PartialEq, Eq, Structural)]
pub enum TextAlign {
    Left,
    Center,
    Right,
}

pub open spec fn spec_text_colour() -> Rgba {
    Rgba { red: 180, green: 180, blue: 180, alpha: 255 }
}

/// Colour of text.
#[verifier::when_used_as_spec(spec_text_colour)]
pub fn text_colour() -> (colour: Rgba)
    ensures
        colour == spec_text_colour(),
{
    Rgba { red: 180, green: 180, blue: 180, alpha: 255 }
}

pub open spec fn spec_bg_colour() -> Rgba {
    Rgba { red: 42, green: 48, blue: 45, alpha: 255 }
}

/// Colour of the display where nothing is drawn.
#[verifier::when_used_as_spec(spec_bg_colour)]
pub fn bg_colour() -> (colour: Rgba)
    ensures
        colour == spec_bg_colour(),
{
    Rgba { red: 42, green: 48, blue: 45, alpha: 255 }
}

pub open spec fn spec_channel_border_colour() -> Rgba {
    Rgba { red: 101, green: 101, blue: 101, alpha: 255 }
}

/// Colour of the border of a channel's box and of the mute buttons.
#[verifier::when_used_as_spec(spec_channel_border_colour)]
pub fn channel_border_colour() -> (colour: Rgba)
    ensures
        colour == spec_channel_border_colour(),
{
    Rgba { red: 101, green: 101, blue: 101, alpha: 255 }
}

pub open spec fn spec_channel_inner_colour() -> Rgba {
    Rgba { red: 51, green: 55, blue: 53, alpha: 255 }
}

/// Colour inside a channel's box.
#[verifier::when_used_as_spec(spec_channel_inner_colour)]
pub fn channel_inner_colour() -> (colour: Rgba)
    ensures
        colour == spec_channel_inner_colour(),
{
    Rgba { red: 51, green: 55, blue: 53, alpha: 255 }
}

pub open spec fn spec_mute_colour(active: bool) -> Rgba {
    if active {
        Rgba { red: 255, green: 0, blue: 0, alpha: 100 }
    } else {
        Rgba { red: 80, green: 80, blue: 80, alpha: 220 }
    }
}

/// Colour of a mute button: translucent red while the mute is active, grey
/// otherwise.
#[verifier::when_used_as_spec(spec_mute_colour)]
pub fn mute_colour(active: bool) -> (colour: Rgba)
    ensures
        colour == spec_mute_colour(active),
{
    if active {
        Rgba { red: 255, green: 0, blue: 0, alpha: 100 }
    } else {
        Rgba { red: 80, green: 80, blue: 80, alpha: 220 }
    }
}

} // verus!
