//! The picture of a channel: its box, header, accent bars, dial and mute
//! buttons, each at its place, and all of them laid over one another.

use crate::channel::{
    CachedChannel, CachedHeader, CachedMuteBox, ChannelAttributes, ChannelRenderer, Mix, MuteState,
    MuteTarget,
};
use crate::codec::{decode_image, jpeg_encoding, CodecError, JPEG_QUALITY};
use crate::colour::Rgba;
use crate::compose::{composite, flattened_bytes};
use crate::dial_cache::{
    complete, only_dials, CacheModel, DialHandler, DialImageCache, MAX_PERCENT,
};
use crate::layout::{
    bg_colour, channel_border_colour, channel_inner_colour, mute_colour, text_colour,
    BorderRadius, BorderThickness, DrawingUtils, GradientDirection, Position, TextAlign,
    BAR_DIMENSIONS, CHANNEL_DIMENSIONS, CHANNEL_INNER_DIMENSIONS, CHANNEL_INNER_POSITION,
    DISPLAY_DIMENSIONS, HEADER_BAR_POSITION, HEADER_DIMENSIONS, HEADER_POSITION,
    HEADER_TEXT_DIMENSIONS, ICON_MARGIN, MUTE_AREA_DIMENSIONS, MUTE_AREA_POSITION,
    MUTE_BAR_POSITION, MUTE_BUTTON_DIMENSIONS, MUTE_LOCAL_POSITION_A, MUTE_LOCAL_POSITION_B,
    MUTE_POSITION_A, MUTE_POSITION_B, MUTE_TEXT_DIMENSIONS, POSITION_ROOT, VOLUME_CROP,
    VOLUME_DIMENSIONS, VOLUME_POSITION,
};
use crate::paging::CHANNEL_COUNT;
use crate::raster::{cropped, filled, lemma_cropped, transparent, Image, ImageView};
use crate::session::PipeweaverSession;
use crate::shapes::{box_view, gradient_view, outline_of};
use crate::text::{glyph_views, text_view, Glyph, GlyphView};
use vstd::prelude::*;

verus! {

/// Alpha of the header's gradient.
pub const HEADER_ALPHA: u8 = 100;

/// Alpha of the gradient behind the mute buttons.
pub const MUTE_AREA_ALPHA: u8 = 120;

/// Widest icon that fits beside a mute button's label.
pub const MAX_ICON_WIDTH: u32 = 154;

/// Highest icon that fits a mute button.
pub const MAX_ICON_HEIGHT: u32 = 37;

/// A picture and the place of its top left corner.
#[derive(Debug)]
pub struct BeacnImage {
    pub position: Position,
    pub image: Image,
}

/// An encoded picture and the place of its top left corner.
#[derive(Debug)]
pub struct RawImage {
    pub position: Position,
    pub image: Vec<u8>,
}

/// Why a channel cannot be drawn.
#[derive(Debug, Clone, Copy, PartialEq, Eq, Structural)]
pub enum RenderError {
    /// The dial cache holds no image for the channel's volume.
    MissingDial,
    /// The cached dial cannot be decoded.
    Codec(CodecError),
}

/// A rasterized line of text: its glyphs, and the row of its baseline in the
/// box that it is drawn into.
#[derive(Debug, Clone)]
pub struct TextRun {
    pub glyphs: Vec<Glyph>,
    pub baseline_y: i32,
}

impl TextRun {
    /// Every glyph is well formed.
    pub open spec fn wf(&self) -> bool {
        forall|i: int| 0 <= i < self.glyphs@.len() ==> (#[trigger] self.glyphs@[i])@.wf()
    }

    /// The glyphs as mathematical values.
    pub open spec fn views(&self) -> Seq<GlyphView> {
        glyph_views(self.glyphs@)
    }
}

/// What the mute buttons are drawn with: the two labels, rasterized, and the
/// two icons.
#[derive(Debug, Clone)]
pub struct MuteArt {
    /// "Mute to All".
    pub to_all: TextRun,
    /// "Mute To...".
    pub to_some: TextRun,
    /// Shown while the mute is active.
    pub muted_icon: Image,
    /// Shown while it is not.
    pub unmuted_icon: Image,
}

impl MuteArt {
    /// The labels are well formed and the icons fit a mute button.
    pub open spec fn wf(&self) -> bool {
        &&& self.to_all.wf()
        &&& self.to_some.wf()
        &&& self.muted_icon@.wf()
        &&& self.unmuted_icon@.wf()
        &&& self.muted_icon@.width <= MAX_ICON_WIDTH
        &&& self.muted_icon@.height <= MAX_ICON_HEIGHT
        &&& self.unmuted_icon@.width <= MAX_ICON_WIDTH
        &&& self.unmuted_icon@.height <= MAX_ICON_HEIGHT
    }

    /// The label for a mute state: by whether the mute goes to all.
    pub open spec fn label(&self, state: MuteState) -> TextRun {
        if state.is_mute_to_all {
            self.to_all
        } else {
            self.to_some
        }
    }

    /// The icon for a mute state: by whether the mute is active.
    pub open spec fn icon(&self, state: MuteState) -> Image {
        if state.is_active {
            self.muted_icon
        } else {
            self.unmuted_icon
        }
    }

    /// True when both icons fit a mute button.
    pub fn icons_fit(&self) -> (fit: bool)
        ensures
            fit == (self.muted_icon@.width <= MAX_ICON_WIDTH && self.muted_icon@.height
                <= MAX_ICON_HEIGHT && self.unmuted_icon@.width <= MAX_ICON_WIDTH
                && self.unmuted_icon@.height <= MAX_ICON_HEIGHT),
    {
        self.muted_icon.width() <= MAX_ICON_WIDTH && self.muted_icon.height() <= MAX_ICON_HEIGHT
            && self.unmuted_icon.width() <= MAX_ICON_WIDTH && self.unmuted_icon.height()
            <= MAX_ICON_HEIGHT
    }
}

pub open spec fn spec_inner_border() -> BorderThickness {
    BorderThickness { top: 3, right: 3, bottom: 3, left: 3 }
}

/// Border of a channel's box.
#[verifier::when_used_as_spec(spec_inner_border)]
pub fn inner_border() -> (border: BorderThickness)
    ensures
        border == spec_inner_border(),
{
    BorderThickness { top: 3, right: 3, bottom: 3, left: 3 }
}

pub open spec fn spec_inner_radius() -> BorderRadius {
    BorderRadius { top_left: 8, top_right: 8, bottom_left: 0, bottom_right: 0 }
}

/// Corners of a channel's box: the upper two are rounded.
#[verifier::when_used_as_spec(spec_inner_radius)]
pub fn inner_radius() -> (radius: BorderRadius)
    ensures
        radius == spec_inner_radius(),
{
    BorderRadius { top_left: 8, top_right: 8, bottom_left: 0, bottom_right: 0 }
}

pub open spec fn spec_no_radius() -> BorderRadius {
    BorderRadius { top_left: 0, top_right: 0, bottom_left: 0, bottom_right: 0 }
}

/// Square corners.
#[verifier::when_used_as_spec(spec_no_radius)]
pub fn no_radius() -> (radius: BorderRadius)
    ensures
        radius == spec_no_radius(),
{
    BorderRadius { top_left: 0, top_right: 0, bottom_left: 0, bottom_right: 0 }
}

pub open spec fn spec_mute_border(target: MuteTarget) -> BorderThickness {
    match target {
        MuteTarget::TargetA => BorderThickness { top: 0, right: 0, bottom: 2, left: 0 },
        MuteTarget::TargetB => BorderThickness { top: 2, right: 0, bottom: 0, left: 0 },
    }
}

/// Border of a mute button: a line on the side that faces the other button.
#[verifier::when_used_as_spec(spec_mute_border)]
pub fn mute_border(target: MuteTarget) -> (border: BorderThickness)
    ensures
        border == spec_mute_border(target),
{
    match target {
        MuteTarget::TargetA => BorderThickness { top: 0, right: 0, bottom: 2, left: 0 },
        MuteTarget::TargetB => BorderThickness { top: 2, right: 0, bottom: 0, left: 0 },
    }
}

pub open spec fn spec_mute_local_position(target: MuteTarget) -> Position {
    match target {
        MuteTarget::TargetA => MUTE_LOCAL_POSITION_A,
        MuteTarget::TargetB => MUTE_LOCAL_POSITION_B,
    }
}

/// Place of a mute button inside the mute area.
#[verifier::when_used_as_spec(spec_mute_local_position)]
pub fn mute_local_position(target: MuteTarget) -> (position: Position)
    ensures
        position == spec_mute_local_position(target),
{
    match target {
        MuteTarget::TargetA => MUTE_LOCAL_POSITION_A,
        MuteTarget::TargetB => MUTE_LOCAL_POSITION_B,
    }
}

pub open spec fn spec_mute_position(target: MuteTarget) -> Position {
    match target {
        MuteTarget::TargetA => MUTE_POSITION_A,
        MuteTarget::TargetB => MUTE_POSITION_B,
    }
}

/// Place of a mute button inside the channel.
#[verifier::when_used_as_spec(spec_mute_position)]
pub fn mute_position(target: MuteTarget) -> (position: Position)
    ensures
        position == spec_mute_position(target),
{
    match target {
        MuteTarget::TargetA => MUTE_POSITION_A,
        MuteTarget::TargetB => MUTE_POSITION_B,
    }
}

/// The box of a channel.
pub open spec fn content_box_view() -> ImageView {
    box_view(
        outline_of(
            CHANNEL_INNER_DIMENSIONS.0,
            CHANNEL_INNER_DIMENSIONS.1,
            spec_inner_border(),
            spec_inner_radius(),
        ),
        channel_border_colour(),
        bg_colour(),
        channel_inner_colour(),
    )
}

/// The header of a channel: the title, centred, over a gradient of the
/// accent colour that grows downwards.
pub open spec fn header_view(colour: Rgba, title: Seq<GlyphView>, baseline: int) -> ImageView {
    composite(
        gradient_view(
            HEADER_DIMENSIONS.0 as int,
            HEADER_DIMENSIONS.1 as int,
            colour.with_alpha(HEADER_ALPHA),
            GradientDirection::TopToBottom,
        ),
        text_view(
            title,
            HEADER_TEXT_DIMENSIONS.0 as int,
            HEADER_TEXT_DIMENSIONS.1 as int,
            baseline,
            text_colour(),
            TextAlign::Center,
        ),
        0,
        0,
    )
}

/// An accent bar.
pub open spec fn bar_view(colour: Rgba) -> ImageView {
    filled(BAR_DIMENSIONS.0 as int, BAR_DIMENSIONS.1 as int, colour)
}

/// What lies behind the mute buttons: a gradient of the accent colour that
/// grows upwards.
pub open spec fn mute_background_view(colour: Rgba) -> ImageView {
    gradient_view(
        MUTE_AREA_DIMENSIONS.0 as int,
        MUTE_AREA_DIMENSIONS.1 as int,
        colour.with_alpha(MUTE_AREA_ALPHA),
        GradientDirection::BottomToTop,
    )
}

/// Row, inside the mute area, of the top of something `height` rows high
/// that is centred in the button of `target`.
pub open spec fn centred_row(target: MuteTarget, height: int) -> int {
    MUTE_BUTTON_DIMENSIONS.1 / 2 - height / 2 + spec_mute_local_position(target).1
        + spec_mute_border(target).top
}

/// A mute button: over the background of the mute area, the button's box,
/// its label right of the icon, and the icon; cut to the button.
pub open spec fn mute_box_view(
    colour: Rgba,
    state: MuteState,
    target: MuteTarget,
    label: Seq<GlyphView>,
    baseline: int,
    icon: ImageView,
) -> ImageView {
    let local = spec_mute_local_position(target);
    let boxed = composite(
        mute_background_view(colour),
        box_view(
            outline_of(
                MUTE_BUTTON_DIMENSIONS.0,
                MUTE_BUTTON_DIMENSIONS.1,
                spec_mute_border(target),
                spec_no_radius(),
            ),
            channel_border_colour(),
            transparent(),
            mute_colour(state.is_active),
        ),
        local.0 as int,
        local.1 as int,
    );
    let labelled = composite(
        boxed,
        text_view(
            label,
            MUTE_TEXT_DIMENSIONS.0 - icon.width - 2 * ICON_MARGIN,
            MUTE_TEXT_DIMENSIONS.1 as int,
            baseline,
            text_colour(),
            TextAlign::Left,
        ),
        icon.width + 2 * ICON_MARGIN,
        centred_row(target, MUTE_TEXT_DIMENSIONS.1 as int),
    );
    let finished = composite(labelled, icon, ICON_MARGIN as int, centred_row(target, icon.height));
    cropped(
        finished,
        local.0 as int,
        local.1 as int,
        MUTE_BUTTON_DIMENSIONS.0 as int,
        MUTE_BUTTON_DIMENSIONS.1 as int,
    )
}

/// A mute button of a channel, drawn with `art`.
pub open spec fn mute_box_of(channel: ChannelAttributes, target: MuteTarget, art: MuteArt) -> ImageView {
    let state = channel.mute(target);
    mute_box_view(
        channel.colour,
        state,
        target,
        art.label(state).views(),
        art.label(state).baseline_y as int,
        art.icon(state)@,
    )
}

/// A channel as a whole: on the display's background colour, from bottom to
/// top, the box, the header, the two accent bars, the background of the mute
/// area, the dial and the two mute buttons.
pub open spec fn channel_view(
    channel: ChannelAttributes,
    title: TextRun,
    art: MuteArt,
    dial: ImageView,
) -> ImageView {
    let base = filled(CHANNEL_DIMENSIONS.0 as int, CHANNEL_DIMENSIONS.1 as int, bg_colour());
    let a = composite(
        base,
        content_box_view(),
        CHANNEL_INNER_POSITION.0 as int,
        CHANNEL_INNER_POSITION.1 as int,
    );
    let b = composite(
        a,
        header_view(channel.colour, title.views(), title.baseline_y as int),
        HEADER_POSITION.0 as int,
        HEADER_POSITION.1 as int,
    );
    let c = composite(
        b,
        bar_view(channel.colour),
        HEADER_BAR_POSITION.0 as int,
        HEADER_BAR_POSITION.1 as int,
    );
    let d = composite(
        c,
        bar_view(channel.colour),
        MUTE_BAR_POSITION.0 as int,
        MUTE_BAR_POSITION.1 as int,
    );
    let e = composite(
        d,
        mute_background_view(channel.colour),
        MUTE_AREA_POSITION.0 as int,
        MUTE_AREA_POSITION.1 as int,
    );
    let f = composite(e, dial, VOLUME_POSITION.0 as int, VOLUME_POSITION.1 as int);
    let g = composite(
        f,
        mute_box_of(channel, MuteTarget::TargetA, art),
        MUTE_POSITION_A.0 as int,
        MUTE_POSITION_A.1 as int,
    );
    composite(
        g,
        mute_box_of(channel, MuteTarget::TargetB, art),
        MUTE_POSITION_B.0 as int,
        MUTE_POSITION_B.1 as int,
    )
}

/// True when `error` is one that decoding a dial can end in.
pub open spec fn is_decode_error(error: RenderError) -> bool {
    error == RenderError::Codec(CodecError::Decode) || error == RenderError::Codec(
        CodecError::Size,
    )
}

/// True when `picture` is the channel `channel` drawn with `title` and `art`
/// around some dial.
pub open spec fn is_channel_picture(
    picture: ImageView,
    channel: ChannelAttributes,
    title: TextRun,
    art: MuteArt,
) -> bool {
    exists|dial: ImageView| dial.wf() && picture == #[trigger] channel_view(channel, title, art, dial)
}

impl ChannelRenderer {
    /// The box of the channel.
    pub fn draw_content_box(&self) -> (out: BeacnImage)
        ensures
            out.position == CHANNEL_INNER_POSITION,
            out.image@ == content_box_view(),
            out.image@.wf(),
    {
        BeacnImage {
            position: CHANNEL_INNER_POSITION,
            image: DrawingUtils::draw_box(
                CHANNEL_INNER_DIMENSIONS.0,
                CHANNEL_INNER_DIMENSIONS.1,
                inner_border(),
                inner_radius(),
                channel_border_colour(),
                bg_colour(),
                channel_inner_colour(),
            ),
        }
    }

    /// The header of the channel, drawn anew with the title as rasterized in
    /// `title`.
    pub fn paint_header(&self, title: &TextRun) -> (out: BeacnImage)
        requires
            title.wf(),
        ensures
            out.position == HEADER_POSITION,
            out.image@ == header_view(self@.colour, title.views(), title.baseline_y as int),
            out.image@.wf(),
    {
        let colour = self.colour().with_alpha(HEADER_ALPHA);
        let mut base = DrawingUtils::draw_gradient(
            HEADER_DIMENSIONS.0,
            HEADER_DIMENSIONS.1,
            colour,
            GradientDirection::TopToBottom,
        );
        let text = DrawingUtils::draw_text(
            &title.glyphs,
            HEADER_TEXT_DIMENSIONS.0,
            HEADER_TEXT_DIMENSIONS.1,
            title.baseline_y,
            text_colour(),
            TextAlign::Center,
        );
        DrawingUtils::composite_from(&mut base, &text, 0, 0);
        BeacnImage { position: HEADER_POSITION, image: base }
    }

    /// An accent bar for the place `position`.
    pub fn draw_bar(&self, position: Position) -> (out: BeacnImage)
        ensures
            out.position == position,
            out.image@ == bar_view(self@.colour),
            out.image@.wf(),
    {
        BeacnImage {
            position,
            image: Image::from_pixel(BAR_DIMENSIONS.0, BAR_DIMENSIONS.1, self.colour()),
        }
    }

    /// What lies behind the mute buttons.
    pub fn draw_mute_background(&self) -> (out: BeacnImage)
        ensures
            out.position == MUTE_AREA_POSITION,
            out.image@ == mute_background_view(self@.colour),
            out.image@.wf(),
    {
        BeacnImage {
            position: MUTE_AREA_POSITION,
            image: DrawingUtils::draw_gradient(
                MUTE_AREA_DIMENSIONS.0,
                MUTE_AREA_DIMENSIONS.1,
                self.colour().with_alpha(MUTE_AREA_ALPHA),
                GradientDirection::BottomToTop,
            ),
        }
    }

    /// The mute button of `target`, drawn anew: label and icon by the state
    /// of the mute, drawn with `art`.
    pub fn paint_mute_box(&self, target: MuteTarget, art: &MuteArt) -> (out: BeacnImage)
        requires
            art.wf(),
        ensures
            out.position == spec_mute_position(target),
            out.image@ == mute_box_of(self@, target, *art),
            out.image@.wf(),
    {
        let state = self.mute_state(target);
        let mut background = self.draw_mute_background().image;
        let label = if state.is_mute_to_all {
            &art.to_all
        } else {
            &art.to_some
        };
        let icon = if state.is_active {
            &art.muted_icon
        } else {
            &art.unmuted_icon
        };
        assert(*label == art.label(state));
        assert(*icon == art.icon(state));
        let border = mute_border(target);
        let mute_box = DrawingUtils::draw_box(
            MUTE_BUTTON_DIMENSIONS.0,
            MUTE_BUTTON_DIMENSIONS.1,
            border,
            no_radius(),
            channel_border_colour(),
            Rgba { red: 0, green: 0, blue: 0, alpha: 0 },
            mute_colour(state.is_active),
        );
        let (x, y) = mute_local_position(target);
        DrawingUtils::composite_from(&mut background, &mute_box, x, y);
        let text_width: u32 = MUTE_TEXT_DIMENSIONS.0 - icon.width() - ICON_MARGIN * 2;
        let text = DrawingUtils::draw_text(
            &label.glyphs,
            text_width,
            MUTE_TEXT_DIMENSIONS.1,
            label.baseline_y,
            text_colour(),
            TextAlign::Left,
        );
        let middle: u32 = MUTE_BUTTON_DIMENSIONS.1 / 2;
        let text_y: u32 = middle - text.height() / 2 + y + border.top;
        let icon_y: u32 = middle - icon.height() / 2 + y + border.top;
        let text_x: u32 = icon.width() + ICON_MARGIN * 2;
        DrawingUtils::composite_from(&mut background, &text, text_x, text_y);
        DrawingUtils::composite_from(&mut background, icon, ICON_MARGIN, icon_y);
        let image = background.crop(x, y, MUTE_BUTTON_DIMENSIONS.0, MUTE_BUTTON_DIMENSIONS.1);
        BeacnImage { position: mute_position(target), image }
    }

    /// The encoded dial for the volume of `mix`, as `cache` holds it.
    pub fn get_volume(&self, mix: Mix, cache: &DialImageCache) -> (out: Result<
        RawImage,
        RenderError,
    >)
        ensures
            match out {
                Ok(raw) => cache@.contains_key((mix, self@.volume(mix))) && raw.position
                    == VOLUME_POSITION && raw.image@ == cache@[(mix, self@.volume(mix))],
                Err(error) => !cache@.contains_key((mix, self@.volume(mix))) && error
                    == RenderError::MissingDial,
            },
    {
        match cache.get(mix, self.volume(mix)) {
            Some(bytes) => Ok(RawImage { position: VOLUME_POSITION, image: bytes.clone() }),
            None => Err(RenderError::MissingDial),
        }
    }

    /// The dial for the volume of `mix`, decoded from what `cache` holds.
    /// Fails where the cache holds no such dial, and where the decoder does
    /// not make an image of it.
    pub fn draw_volume(&self, mix: Mix, cache: &DialImageCache) -> (out: Result<
        BeacnImage,
        RenderError,
    >)
        ensures
            !cache@.contains_key((mix, self@.volume(mix))) ==> (out matches Err(e) && e
                == RenderError::MissingDial),
            cache@.contains_key((mix, self@.volume(mix))) ==> match out {
                Ok(picture) => picture.position == VOLUME_POSITION && picture.image@.wf(),
                Err(error) => is_decode_error(error),
            },
    {
        match cache.get(mix, self.volume(mix)) {
            None => Err(RenderError::MissingDial),
            Some(bytes) => match decode_image(bytes) {
                Ok(image) => Ok(BeacnImage { position: VOLUME_POSITION, image }),
                Err(error) => Err(RenderError::Codec(error)),
            },
        }
    }

    /// The channel as a whole, drawn anew around the dial `dial`.
    pub fn paint_channel_with(&self, dial: &Image, title: &TextRun, art: &MuteArt) -> (out:
        BeacnImage)
        requires
            dial@.wf(),
            title.wf(),
            art.wf(),
        ensures
            out.position == POSITION_ROOT,
            out.image@ == channel_view(self@, *title, *art, dial@),
            out.image@.wf(),
    {
        let mut base = Image::from_pixel(CHANNEL_DIMENSIONS.0, CHANNEL_DIMENSIONS.1, bg_colour());
        let content = self.draw_content_box();
        let header = self.paint_header(title);
        let header_bar = self.draw_bar(HEADER_BAR_POSITION);
        let mute_bar = self.draw_bar(MUTE_BAR_POSITION);
        let mute_bg = self.draw_mute_background();
        let mute_a = self.paint_mute_box(MuteTarget::TargetA, art);
        let mute_b = self.paint_mute_box(MuteTarget::TargetB, art);
        DrawingUtils::composite_from_pos(&mut base, &content.image, content.position);
        DrawingUtils::composite_from_pos(&mut base, &header.image, header.position);
        DrawingUtils::composite_from_pos(&mut base, &header_bar.image, header_bar.position);
        DrawingUtils::composite_from_pos(&mut base, &mute_bar.image, mute_bar.position);
        DrawingUtils::composite_from_pos(&mut base, &mute_bg.image, mute_bg.position);
        DrawingUtils::composite_from_pos(&mut base, dial, VOLUME_POSITION);
        DrawingUtils::composite_from_pos(&mut base, &mute_a.image, mute_a.position);
        DrawingUtils::composite_from_pos(&mut base, &mute_b.image, mute_b.position);
        BeacnImage { position: POSITION_ROOT, image: base }
    }

    /// The channel as a whole, drawn anew, with the dial of `active_mix` as
    /// it is decoded from `cache`.  Fails where the dial cannot be drawn.
    pub fn paint_channel(
        &self,
        active_mix: Mix,
        title: &TextRun,
        art: &MuteArt,
        cache: &DialImageCache,
    ) -> (out: Result<BeacnImage, RenderError>)
        requires
            title.wf(),
            art.wf(),
        ensures
            !cache@.contains_key((active_mix, self@.volume(active_mix))) ==> (out matches Err(e)
                && e == RenderError::MissingDial),
            cache@.contains_key((active_mix, self@.volume(active_mix))) ==> match out {
                Ok(picture) => picture.position == POSITION_ROOT && picture.image@.wf()
                    && is_channel_picture(picture.image@, self@, *title, *art),
                Err(error) => is_decode_error(error),
            },
    {
        match self.draw_volume(active_mix, cache) {
            Ok(dial) => Ok(self.paint_channel_with(&dial.image, title, art)),
            Err(error) => Err(error),
        }
    }
}

/// The header that a renderer hands out: the one it keeps, or else a new one
/// drawn with `title`.
pub open spec fn header_picture(renderer: ChannelRenderer, title: TextRun) -> ImageView {
    match renderer.cached_header() {
        Some(kept) => kept,
        None => header_view(renderer@.colour, title.views(), title.baseline_y as int),
    }
}

/// The mute button that a renderer hands out: the one it keeps, or else a new
/// one drawn with `art`.
pub open spec fn mute_box_picture(renderer: ChannelRenderer, target: MuteTarget, art: MuteArt) -> ImageView {
    match renderer.cached_mute_box(target) {
        Some(kept) => kept,
        None => mute_box_of(renderer@, target, art),
    }
}

/// The picture of the whole channel that a renderer keeps for `mix`, if it
/// keeps one for that mix.
pub open spec fn kept_channel(renderer: ChannelRenderer, mix: Mix) -> Option<ImageView> {
    match renderer.cached_channel() {
        Some((kept_mix, kept)) if kept_mix == mix => Some(kept),
        _ => None,
    }
}

/// True when `out` is what `full_render` may hand out for `before`, and
/// `after` what it leaves.  A picture kept for the mix is handed out as it
/// is.  Else the channel is drawn anew and the new picture kept; this fails,
/// and keeps nothing new, where the dial is missing or cannot be decoded.
pub open spec fn rendered_channel(
    before: ChannelRenderer,
    after: ChannelRenderer,
    out: Result<ImageView, RenderError>,
    mix: Mix,
    title: TextRun,
    art: MuteArt,
    cache: CacheModel,
) -> bool {
    match kept_channel(before, mix) {
        Some(kept) => out == Ok::<ImageView, RenderError>(kept) && after.cached_channel()
            == before.cached_channel(),
        None => if !cache.contains_key((mix, before@.volume(mix))) {
            out == Err::<ImageView, RenderError>(RenderError::MissingDial)
                && after.cached_channel() == before.cached_channel()
        } else {
            match out {
                Ok(picture) => picture.wf() && is_channel_picture(picture, before@, title, art)
                    && after.cached_channel() == Some((mix, picture)),
                Err(error) => is_decode_error(error) && after.cached_channel()
                    == before.cached_channel(),
            }
        },
    }
}

impl ChannelRenderer {
    /// The header of the channel: the one kept from an earlier call, or a
    /// new one drawn with `title`, which is then kept until title or colour
    /// change.
    pub fn draw_header(&mut self, title: &TextRun) -> (out: BeacnImage)
        requires
            old(self).wf(),
            title.wf(),
        ensures
            final(self).wf(),
            final(self)@ == old(self)@,
            out.position == HEADER_POSITION,
            out.image@ == header_picture(*old(self), *title),
            out.image@.wf(),
            final(self).cached_header() == Some(out.image@),
            final(self).cached_mute_box(MuteTarget::TargetA) == old(self).cached_mute_box(
                MuteTarget::TargetA,
            ),
            final(self).cached_mute_box(MuteTarget::TargetB) == old(self).cached_mute_box(
                MuteTarget::TargetB,
            ),
            final(self).cached_channel() == old(self).cached_channel(),
    {
        proof {
            self.lemma_kept();
        }
        if self.header.is_none() {
            let fresh = self.paint_header(title);
            self.header = Some(CachedHeader { image: fresh.image, title: Ghost(*title) });
        }
        proof {
            self.lemma_kept();
        }
        match &self.header {
            Some(kept) => BeacnImage { position: HEADER_POSITION, image: kept.image.duplicate() },
            None => {
                assert(false);
                BeacnImage { position: HEADER_POSITION, image: Image::new(0, 0) }
            },
        }
    }

    /// The mute button of `target`: the one kept from an earlier call, or a
    /// new one drawn with `art`, which is then kept until the colour or the
    /// state of that mute change.
    pub fn draw_mute_box(&mut self, target: MuteTarget, art: &MuteArt) -> (out: BeacnImage)
        requires
            old(self).wf(),
            art.wf(),
        ensures
            final(self).wf(),
            final(self)@ == old(self)@,
            out.position == spec_mute_position(target),
            out.image@ == mute_box_picture(*old(self), target, *art),
            out.image@.wf(),
            final(self).cached_mute_box(target) == Some(out.image@),
            forall|other: MuteTarget|
                other != target ==> #[trigger] final(self).cached_mute_box(other) == old(
                    self,
                ).cached_mute_box(other),
            final(self).cached_header() == old(self).cached_header(),
            final(self).cached_channel() == old(self).cached_channel(),
    {
        proof {
            self.lemma_kept();
        }
        let missing = match target {
            MuteTarget::TargetA => self.mute_box_a.is_none(),
            MuteTarget::TargetB => self.mute_box_b.is_none(),
        };
        if missing {
            let fresh = self.paint_mute_box(target, art);
            let kept = Some(CachedMuteBox { image: fresh.image, art: Ghost(*art) });
            match target {
                MuteTarget::TargetA => {
                    self.mute_box_a = kept;
                },
                MuteTarget::TargetB => {
                    self.mute_box_b = kept;
                },
            }
        }
        proof {
            self.lemma_kept();
        }
        let kept = match target {
            MuteTarget::TargetA => &self.mute_box_a,
            MuteTarget::TargetB => &self.mute_box_b,
        };
        let image = match kept {
            Some(kept) => kept.image.duplicate(),
            None => {
                assert(false);
                Image::new(0, 0)
            },
        };
        BeacnImage { position: mute_position(target), image }
    }

    /// The channel as a whole, with the dial of `active_mix`: the picture
    /// kept from an earlier call for that mix, or a new one, which is then
    /// kept until any attribute changes.  Nothing is kept where the dial
    /// cannot be drawn.
    pub fn full_render(
        &mut self,
        active_mix: Mix,
        title: &TextRun,
        art: &MuteArt,
        cache: &DialImageCache,
    ) -> (out: Result<BeacnImage, RenderError>)
        requires
            old(self).wf(),
            title.wf(),
            art.wf(),
        ensures
            final(self).wf(),
            final(self)@ == old(self)@,
            final(self).cached_header() == old(self).cached_header(),
            final(self).cached_mute_box(MuteTarget::TargetA) == old(self).cached_mute_box(
                MuteTarget::TargetA,
            ),
            final(self).cached_mute_box(MuteTarget::TargetB) == old(self).cached_mute_box(
                MuteTarget::TargetB,
            ),
            out matches Ok(picture) ==> picture.position == POSITION_ROOT && picture.image@.wf(),
            rendered_channel(
                *old(self),
                *final(self),
                match out {
                    Ok(picture) => Ok(picture.image@),
                    Err(error) => Err(error),
                },
                active_mix,
                *title,
                *art,
                cache@,
            ),
    {
        proof {
            self.lemma_kept();
        }
        let hit = match &self.composite {
            Some(kept) => kept.mix == active_mix,
            None => false,
        };
        if !hit {
            let dial = match self.draw_volume(active_mix, cache) {
                Ok(dial) => dial,
                Err(error) => {
                    return Err(error);
                },
            };
            let fresh = self.paint_channel_with(&dial.image, title, art);
            self.composite = Some(
                CachedChannel {
                    image: fresh.image,
                    mix: active_mix,
                    title: Ghost(*title),
                    art: Ghost(*art),
                    dial: Ghost(dial.image@),
                },
            );
        }
        proof {
            self.lemma_kept();
        }
        match &self.composite {
            Some(kept) => Ok(
                BeacnImage { position: POSITION_ROOT, image: kept.image.duplicate() },
            ),
            None => {
                assert(false);
                Err(RenderError::MissingDial)
            },
        }
    }
}

/// The picture of a dial before it is encoded: over the track, the arc of
/// the value and the percent label, less the rows cut from the bottom.
pub open spec fn dial_picture(track: ImageView, arc: ImageView, label: ImageView) -> ImageView {
    cropped(
        composite(composite(track, arc, 0, 0), label, 0, 0),
        0,
        0,
        VOLUME_DIMENSIONS.0 as int,
        VOLUME_DIMENSIONS.1 - VOLUME_CROP,
    )
}

impl DrawingUtils {
    /// The encoded dial for one volume: `arc` and `label` laid over
    /// `track`, cut at the bottom, flattened onto the colour of a channel's
    /// inside and encoded.  Fails exactly where the picture has no pixels,
    /// which is where the track has none.
    pub fn get_volume_image(track: &Image, arc: &Image, label: &Image) -> (out: Result<
        Vec<u8>,
        CodecError,
    >)
        requires
            track@.wf(),
            arc@.wf(),
            label@.wf(),
        ensures
            out matches Ok(bytes) ==> bytes@ == jpeg_encoding(
                flattened_bytes(
                    dial_picture(track@, arc@, label@).pixels,
                    channel_inner_colour(),
                ),
                dial_picture(track@, arc@, label@).width as u32,
                dial_picture(track@, arc@, label@).height as u32,
                JPEG_QUALITY,
            ),
            out matches Err(e) ==> e == CodecError::Encode,
            out is Ok <==> dial_picture(track@, arc@, label@).has_pixels(),
    {
        let mut base = track.crop(0, 0, track.width(), track.height());
        proof {
            lemma_cropped(track@, 0, 0, track@.width, track@.height);
            crate::raster::lemma_images_equal(base@, track@);
        }
        Self::composite_from(&mut base, arc, 0, 0);
        Self::composite_from(&mut base, label, 0, 0);
        let picture = base.crop(0, 0, VOLUME_DIMENSIONS.0, VOLUME_DIMENSIONS.1 - VOLUME_CROP);
        Self::image_as_jpeg(&picture, channel_inner_colour(), JPEG_QUALITY)
    }
}

/// The layers that the dials are made of: the track, which every dial shows,
/// and for each percent from 0 to 100 the arc of each mix and the label.
pub struct DialLayers {
    pub track: Image,
    pub arcs_a: Vec<Image>,
    pub arcs_b: Vec<Image>,
    pub labels: Vec<Image>,
}

impl DialLayers {
    /// There is an arc of each mix and a label for every percent up to 100,
    /// and every layer is a well-formed image.
    pub open spec fn wf(&self) -> bool {
        &&& self.track@.wf()
        &&& self.arcs_a@.len() == MAX_PERCENT + 1
        &&& self.arcs_b@.len() == MAX_PERCENT + 1
        &&& self.labels@.len() == MAX_PERCENT + 1
        &&& forall|i: int| 0 <= i <= MAX_PERCENT ==> (#[trigger] self.arcs_a@[i])@.wf()
        &&& forall|i: int| 0 <= i <= MAX_PERCENT ==> (#[trigger] self.arcs_b@[i])@.wf()
        &&& forall|i: int| 0 <= i <= MAX_PERCENT ==> (#[trigger] self.labels@[i])@.wf()
    }

    /// True when there is an arc of each mix and a label for every percent
    /// up to 100.
    pub fn is_complete(&self) -> (complete: bool)
        ensures
            complete == (self.arcs_a@.len() == MAX_PERCENT + 1 && self.arcs_b@.len() == MAX_PERCENT
                + 1 && self.labels@.len() == MAX_PERCENT + 1),
    {
        let count: usize = MAX_PERCENT as usize + 1;
        self.arcs_a.len() == count && self.arcs_b.len() == count && self.labels.len() == count
    }

    /// The arc of `mix` at `percent`.
    pub open spec fn arc(&self, mix: Mix, percent: int) -> Image {
        match mix {
            Mix::A => self.arcs_a@[percent],
            Mix::B => self.arcs_b@[percent],
        }
    }

    /// The picture of the dial of `mix` at `percent`.
    pub open spec fn picture(&self, mix: Mix, percent: int) -> ImageView {
        dial_picture(self.track@, self.arc(mix, percent)@, self.labels@[percent]@)
    }
}

/// What encoding the picture `picture` of a dial yields.
pub open spec fn encoded_dial(picture: ImageView) -> Seq<u8> {
    jpeg_encoding(
        flattened_bytes(picture.pixels, channel_inner_colour()),
        picture.width as u32,
        picture.height as u32,
        JPEG_QUALITY,
    )
}

/// True when every dial that `cache` holds is the encoded dial of its mix
/// and percent, made of `layers`, and `cache` holds none above 100 percent
/// and none whose picture has no pixels.
pub open spec fn made_of(cache: CacheModel, layers: DialLayers) -> bool {
    forall|mix: Mix, percent: u8| #[trigger]
        cache.contains_key((mix, percent)) ==> percent <= MAX_PERCENT && cache[(mix, percent)]
            == encoded_dial(layers.picture(mix, percent as int)) && layers.picture(
            mix,
            percent as int,
        ).width > 0 && layers.picture(mix, percent as int).height > 0
}

/// True when `layers` yield a dial for `mix` at `percent`: the percent is
/// below `upto`, and the picture of that dial has pixels.
pub open spec fn yields_dial(layers: DialLayers, mix: Mix, percent: u8, upto: int) -> bool {
    percent < upto && layers.picture(mix, percent as int).has_pixels()
}

/// `cache` with the encoded dials of `mix` put over it, for every percent
/// below `upto` at which `layers` yield a dial.
pub open spec fn with_dials(cache: CacheModel, layers: DialLayers, mix: Mix, upto: int) -> CacheModel {
    Map::new(
        |key: (Mix, u8)| cache.contains_key(key) || (key.0 == mix && yields_dial(layers, mix, key.1, upto)),
        |key: (Mix, u8)|
            if key.0 == mix && yields_dial(layers, mix, key.1, upto) {
                encoded_dial(layers.picture(mix, key.1 as int))
            } else {
                cache[key]
            },
    )
}

/// The dial cache made of `layers`: for each mix and each percent from 0 to
/// 100 the encoded dial, where its picture has pixels, and nothing else.
pub open spec fn generated(layers: DialLayers) -> CacheModel {
    Map::new(
        |key: (Mix, u8)| yields_dial(layers, key.0, key.1, MAX_PERCENT + 1),
        |key: (Mix, u8)| encoded_dial(layers.picture(key.0, key.1 as int)),
    )
}

/// A cache made of layers holds only dials made of them, none above 100
/// percent; and it holds every dial, exactly 101 for each mix, where the
/// track has pixels.
pub proof fn lemma_generated_is_warm(layers: DialLayers)
    requires
        layers.wf(),
    ensures
        made_of(generated(layers), layers),
        only_dials(generated(layers)),
        layers.track@.has_pixels() ==> complete(generated(layers)),
        !layers.track@.has_pixels() ==> generated(layers) =~= Map::<(Mix, u8), Seq<u8>>::empty(),
{
    assert forall|mix: Mix, percent: u8| percent <= MAX_PERCENT implies layers.picture(
        mix,
        percent as int,
    ).has_pixels() == layers.track@.has_pixels() by {
        lemma_dial_picture_size(
            layers.track@,
            layers.arc(mix, percent as int)@,
            layers.labels@[percent as int]@,
        );
    }
}

/// The picture of a dial is as wide and as high as the track, up to the size
/// of a dial; so it has pixels exactly where the track has.
pub proof fn lemma_dial_picture_size(track: ImageView, arc: ImageView, label: ImageView)
    requires
        track.wf(),
    ensures
        dial_picture(track, arc, label).has_pixels() == track.has_pixels(),
{
}

impl DialHandler {
    /// Encodes the dial of `mix` at every percent from 0 to 100 and puts it
    /// into `cache`, where its picture has pixels.
    fn generate_mix(cache: &mut DialImageCache, layers: &DialLayers, mix: Mix)
        requires
            layers.wf(),
        ensures
            final(cache)@ == with_dials(old(cache)@, *layers, mix, MAX_PERCENT + 1),
    {
        let mut percent: u8 = 0;
        assert(cache@ =~= with_dials(old(cache)@, *layers, mix, 0));
        while percent <= MAX_PERCENT
            invariant
                percent <= MAX_PERCENT + 1,
                layers.wf(),
                cache@ == with_dials(old(cache)@, *layers, mix, percent as int),
            decreases MAX_PERCENT + 1 - percent,
        {
            let index = percent as usize;
            let arc = match mix {
                Mix::A => &layers.arcs_a[index],
                Mix::B => &layers.arcs_b[index],
            };
            assert(*arc == layers.arc(mix, percent as int));
            assert(layers.labels@[percent as int]@.wf());
            assert(layers.arcs_a@[percent as int]@.wf());
            assert(layers.arcs_b@[percent as int]@.wf());
            match DrawingUtils::get_volume_image(&layers.track, arc, &layers.labels[index]) {
                Ok(image) => {
                    cache.insert(mix, percent, image);
                },
                Err(_) => {},
            }
            assert(cache@ =~= with_dials(old(cache)@, *layers, mix, percent + 1));
            percent += 1;
        }
    }

    /// The dial cache made anew from `layers`: for each mix and each percent
    /// from 0 to 100 the encoded dial.  A dial is left out only where its
    /// picture has no pixels, which is where the track has none.
    pub fn generate(layers: &DialLayers) -> (cache: DialImageCache)
        requires
            layers.wf(),
        ensures
            cache@ == generated(*layers),
            made_of(cache@, *layers),
            layers.track@.has_pixels() ==> complete(cache@),
    {
        let mut cache = DialImageCache::new();
        Self::generate_mix(&mut cache, layers, Mix::A);
        Self::generate_mix(&mut cache, layers, Mix::B);
        proof {
            assert(cache@ =~= generated(*layers));
            lemma_generated_is_warm(*layers);
        }
        cache
    }
}

/// The display with the first `count` of the channels `shown` laid over
/// `blank`, each at its slot, around the dials `dials`.
pub open spec fn canvas_upto(
    blank: ImageView,
    shown: Seq<u128>,
    channels: Map<u128, ChannelAttributes>,
    titles: Seq<TextRun>,
    art: MuteArt,
    dials: Seq<ImageView>,
    count: int,
) -> ImageView
    decreases count,
{
    if count <= 0 {
        blank
    } else {
        composite(
            canvas_upto(blank, shown, channels, titles, art, dials, count - 1),
            channel_view(channels[shown[count - 1]], titles[count - 1], art, dials[count - 1]),
            CHANNEL_DIMENSIONS.0 * (count - 1),
            POSITION_ROOT.1 as int,
        )
    }
}

/// The first slot from `from` on whose dial for `mix` is not in `cache`.
pub open spec fn first_missing_dial(
    shown: Seq<u128>,
    channels: Map<u128, ChannelAttributes>,
    mix: Mix,
    cache: CacheModel,
    from: int,
) -> Option<int>
    decreases shown.len() - from,
{
    if from < 0 || from >= shown.len() {
        None
    } else if !cache.contains_key((mix, channels[shown[from]].volume(mix))) {
        Some(from)
    } else {
        first_missing_dial(shown, channels, mix, cache, from + 1)
    }
}

/// True when `picture` is the whole display: every channel shown, drawn at
/// its slot on the display's background colour, each around some dial.
pub open spec fn is_canvas(
    picture: ImageView,
    shown: Seq<u128>,
    channels: Map<u128, ChannelAttributes>,
    titles: Seq<TextRun>,
    art: MuteArt,
) -> bool {
    exists|dials: Seq<ImageView>|
        dials.len() == shown.len() && picture == #[trigger] canvas_upto(
            filled(DISPLAY_DIMENSIONS.0 as int, DISPLAY_DIMENSIONS.1 as int, bg_colour()),
            shown,
            channels,
            titles,
            art,
            dials,
            shown.len() as int,
        )
}

/// The display drawn so far does not depend on the dials of later slots.
proof fn lemma_canvas_prefix(
    blank: ImageView,
    shown: Seq<u128>,
    channels: Map<u128, ChannelAttributes>,
    titles: Seq<TextRun>,
    art: MuteArt,
    dials: Seq<ImageView>,
    more: Seq<ImageView>,
    count: int,
)
    requires
        0 <= count <= dials.len(),
        dials.len() <= more.len(),
        forall|i: int| 0 <= i < dials.len() ==> dials[i] == more[i],
    ensures
        canvas_upto(blank, shown, channels, titles, art, dials, count) == canvas_upto(
            blank,
            shown,
            channels,
            titles,
            art,
            more,
            count,
        ),
    decreases count,
{
    if count > 0 {
        lemma_canvas_prefix(blank, shown, channels, titles, art, dials, more, count - 1);
    }
}

impl PipeweaverSession {
    /// The whole display: every channel shown, drawn anew at its slot on the
    /// display's background colour.  `titles` holds the rasterized title of
    /// the channel of each slot.  Fails at the first channel whose dial is
    /// missing from `cache` or cannot be decoded; with no channel shown it
    /// cannot fail, and the display is blank.
    pub fn do_full_render(&self, titles: &Vec<TextRun>, art: &MuteArt, cache: &DialImageCache) -> (out:
        Result<BeacnImage, RenderError>)
        requires
            self.wf(),
            titles@.len() == self@.devices_shown.len(),
            forall|i: int| 0 <= i < titles@.len() ==> (#[trigger] titles@[i]).wf(),
            art.wf(),
        ensures
            self@.devices_shown.len() == 0 ==> (out matches Ok(picture) && picture.position == (
                0u32,
                0u32,
            ) && picture.image@ == filled(
                DISPLAY_DIMENSIONS.0 as int,
                DISPLAY_DIMENSIONS.1 as int,
                bg_colour(),
            )),
            out matches Ok(picture) ==> picture.image@.width == DISPLAY_DIMENSIONS.0
                && picture.image@.height == DISPLAY_DIMENSIONS.1,
            first_missing_dial(
                self@.devices_shown,
                self@.channels,
                self@.active_mix,
                cache@,
                0,
            ) is Some ==> out is Err,
            match out {
                Ok(picture) => picture.position == (0u32, 0u32) && picture.image@.wf()
                    && is_canvas(
                    picture.image@,
                    self@.devices_shown,
                    self@.channels,
                    titles@,
                    *art,
                ),
                Err(error) => if error == RenderError::MissingDial {
                    first_missing_dial(
                        self@.devices_shown,
                        self@.channels,
                        self@.active_mix,
                        cache@,
                        0,
                    ) is Some
                } else {
                    is_decode_error(error)
                },
            },
    {
        proof {
            self.lemma_wf();
        }
        let mix = self.active_mix();
        let mut base = Image::from_pixel(DISPLAY_DIMENSIONS.0, DISPLAY_DIMENSIONS.1, bg_colour());
        let ghost blank = base@;
        let ghost mut dials: Seq<ImageView> = Seq::empty();
        let shown = self.devices_shown();
        let mut index: usize = 0;
        while index < shown.len()
            invariant
                index <= shown.len(),
                shown@ == self@.devices_shown,
                shown@.len() <= CHANNEL_COUNT,
                self.wf(),
                self@.wf(),
                mix == self@.active_mix,
                titles@.len() == shown@.len(),
                forall|i: int| 0 <= i < titles@.len() ==> (#[trigger] titles@[i]).wf(),
                art.wf(),
                base@.wf(),
                blank == filled(
                    DISPLAY_DIMENSIONS.0 as int,
                    DISPLAY_DIMENSIONS.1 as int,
                    bg_colour(),
                ),
                dials.len() == index,
                base@.width == DISPLAY_DIMENSIONS.0,
                base@.height == DISPLAY_DIMENSIONS.1,
                base@ == canvas_upto(
                    blank,
                    shown@,
                    self@.channels,
                    titles@,
                    *art,
                    dials,
                    index as int,
                ),
                first_missing_dial(shown@, self@.channels, mix, cache@, 0) == first_missing_dial(
                    shown@,
                    self@.channels,
                    mix,
                    cache@,
                    index as int,
                ),
            decreases shown.len() - index,
        {
            let id = shown[index];
            assert(shown@.contains(shown@[index as int]));
            assert(titles@[index as int].wf());
            match self.renderer(id) {
                None => {
                    assert(false);
                },
                Some(renderer) => {
                    let dial = match renderer.draw_volume(mix, cache) {
                        Ok(dial) => dial,
                        Err(error) => {
                            return Err(error);
                        },
                    };
                    let drawing = renderer.paint_channel_with(&dial.image, &titles[index], art);
                    let x: u32 = CHANNEL_DIMENSIONS.0 * (index as u32);
                    DrawingUtils::composite_from_pos(
                        &mut base,
                        &drawing.image,
                        (x, drawing.position.1),
                    );
                    proof {
                        let more = dials.push(dial.image@);
                        lemma_canvas_prefix(
                            blank,
                            shown@,
                            self@.channels,
                            titles@,
                            *art,
                            dials,
                            more,
                            index as int,
                        );
                        dials = more;
                    }
                },
            }
            index += 1;
        }
        Ok(BeacnImage { position: (0, 0), image: base })
    }
}

} // verus!
