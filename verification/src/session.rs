//! What to do when the daemon's status changes: which channels to show,
//! which lights to set and which parts of the display to draw again.
//!
//! The session decides; the caller acts.  Taking in a status returns the
//! list of actions to carry out, in order.  For an action that draws, the
//! session then hands out the encoded picture and its place.  Nothing here
//! sends anything.

use crate::channel::{
    attributes_of, changed_properties, lemma_refreshed_twice, ChannelAttributes,
    ChannelChangedProperty, ChannelRenderer, Mix, MuteTarget,
};
use crate::codec::{jpeg_encoding, CodecError, JPEG_QUALITY};
use crate::colour::Rgba;
use crate::compose::{composite, flattened_bytes};
use crate::device::{dial_light, ButtonLighting, DeviceType};
use crate::dial_cache::{CacheModel, DialImageCache};
use crate::layout::{
    bg_colour, text_colour, DrawingUtils, Position, TextAlign, CHANNEL_DIMENSIONS,
    DISPLAY_DIMENSIONS, HEADER_POSITION, MUTE_POSITION_A, MUTE_POSITION_B, POSITION_ROOT,
    VOLUME_POSITION,
};
use crate::paging::{get_page_channels, visible_channels, CHANNEL_COUNT};
use crate::raster::{filled, Image, ImageView};
use crate::render::{
    first_missing_dial, header_picture, is_canvas, is_decode_error, mute_box_picture,
    rendered_channel, BeacnImage, MuteArt, RawImage, RenderError, TextRun,
};
use crate::sources::{device_ref, get_channel_renderers, get_device_ref, Renderers, SourceDevices};
use crate::text::text_view;
use vstd::prelude::*;

verus! {

/// A part of the display that can be drawn on its own.
#[derive(Debug, Clone, Copy, PartialEq, Eq, Structural)]
pub enum DisplayPart {
    /// The whole display with every visible channel.
    Canvas,
    /// One channel as a whole.
    Channel,
    /// The header of a channel.
    Header,
    /// The dial of a channel, for a mix.
    Volume(Mix),
    /// A mute button of a channel.
    MuteBox(MuteTarget),
}

/// Something for the caller to do to the console.
#[derive(Debug, Clone, Copy, PartialEq, Eq, Structural)]
pub enum SyncAction {
    /// Set the colour of a light.
    ButtonColour(ButtonLighting, Rgba),
    /// Draw `part` of the channel at `slot` and send the picture to the
    /// place `(x, y)` of the display.
    Draw { part: DisplayPart, slot: usize, x: u32, y: u32 },
}

/// Why the status cannot be shown.
#[derive(Debug, Clone, Copy, PartialEq, Eq, Structural)]
pub enum SyncError {
    /// The order names a source that the daemon does not report.
    UnknownDevice(u128),
    /// An input event came from a device that is no console.
    InvalidDevice,
}

/// Why a part of the display cannot be drawn.
#[derive(Debug, Clone, Copy, PartialEq, Eq, Structural)]
pub enum PartError {
    /// The part belongs to no channel that is shown.
    NoChannel,
    /// The picture cannot be drawn.
    Render(RenderError),
    /// The picture cannot be encoded.
    Codec(CodecError),
}

/// True when `after` keeps the same header and mute buttons as `before`.
pub open spec fn same_small_pictures(before: ChannelRenderer, after: ChannelRenderer) -> bool {
    &&& after.cached_header() == before.cached_header()
    &&& after.cached_mute_box(MuteTarget::TargetA) == before.cached_mute_box(MuteTarget::TargetA)
    &&& after.cached_mute_box(MuteTarget::TargetB) == before.cached_mute_box(MuteTarget::TargetB)
}

/// True when `out` is what drawing `part` of the channel at `slot` may hand
/// out for the renderer `before`, and `after` is what it leaves.
///
/// The header and a mute button are the picture that the renderer keeps, or
/// a new one drawn with `title` or `art`, which it then keeps.  The whole
/// channel is the picture kept for the active mix, or a new one drawn
/// around the dial as it is decoded.  The dial itself is handed out as
/// `cache` holds it.  Pictures are encoded for the place of the part; the
/// attributes stay, and so does every picture kept that was not drawn.
pub open spec fn part_outcome(
    before: ChannelRenderer,
    after: ChannelRenderer,
    out: Result<RawImage, PartError>,
    part: DisplayPart,
    slot: usize,
    active_mix: Mix,
    title: TextRun,
    art: MuteArt,
    cache: CacheModel,
) -> bool {
    &&& after@ == before@
    &&& match part {
        DisplayPart::Header => {
            &&& encodes(out, header_picture(before, title), part, slot)
            &&& after.cached_header() == Some(header_picture(before, title))
            &&& after.cached_mute_box(MuteTarget::TargetA) == before.cached_mute_box(
                MuteTarget::TargetA,
            )
            &&& after.cached_mute_box(MuteTarget::TargetB) == before.cached_mute_box(
                MuteTarget::TargetB,
            )
            &&& after.cached_channel() == before.cached_channel()
        },
        DisplayPart::MuteBox(target) => {
            &&& encodes(out, mute_box_picture(before, target, art), part, slot)
            &&& after.cached_header() == before.cached_header()
            &&& forall|other: MuteTarget|
                #[trigger] after.cached_mute_box(other) == if other == target {
                    Some(mute_box_picture(before, target, art))
                } else {
                    before.cached_mute_box(other)
                }
            &&& after.cached_channel() == before.cached_channel()
        },
        DisplayPart::Channel => {
            &&& same_small_pictures(before, after)
            &&& exists|drawn: Result<ImageView, RenderError>| #[trigger]
                rendered_channel(before, after, drawn, active_mix, title, art, cache)
                    && match drawn {
                    Ok(picture) => encodes(out, picture, part, slot),
                    Err(error) => out matches Err(e) && e == PartError::Render(error),
                }
        },
        DisplayPart::Volume(mix) => {
            &&& same_small_pictures(before, after)
            &&& after.cached_channel() == before.cached_channel()
            &&& if cache.contains_key((mix, before@.volume(mix))) {
                out matches Ok(raw) && raw.position == display_position(part, slot) && raw.image@
                    == cache[(mix, before@.volume(mix))]
            } else {
                out matches Err(e) && e == PartError::Render(RenderError::MissingDial)
            }
        },
        DisplayPart::Canvas => true,
    }
}

/// The place on the display to which `part` of the channel at `slot` goes.
pub open spec fn display_position(part: DisplayPart, slot: usize) -> Position {
    match spec_draw(part, slot) {
        SyncAction::Draw { x, y, .. } => (x, y),
        _ => (0u32, 0u32),
    }
}

/// True when `out` is what encoding `picture` for the place of `part` at
/// `slot` yields: the picture flattened onto the display's background and
/// encoded, at that place; or, for a picture without pixels, the encoder's
/// refusal.
pub open spec fn encodes(
    out: Result<RawImage, PartError>,
    picture: ImageView,
    part: DisplayPart,
    slot: usize,
) -> bool {
    match out {
        Ok(raw) => picture.has_pixels() && raw.position == display_position(part, slot)
            && raw.image@ == jpeg_encoding(
            flattened_bytes(picture.pixels, bg_colour()),
            picture.width as u32,
            picture.height as u32,
            JPEG_QUALITY,
        ),
        Err(error) => !picture.has_pixels() && error == PartError::Codec(CodecError::Encode),
    }
}

/// Encodes a picture for the place of `part` at `slot`.
fn encode_part(picture: &BeacnImage, part: DisplayPart, slot: usize) -> (out: Result<
    RawImage,
    PartError,
>)
    requires
        picture.image@.wf(),
        slot < CHANNEL_COUNT,
    ensures
        encodes(out, picture.image@, part, slot),
{
    let position = match draw(part, slot) {
        SyncAction::Draw { x, y, .. } => (x, y),
        _ => (0u32, 0u32),
    };
    match DrawingUtils::image_as_jpeg(&picture.image, bg_colour(), JPEG_QUALITY) {
        Ok(image) => Ok(RawImage { position, image }),
        Err(error) => Err(PartError::Codec(error)),
    }
}

/// A light that is off.
pub open spec fn spec_dark() -> Rgba {
    Rgba { red: 0, green: 0, blue: 0, alpha: 255 }
}

/// A light that is off.
#[verifier::when_used_as_spec(spec_dark)]
pub fn dark() -> (colour: Rgba)
    ensures
        colour == spec_dark(),
{
    Rgba { red: 0, green: 0, blue: 0, alpha: 255 }
}

/// What turns every light of the console off: the lights of the four dials,
/// left to right, then the mix light.
pub open spec fn blank_actions() -> Seq<SyncAction> {
    seq![
        SyncAction::ButtonColour(ButtonLighting::Dial1, spec_dark()),
        SyncAction::ButtonColour(ButtonLighting::Dial2, spec_dark()),
        SyncAction::ButtonColour(ButtonLighting::Dial3, spec_dark()),
        SyncAction::ButtonColour(ButtonLighting::Dial4, spec_dark()),
        SyncAction::ButtonColour(ButtonLighting::Mix, spec_dark()),
    ]
}

/// The actions that turn every light of the console off.
pub fn blank_lights() -> (actions: Vec<SyncAction>)
    ensures
        actions@ == blank_actions(),
{
    let mut actions: Vec<SyncAction> = Vec::new();
    actions.push(SyncAction::ButtonColour(ButtonLighting::Dial1, dark()));
    actions.push(SyncAction::ButtonColour(ButtonLighting::Dial2, dark()));
    actions.push(SyncAction::ButtonColour(ButtonLighting::Dial3, dark()));
    actions.push(SyncAction::ButtonColour(ButtonLighting::Dial4, dark()));
    actions.push(SyncAction::ButtonColour(ButtonLighting::Mix, dark()));
    assert(actions@ =~= blank_actions());
    actions
}

/// What the display shows while there is no status to show: on the
/// display's background colour the splash picture, from the top left corner,
/// and over it a line of text, centred in the display.
pub open spec fn status_view(splash: ImageView, line: TextRun) -> ImageView {
    composite(
        composite(
            filled(DISPLAY_DIMENSIONS.0 as int, DISPLAY_DIMENSIONS.1 as int, bg_colour()),
            splash,
            0,
            0,
        ),
        text_view(
            line.views(),
            DISPLAY_DIMENSIONS.0 as int,
            DISPLAY_DIMENSIONS.1 as int,
            line.baseline_y as int,
            text_colour(),
            TextAlign::Center,
        ),
        0,
        0,
    )
}

/// Draws and encodes a status screen for the whole display: the splash
/// picture with `line`, the rasterized status line, over it.
pub fn draw_status(splash: &Image, line: &TextRun) -> (out: Result<RawImage, PartError>)
    requires
        splash@.wf(),
        line.wf(),
    ensures
        out is Ok,
        encodes(out, status_view(splash@, *line), DisplayPart::Canvas, 0),
{
    let mut picture = Image::from_pixel(DISPLAY_DIMENSIONS.0, DISPLAY_DIMENSIONS.1, bg_colour());
    DrawingUtils::composite_from(&mut picture, splash, 0, 0);
    let text = DrawingUtils::draw_text(
        &line.glyphs,
        DISPLAY_DIMENSIONS.0,
        DISPLAY_DIMENSIONS.1,
        line.baseline_y,
        text_colour(),
        TextAlign::Center,
    );
    DrawingUtils::composite_from(&mut picture, &text, 0, 0);
    encode_part(&BeacnImage { position: (0, 0), image: picture }, DisplayPart::Canvas, 0)
}

/// Where `part` stands inside its channel.  The channel as a whole stands at
/// its own top left corner; the canvas stands at the origin.
pub open spec fn spec_part_position(part: DisplayPart) -> Position {
    match part {
        DisplayPart::Canvas => (0u32, 0u32),
        DisplayPart::Channel => (0u32, 0u32),
        DisplayPart::Header => HEADER_POSITION,
        DisplayPart::Volume(_) => VOLUME_POSITION,
        DisplayPart::MuteBox(MuteTarget::TargetA) => MUTE_POSITION_A,
        DisplayPart::MuteBox(MuteTarget::TargetB) => MUTE_POSITION_B,
    }
}

/// Where `part` stands inside its channel.
#[verifier::when_used_as_spec(spec_part_position)]
pub fn part_position(part: DisplayPart) -> (position: Position)
    ensures
        position == spec_part_position(part),
{
    match part {
        DisplayPart::Canvas => (0u32, 0u32),
        DisplayPart::Channel => (0u32, 0u32),
        DisplayPart::Header => HEADER_POSITION,
        DisplayPart::Volume(_) => VOLUME_POSITION,
        DisplayPart::MuteBox(MuteTarget::TargetA) => MUTE_POSITION_A,
        DisplayPart::MuteBox(MuteTarget::TargetB) => MUTE_POSITION_B,
    }
}

/// The action that draws `part` of the channel at `slot`: the part's place
/// inside the channel, moved right by the width of the channels before it
/// and down by the height of the header strip.  So a whole channel goes to
/// the top left corner of its slot, just below the header strip.  The canvas
/// goes to the origin.
pub open spec fn spec_draw(part: DisplayPart, slot: usize) -> SyncAction {
    let position = spec_part_position(part);
    match part {
        DisplayPart::Canvas => SyncAction::Draw { part, slot: 0, x: 0, y: 0 },
        _ => SyncAction::Draw {
            part,
            slot,
            x: (CHANNEL_DIMENSIONS.0 * slot + position.0 + POSITION_ROOT.0) as u32,
            y: (position.1 + POSITION_ROOT.1) as u32,
        },
    }
}

/// The action that draws `part` of the channel at `slot`.
#[verifier::when_used_as_spec(spec_draw)]
pub fn draw(part: DisplayPart, slot: usize) -> (action: SyncAction)
    requires
        slot < CHANNEL_COUNT,
    ensures
        action == spec_draw(part, slot),
{
    let position = part_position(part);
    match part {
        DisplayPart::Canvas => SyncAction::Draw { part, slot: 0, x: 0, y: 0 },
        _ => SyncAction::Draw {
            part,
            slot,
            x: CHANNEL_DIMENSIONS.0 * (slot as u32) + position.0 + POSITION_ROOT.0,
            y: position.1 + POSITION_ROOT.1,
        },
    }
}

/// A whole channel is drawn at the top left corner of its slot: as many
/// channel widths from the left as there are slots before it, and just below
/// the header strip; its 400 rows end with the display.
pub proof fn lemma_channel_place(slot: usize)
    requires
        slot < CHANNEL_COUNT,
    ensures
        spec_draw(DisplayPart::Channel, slot) == (SyncAction::Draw {
            part: DisplayPart::Channel,
            slot,
            x: (200 * slot) as u32,
            y: 80,
        }),
        display_position(DisplayPart::Channel, slot).0 + CHANNEL_DIMENSIONS.0
            <= DISPLAY_DIMENSIONS.0,
        display_position(DisplayPart::Channel, slot).1 + CHANNEL_DIMENSIONS.1
            == DISPLAY_DIMENSIONS.1,
{
}

/// What one changed field of the channel at `slot` asks for.  A new title
/// draws the header; a new colour sets the dial's light and draws the whole
/// channel; a new volume draws the dial if it is the volume of the active
/// mix, and nothing otherwise; a new mute state draws that mute button.
pub open spec fn part_actions(
    slot: usize,
    property: ChannelChangedProperty,
    active_mix: Mix,
    colour: Rgba,
) -> Seq<SyncAction> {
    match property {
        ChannelChangedProperty::Title => seq![spec_draw(DisplayPart::Header, slot)],
        ChannelChangedProperty::Colour => seq![
            SyncAction::ButtonColour(dial_light(slot)->0, colour),
            spec_draw(DisplayPart::Channel, slot),
        ],
        ChannelChangedProperty::Volumes(mix) => if mix == active_mix {
            seq![spec_draw(DisplayPart::Volume(mix), slot)]
        } else {
            Seq::empty()
        },
        ChannelChangedProperty::MuteState(target) => seq![
            spec_draw(DisplayPart::MuteBox(target), slot),
        ],
    }
}

/// What the changed fields `changes`, from place `from` on, ask for.
pub open spec fn channel_actions(
    slot: usize,
    changes: Seq<ChannelChangedProperty>,
    from: int,
    active_mix: Mix,
    colour: Rgba,
) -> Seq<SyncAction>
    decreases changes.len() - from,
{
    if from < 0 || from >= changes.len() {
        Seq::empty()
    } else {
        part_actions(slot, changes[from], active_mix, colour) + channel_actions(
            slot,
            changes,
            from + 1,
            active_mix,
            colour,
        )
    }
}

/// The lights of the dials of the channels `shown`, from slot `from` on: each
/// in the colour of its channel.
pub open spec fn light_actions(
    shown: Seq<u128>,
    channels: Map<u128, ChannelAttributes>,
    from: int,
) -> Seq<SyncAction>
    decreases shown.len() - from,
{
    if from < 0 || from >= shown.len() {
        Seq::empty()
    } else {
        seq![SyncAction::ButtonColour(dial_light(from as usize)->0, channels[shown[from]].colour)]
            + light_actions(shown, channels, from + 1)
    }
}

/// What a new set of visible channels asks for: the light of every visible
/// slot, then the whole display.
pub open spec fn refresh_actions(
    shown: Seq<u128>,
    channels: Map<u128, ChannelAttributes>,
) -> Seq<SyncAction> {
    light_actions(shown, channels, 0) + seq![spec_draw(DisplayPart::Canvas, 0)]
}

/// The attributes of the channel `id` once it is shown: those of the
/// renderer kept for it, or else those of the source that the daemon reports.
pub open spec fn kept_or_new(
    kept: Map<u128, ChannelAttributes>,
    sources: SourceDevices,
    id: u128,
) -> Option<ChannelAttributes> {
    if kept.contains_key(id) {
        Some(kept[id])
    } else {
        match device_ref(sources, id) {
            Some(device) => Some(attributes_of(device)),
            None => None,
        }
    }
}

/// The first of `devices`, from place `from` on, for which no renderer is
/// kept and which the daemon does not report.
pub open spec fn first_unknown(
    devices: Seq<u128>,
    kept: Map<u128, ChannelAttributes>,
    sources: SourceDevices,
    from: int,
) -> Option<u128>
    decreases devices.len() - from,
{
    if from < 0 || from >= devices.len() {
        None
    } else if kept_or_new(kept, sources, devices[from]) is None {
        Some(devices[from])
    } else {
        first_unknown(devices, kept, sources, from + 1)
    }
}

/// The channels kept once `devices` are shown: one for each of them, and no
/// other.
pub open spec fn shown_channels(
    devices: Seq<u128>,
    kept: Map<u128, ChannelAttributes>,
    sources: SourceDevices,
) -> Map<u128, ChannelAttributes> {
    Map::new(|id: u128| devices.contains(id), |id: u128| kept_or_new(kept, sources, id)->0)
}

/// The first of `shown`, from place `from` on, that the daemon does not
/// report.
pub open spec fn first_missing(shown: Seq<u128>, sources: SourceDevices, from: int) -> Option<u128>
    decreases shown.len() - from,
{
    if from < 0 || from >= shown.len() {
        None
    } else if device_ref(sources, shown[from]) is None {
        Some(shown[from])
    } else {
        first_missing(shown, sources, from + 1)
    }
}

/// The outcome of bringing the channels `shown`, from slot `from` on, up to
/// date with `sources`, one after the other: the actions, and the attributes
/// of the channels afterwards.
pub open spec fn update_plan(
    shown: Seq<u128>,
    from: int,
    channels: Map<u128, ChannelAttributes>,
    sources: SourceDevices,
    active_mix: Mix,
) -> (Seq<SyncAction>, Map<u128, ChannelAttributes>)
    decreases shown.len() - from,
{
    if from < 0 || from >= shown.len() {
        (Seq::empty(), channels)
    } else {
        let id = shown[from];
        let new = attributes_of(device_ref(sources, id)->0);
        let changes = changed_properties(channels[id], new);
        let rest = update_plan(shown, from + 1, channels.insert(id, new), sources, active_mix);
        (channel_actions(from as usize, changes, 0, active_mix, new.colour) + rest.0, rest.1)
    }
}

/// True when `new` differs from `old` in the colour and in nothing else.
pub open spec fn recoloured(old: ChannelAttributes, new: ChannelAttributes) -> bool {
    &&& new.colour != old.colour
    &&& new.title == old.title
    &&& new.volume_a == old.volume_a
    &&& new.volume_b == old.volume_b
    &&& new.mute_a == old.mute_a
    &&& new.mute_b == old.mute_b
}

/// What bringing the channels from slot `from` on up to date asks for, when
/// the source at slot `changed` has a new colour and nothing else is new.
proof fn lemma_recoloured_from(
    shown: Seq<u128>,
    from: int,
    channels: Map<u128, ChannelAttributes>,
    sources: SourceDevices,
    active_mix: Mix,
    changed: int,
)
    requires
        0 <= changed < shown.len(),
        0 <= from <= shown.len(),
        shown.no_duplicates(),
        forall|i: int|
            from <= i < shown.len() && i != changed ==> #[trigger] channels[shown[i]]
                == attributes_of(device_ref(sources, shown[i])->0),
        from <= changed ==> recoloured(
            channels[shown[changed]],
            attributes_of(device_ref(sources, shown[changed])->0),
        ),
    ensures
        update_plan(shown, from, channels, sources, active_mix).0 =~= if from <= changed {
            seq![
                SyncAction::ButtonColour(
                    dial_light(changed as usize)->0,
                    attributes_of(device_ref(sources, shown[changed])->0).colour,
                ),
                spec_draw(DisplayPart::Channel, changed as usize),
            ]
        } else {
            Seq::empty()
        },
    decreases shown.len() - from,
{
    if from < shown.len() {
        let id = shown[from];
        let new = attributes_of(device_ref(sources, id)->0);
        let changes = changed_properties(channels[id], new);
        let next = channels.insert(id, new);
        assert forall|i: int| from + 1 <= i < shown.len() && i != changed implies #[trigger] next[shown[i]]
            == attributes_of(device_ref(sources, shown[i])->0) by {
            assert(shown[i] != shown[from]);
            assert(channels[shown[i]] == attributes_of(device_ref(sources, shown[i])->0));
        }
        if from < changed {
            assert(shown[changed] != shown[from]);
        }
        lemma_recoloured_from(shown, from + 1, next, sources, active_mix, changed);
        if from == changed {
            assert(changes =~= seq![ChannelChangedProperty::Colour]);
            reveal_with_fuel(channel_actions, 3);
            assert(channel_actions(from as usize, changes, 0, active_mix, new.colour) =~= seq![
                SyncAction::ButtonColour(dial_light(changed as usize)->0, new.colour),
                spec_draw(DisplayPart::Channel, changed as usize),
            ]);
        } else {
            assert(channels[shown[from]] == new);
            assert(changes =~= Seq::<ChannelChangedProperty>::empty());
            assert(channel_actions(from as usize, changes, 0, active_mix, new.colour)
                =~= Seq::<SyncAction>::empty());
        }
    }
}

/// When the daemon reports a new colour for one of the sources shown, and
/// nothing else is new, bringing the channels up to date asks for exactly
/// two things: the light of that slot in the new colour, and the whole
/// channel of that slot drawn again.  Nothing is asked for any other slot.
pub proof fn lemma_colour_change_redraws_one_channel(
    shown: Seq<u128>,
    channels: Map<u128, ChannelAttributes>,
    sources: SourceDevices,
    active_mix: Mix,
    changed: int,
)
    requires
        0 <= changed < shown.len(),
        shown.no_duplicates(),
        forall|i: int|
            0 <= i < shown.len() && i != changed ==> #[trigger] channels[shown[i]]
                == attributes_of(device_ref(sources, shown[i])->0),
        recoloured(
            channels[shown[changed]],
            attributes_of(device_ref(sources, shown[changed])->0),
        ),
    ensures
        update_plan(shown, 0, channels, sources, active_mix).0 =~= seq![
            SyncAction::ButtonColour(
                dial_light(changed as usize)->0,
                attributes_of(device_ref(sources, shown[changed])->0).colour,
            ),
            spec_draw(DisplayPart::Channel, changed as usize),
        ],
{
    lemma_recoloured_from(shown, 0, channels, sources, active_mix, changed);
}

/// The state of a session with the daemon, as mathematical values.
pub struct SessionView {
    pub device_type: DeviceType,
    pub page: u8,
    pub active_mix: Mix,
    pub devices_shown: Seq<u128>,
    pub channels: Map<u128, ChannelAttributes>,
    pub command_index: u64,
}

/// The state of a session with the daemon: what is on display, for which
/// page and mix, and the number of the next request.
pub struct PipeweaverSession {
    device_type: DeviceType,
    page: u8,
    active_mix: Mix,
    devices_shown: Vec<u128>,
    renderers: Renderers,
    command_index: u64,
}

impl View for PipeweaverSession {
    type V = SessionView;

    closed spec fn view(&self) -> SessionView {
        SessionView {
            device_type: self.device_type,
            page: self.page,
            active_mix: self.active_mix,
            devices_shown: self.devices_shown@,
            channels: self.renderers@,
            command_index: self.command_index,
        }
    }
}

impl SessionView {
    /// At most four channels are shown, and a channel is kept for exactly
    /// the sources shown.
    pub open spec fn wf(self) -> bool {
        &&& self.devices_shown.len() <= CHANNEL_COUNT
        &&& forall|id: u128| self.channels.contains_key(id) <==> self.devices_shown.contains(id)
    }
}

/// True when both lists hold the same identifiers in the same order.
pub fn same_devices(a: &Vec<u128>, b: &Vec<u128>) -> (same: bool)
    ensures
        same == (a@ == b@),
{
    if a.len() != b.len() {
        return false;
    }
    let mut i: usize = 0;
    while i < a.len()
        invariant
            i <= a.len(),
            a.len() == b.len(),
            forall|k: int| 0 <= k < i ==> a@[k] == b@[k],
        decreases a.len() - i,
    {
        if a[i] != b[i] {
            return false;
        }
        i += 1;
    }
    assert(a@ =~= b@);
    true
}

/// Appends the actions for one changed field.
fn push_part_actions(
    actions: &mut Vec<SyncAction>,
    slot: usize,
    property: ChannelChangedProperty,
    active_mix: Mix,
    colour: Rgba,
)
    requires
        slot < CHANNEL_COUNT,
    ensures
        final(actions)@ == old(actions)@ + part_actions(slot, property, active_mix, colour),
{
    match property {
        ChannelChangedProperty::Title => {
            actions.push(draw(DisplayPart::Header, slot));
        },
        ChannelChangedProperty::Colour => {
            match dial_light(slot) {
                Some(light) => {
                    actions.push(SyncAction::ButtonColour(light, colour));
                },
                None => {},
            }
            actions.push(draw(DisplayPart::Channel, slot));
        },
        ChannelChangedProperty::Volumes(mix) => {
            if mix == active_mix {
                actions.push(draw(DisplayPart::Volume(mix), slot));
            }
        },
        ChannelChangedProperty::MuteState(target) => {
            actions.push(draw(DisplayPart::MuteBox(target), slot));
        },
    }
    assert(actions@ =~= old(actions)@ + part_actions(slot, property, active_mix, colour));
}

/// Appends the actions for the changed fields of one channel.
fn push_channel_actions(
    actions: &mut Vec<SyncAction>,
    slot: usize,
    changes: &Vec<ChannelChangedProperty>,
    active_mix: Mix,
    colour: Rgba,
)
    requires
        slot < CHANNEL_COUNT,
    ensures
        final(actions)@ == old(actions)@ + channel_actions(slot, changes@, 0, active_mix, colour),
{
    let mut k: usize = 0;
    while k < changes.len()
        invariant
            k <= changes.len(),
            slot < CHANNEL_COUNT,
            actions@ + channel_actions(slot, changes@, k as int, active_mix, colour) == old(
                actions,
            )@ + channel_actions(slot, changes@, 0, active_mix, colour),
        decreases changes.len() - k,
    {
        let ghost before = actions@;
        push_part_actions(actions, slot, changes[k], active_mix, colour);
        assert(before + part_actions(slot, changes@[k as int], active_mix, colour)
            + channel_actions(slot, changes@, k + 1, active_mix, colour) =~= before
            + channel_actions(slot, changes@, k as int, active_mix, colour));
        k += 1;
    }
    assert(actions@ + channel_actions(slot, changes@, changes@.len() as int, active_mix, colour)
        =~= actions@);
}

impl PipeweaverSession {
    /// Holds of every session that this module hands out.
    pub closed spec fn wf(&self) -> bool {
        &&& self.renderers.wf()
        &&& self@.wf()
    }

    /// What `wf` says of the view.
    pub proof fn lemma_wf(&self)
        requires
            self.wf(),
        ensures
            self@.wf(),
    {
    }

    /// Appends the lights of the visible slots and the drawing of the whole
    /// display.
    fn push_refresh(
        actions: &mut Vec<SyncAction>,
        devices: &Vec<u128>,
        renderers: &Renderers,
    )
        requires
            devices@.len() <= CHANNEL_COUNT,
            renderers.wf(),
            forall|k: int| 0 <= k < devices@.len() ==> renderers@.contains_key(devices@[k]),
        ensures
            final(actions)@ == old(actions)@ + refresh_actions(devices@, renderers@),
    {
        let mut slot: usize = 0;
        while slot < devices.len()
            invariant
                slot <= devices.len(),
                devices@.len() <= CHANNEL_COUNT,
                renderers.wf(),
                forall|k: int| 0 <= k < devices@.len() ==> renderers@.contains_key(devices@[k]),
                actions@ + light_actions(devices@, renderers@, slot as int) == old(actions)@
                    + light_actions(devices@, renderers@, 0),
            decreases devices.len() - slot,
        {
            let ghost before = actions@;
            let id = devices[slot];
            assert(renderers@.contains_key(devices@[slot as int]));
            match (renderers.get(id), dial_light(slot)) {
                (Some(renderer), Some(light)) => {
                    actions.push(SyncAction::ButtonColour(light, renderer.colour()));
                },
                _ => {},
            }
            assert(actions@ + light_actions(devices@, renderers@, slot + 1) =~= before
                + light_actions(devices@, renderers@, slot as int));
            slot += 1;
        }
        let ghost lit = actions@;
        actions.push(draw(DisplayPart::Canvas, 0));
        assert(actions@ =~= old(actions)@ + refresh_actions(devices@, renderers@)) by {
            assert(lit + light_actions(devices@, renderers@, devices@.len() as int) =~= lit);
        }
    }

    /// Shows `devices` in place of what was shown.  A renderer that is kept
    /// for one of them stays as it is; a renderer is made for each of the
    /// others from what the daemon reports; the renderers of sources no
    /// longer shown are dropped.  Then every visible light is set and the
    /// whole display drawn.
    ///
    /// Fails, and changes nothing, where one of the devices has no renderer
    /// and is not reported by the daemon: the error names the first such.
    pub fn show_devices(&mut self, devices: Vec<u128>, sources: &SourceDevices) -> (result: Result<
        Vec<SyncAction>,
        SyncError,
    >)
        requires
            old(self).wf(),
            devices@.len() <= CHANNEL_COUNT,
        ensures
            final(self).wf(),
            match first_unknown(devices@, old(self)@.channels, *sources, 0) {
                Some(id) => result == Err::<Vec<SyncAction>, SyncError>(
                    SyncError::UnknownDevice(id),
                ) && final(self)@ == old(self)@ && forall|id: u128| #[trigger]
                    final(self).kept(id) == old(self).kept(id),
                None => result matches Ok(actions) && final(self)@ == (SessionView {
                    devices_shown: devices@,
                    channels: shown_channels(devices@, old(self)@.channels, *sources),
                    ..old(self)@
                }) && actions@ == refresh_actions(devices@, final(self)@.channels) && forall|
                    id: u128,
                |
                    devices@.contains(id) ==> (#[trigger] final(self).kept(id)).keeps_nothing(),
            },
    {
        let ghost kept = self@.channels;
        let mut next = Renderers::new();
        let mut i: usize = 0;
        while i < devices.len()
            invariant
                i <= devices.len(),
                self.wf(),
                *self == *old(self),
                kept == self@.channels,
                next.wf(),
                first_unknown(devices@, kept, *sources, 0) == first_unknown(
                    devices@,
                    kept,
                    *sources,
                    i as int,
                ),
                next@ =~= shown_channels(devices@.subrange(0, i as int), kept, *sources),
                forall|k: int| 0 <= k < i ==> kept_or_new(kept, *sources, devices@[k]) is Some,
                forall|id: u128|
                    next@.contains_key(id) ==> (#[trigger] next.kept(id)).keeps_nothing(),
            decreases devices.len() - i,
        {
            let id = devices[i];
            let ghost seen = devices@.subrange(0, i as int);
            if !next.contains_key(id) {
                match self.renderers.get(id) {
                    Some(renderer) => {
                        next.insert(id, renderer.duplicate());
                    },
                    None => match get_channel_renderers(id, sources) {
                        Some(renderer) => {
                            next.insert(id, renderer);
                        },
                        None => {
                            return Err(SyncError::UnknownDevice(id));
                        },
                    },
                }
            } else {
                let ghost k = choose|k: int| 0 <= k < seen.len() && seen[k] == id;
                assert(devices@[k] == id);
            }
            proof {
                let grown = devices@.subrange(0, i + 1);
                assert(grown =~= seen.push(id));
                assert forall|other: u128| grown.contains(other) <==> (seen.contains(other) || other
                    == id) by {
                    if seen.contains(other) {
                        let k = choose|k: int| 0 <= k < seen.len() && seen[k] == other;
                        assert(grown[k] == other);
                    }
                    if other == id {
                        assert(grown[i as int] == id);
                    }
                    if grown.contains(other) {
                        let k = choose|k: int| 0 <= k < grown.len() && grown[k] == other;
                        if k < i {
                            assert(seen[k] == other);
                        }
                    }
                }
                assert(next@ =~= shown_channels(grown, kept, *sources));
            }
            i += 1;
        }
        assert(devices@.subrange(0, devices@.len() as int) =~= devices@);
        let mut actions: Vec<SyncAction> = Vec::new();
        proof {
            assert forall|k: int| 0 <= k < devices@.len() implies next@.contains_key(
                devices@[k],
            ) by {
                assert(devices@.contains(devices@[k]));
            }
        }
        Self::push_refresh(&mut actions, &devices, &next);
        self.devices_shown = devices;
        self.renderers = next;
        Ok(actions)
    }

    /// Brings the renderer of every channel shown up to date with `sources`,
    /// slot by slot, and returns what the changes ask for.
    ///
    /// Fails, and changes nothing, where the daemon does not report one of
    /// the channels shown: the error names the first such.
    pub fn update_devices(&mut self, sources: &SourceDevices) -> (result: Result<
        Vec<SyncAction>,
        SyncError,
    >)
        requires
            old(self).wf(),
        ensures
            final(self).wf(),
            match first_missing(old(self)@.devices_shown, *sources, 0) {
                Some(id) => result == Err::<Vec<SyncAction>, SyncError>(
                    SyncError::UnknownDevice(id),
                ) && final(self)@ == old(self)@ && forall|id: u128| #[trigger]
                    final(self).kept(id) == old(self).kept(id),
                None => result matches Ok(actions) && final(self)@ == (SessionView {
                    channels: update_plan(
                        old(self)@.devices_shown,
                        0,
                        old(self)@.channels,
                        *sources,
                        old(self)@.active_mix,
                    ).1,
                    ..old(self)@
                }) && actions@ == update_plan(
                    old(self)@.devices_shown,
                    0,
                    old(self)@.channels,
                    *sources,
                    old(self)@.active_mix,
                ).0 && forall|id: u128|
                    old(self)@.devices_shown.contains(id) ==> (#[trigger] final(self).kept(
                        id,
                    )).refreshed_from(
                        old(self).kept(id),
                        attributes_of(device_ref(*sources, id)->0),
                    ),
            },
    {
        let ghost shown = self@.devices_shown;
        let ghost start = self@.channels;
        let count = self.devices_shown.len();
        let mut i: usize = 0;
        while i < count
            invariant
                i <= count,
                count == shown.len(),
                shown == self.devices_shown@,
                *self == *old(self),
                self.wf(),
                first_missing(shown, *sources, 0) == first_missing(shown, *sources, i as int),
                forall|k: int| 0 <= k < i ==> device_ref(*sources, shown[k]) is Some,
            decreases count - i,
        {
            let id = self.devices_shown[i];
            if get_device_ref(id, sources).is_none() {
                return Err(SyncError::UnknownDevice(id));
            }
            i += 1;
        }
        let mut actions: Vec<SyncAction> = Vec::new();
        let active_mix = self.active_mix;
        let mut slot: usize = 0;
        while slot < count
            invariant
                slot <= count,
                count == shown.len(),
                count <= CHANNEL_COUNT,
                self.wf(),
                self@.devices_shown == shown,
                self@.device_type == old(self)@.device_type,
                self@.page == old(self)@.page,
                self@.active_mix == active_mix,
                active_mix == old(self)@.active_mix,
                self@.command_index == old(self)@.command_index,
                forall|k: int| 0 <= k < count ==> device_ref(*sources, shown[k]) is Some,
                forall|id: u128|
                    shown.contains(id) ==> if shown.subrange(0, slot as int).contains(id) {
                        (#[trigger] self.kept(id)).refreshed_from(
                            old(self).kept(id),
                            attributes_of(device_ref(*sources, id)->0),
                        )
                    } else {
                        self.kept(id) == old(self).kept(id)
                    },
                actions@ + update_plan(shown, slot as int, self@.channels, *sources, active_mix).0
                    == update_plan(shown, 0, start, *sources, active_mix).0,
                update_plan(shown, slot as int, self@.channels, *sources, active_mix).1
                    == update_plan(shown, 0, start, *sources, active_mix).1,
            decreases count - slot,
        {
            let id = self.devices_shown[slot];
            let ghost before = actions@;
            let ghost channels = self@.channels;
            let ghost seen = shown.subrange(0, slot as int);
            let ghost earlier = *self;
            assert(shown.contains(shown[slot as int]));
            assert(device_ref(*sources, shown[slot as int]) is Some);
            match (get_device_ref(id, sources), self.renderers.remove(id)) {
                (Some(device), Some(mut renderer)) => {
                    let ghost taken = renderer;
                    let changes = renderer.update_from_device(device);
                    let colour = renderer.colour();
                    let ghost updated = renderer;
                    self.renderers.insert(id, renderer);
                    push_channel_actions(&mut actions, slot, &changes, active_mix, colour);
                    proof {
                        let new = attributes_of(*device);
                        let grown = shown.subrange(0, slot + 1);
                        assert(grown =~= seen.push(id));
                        assert forall|other: u128| grown.contains(other) <==> (seen.contains(other)
                            || other == id) by {
                            if seen.contains(other) {
                                let k = choose|k: int| 0 <= k < seen.len() && seen[k] == other;
                                assert(grown[k] == other);
                            }
                            if other == id {
                                assert(grown[slot as int] == id);
                            }
                            if grown.contains(other) {
                                let k = choose|k: int| 0 <= k < grown.len() && grown[k] == other;
                                if k < slot {
                                    assert(seen[k] == other);
                                }
                            }
                        }
                        assert(taken == earlier.kept(id));
                        assert(updated.refreshed_from(taken, new));
                        assert(self.kept(id) == updated);
                        if seen.contains(id) {
                            assert(earlier.kept(id).refreshed_from(old(self).kept(id), new));
                            lemma_refreshed_twice(old(self).kept(id), taken, updated, new);
                        } else {
                            assert(earlier.kept(id) == old(self).kept(id));
                        }
                        assert forall|other: u128| shown.contains(other) implies if grown.contains(
                            other,
                        ) {
                            (#[trigger] self.kept(other)).refreshed_from(
                                old(self).kept(other),
                                attributes_of(device_ref(*sources, other)->0),
                            )
                        } else {
                            self.kept(other) == old(self).kept(other)
                        } by {
                            if other != id {
                                assert(self.kept(other) == earlier.kept(other));
                                if seen.contains(other) {
                                    assert(earlier.kept(other).refreshed_from(
                                        old(self).kept(other),
                                        attributes_of(device_ref(*sources, other)->0),
                                    ));
                                } else {
                                    assert(earlier.kept(other) == old(self).kept(other));
                                }
                            }
                        }
                        assert(self@.channels =~= channels.insert(id, new));
                        assert(before + channel_actions(
                            slot,
                            changes@,
                            0,
                            active_mix,
                            colour,
                        ) + update_plan(shown, slot + 1, self@.channels, *sources, active_mix).0
                            =~= before + update_plan(
                            shown,
                            slot as int,
                            channels,
                            *sources,
                            active_mix,
                        ).0);
                    }
                },
                _ => {
                    assert(false);
                },
            }
            slot += 1;
        }
        assert(actions@ + update_plan(shown, count as int, self@.channels, *sources, active_mix).0
            =~= actions@);
        assert(shown.subrange(0, count as int) =~= shown);
        Ok(actions)
    }

    /// Takes in a new status of the daemon.  Where the channels of the
    /// current page are no longer the ones shown, the new ones are shown
    /// and the display refreshed as a whole; else each channel shown is
    /// brought up to date and only what changed is drawn.
    pub fn apply_status(&mut self, sources: &SourceDevices) -> (result: Result<
        Vec<SyncAction>,
        SyncError,
    >)
        requires
            old(self).wf(),
        ensures
            final(self).wf(),
            ({
                let before = old(self)@;
                let devices = visible_channels(
                    sources.device_order.pinned@,
                    sources.device_order.default@,
                    before.page as int,
                );
                if devices != before.devices_shown {
                    match first_unknown(devices, before.channels, *sources, 0) {
                        Some(id) => result == Err::<Vec<SyncAction>, SyncError>(
                            SyncError::UnknownDevice(id),
                        ) && final(self)@ == before,
                        None => result matches Ok(actions) && final(self)@ == (SessionView {
                            devices_shown: devices,
                            channels: shown_channels(devices, before.channels, *sources),
                            ..before
                        }) && actions@ == refresh_actions(devices, final(self)@.channels)
                            && forall|id: u128|
                            devices.contains(id) ==> (#[trigger] final(self).kept(
                                id,
                            )).keeps_nothing(),
                    }
                } else {
                    match first_missing(devices, *sources, 0) {
                        Some(id) => result == Err::<Vec<SyncAction>, SyncError>(
                            SyncError::UnknownDevice(id),
                        ) && final(self)@ == before,
                        None => result matches Ok(actions) && final(self)@ == (SessionView {
                            channels: update_plan(
                                devices,
                                0,
                                before.channels,
                                *sources,
                                before.active_mix,
                            ).1,
                            ..before
                        }) && actions@ == update_plan(
                            devices,
                            0,
                            before.channels,
                            *sources,
                            before.active_mix,
                        ).0 && forall|id: u128|
                            devices.contains(id) ==> (#[trigger] final(self).kept(
                                id,
                            )).refreshed_from(
                                old(self).kept(id),
                                attributes_of(device_ref(*sources, id)->0),
                            ),
                    }
                }
            }),
    {
        let devices = get_page_channels(&sources.device_order, self.page);
        if !same_devices(&devices, &self.devices_shown) {
            self.show_devices(devices, sources)
        } else {
            self.update_devices(sources)
        }
    }

    /// A session for a console of kind `device_type` that shows the first
    /// page of `sources` with mix A active, and the actions that put it on
    /// the display.  The first request, the one for the status, had the
    /// number 0; the next one gets the number 1.
    pub fn start(device_type: DeviceType, sources: &SourceDevices) -> (result: Result<
        (PipeweaverSession, Vec<SyncAction>),
        SyncError,
    >)
        ensures
            ({
                let devices = visible_channels(
                    sources.device_order.pinned@,
                    sources.device_order.default@,
                    0,
                );
                match first_unknown(devices, Map::empty(), *sources, 0) {
                    Some(id) => result matches Err(e) && e == SyncError::UnknownDevice(id),
                    None => result matches Ok((session, actions)) && session.wf() && session@
                        == (SessionView {
                        device_type,
                        page: 0,
                        active_mix: Mix::A,
                        devices_shown: devices,
                        channels: shown_channels(devices, Map::empty(), *sources),
                        command_index: 1,
                    }) && actions@ == refresh_actions(devices, session@.channels) && forall|
                        id: u128,
                    |
                        devices.contains(id) ==> (#[trigger] session.kept(id)).keeps_nothing(),
                }
            }),
    {
        let mut session = PipeweaverSession {
            device_type,
            page: 0,
            active_mix: Mix::A,
            devices_shown: Vec::new(),
            renderers: Renderers::new(),
            command_index: 1,
        };
        let devices = get_page_channels(&sources.device_order, 0);
        match session.show_devices(devices, sources) {
            Ok(actions) => Ok((session, actions)),
            Err(error) => Err(error),
        }
    }

    /// The renderer kept for the source `id`, with the pictures it keeps.
    pub closed spec fn kept(&self, id: u128) -> ChannelRenderer {
        self.renderers.kept(id)
    }

    /// Draws and encodes one part of the channel at `slot`, ready to be sent
    /// to its place on the display.  The renderer hands out the picture it
    /// keeps, or draws a new one with `title` and `art` and keeps that.  The
    /// dial is sent as the dial cache holds it.
    ///
    /// Fails where the slot is empty or the part is the canvas, where the
    /// dial is missing or cannot be decoded, and where the encoder refuses
    /// the picture.
    pub fn render_part(
        &mut self,
        part: DisplayPart,
        slot: usize,
        title: &TextRun,
        art: &MuteArt,
        cache: &DialImageCache,
    ) -> (out: Result<RawImage, PartError>)
        requires
            old(self).wf(),
            title.wf(),
            art.wf(),
        ensures
            final(self).wf(),
            final(self)@ == old(self)@,
            ({
                let session = old(self)@;
                if part == DisplayPart::Canvas || slot >= session.devices_shown.len() {
                    out matches Err(e) && e == PartError::NoChannel && forall|id: u128| #[trigger]
                        final(self).kept(id) == old(self).kept(id)
                } else {
                    let shown = session.devices_shown[slot as int];
                    &&& part_outcome(
                        old(self).kept(shown),
                        final(self).kept(shown),
                        out,
                        part,
                        slot,
                        session.active_mix,
                        *title,
                        *art,
                        cache@,
                    )
                    &&& forall|id: u128|
                        id != shown ==> #[trigger] final(self).kept(id) == old(self).kept(id)
                }
            }),
    {
        if slot >= self.devices_shown.len() {
            return Err(PartError::NoChannel);
        }
        let id = self.devices_shown[slot];
        let active_mix = self.active_mix;
        let ghost before = self.renderers@;
        assert(self@.devices_shown.contains(self@.devices_shown[slot as int]));
        if let DisplayPart::Canvas = part {
            return Err(PartError::NoChannel);
        }
        let mut renderer = match self.renderers.remove(id) {
            Some(renderer) => renderer,
            None => {
                assert(false);
                return Err(PartError::NoChannel);
            },
        };
        let out = match part {
            DisplayPart::Canvas => Err(PartError::NoChannel),
            DisplayPart::Header => {
                let picture = renderer.draw_header(title);
                encode_part(&picture, part, slot)
            },
            DisplayPart::MuteBox(target) => {
                let picture = renderer.draw_mute_box(target, art);
                encode_part(&picture, part, slot)
            },
            DisplayPart::Channel => {
                let ghost taken = renderer;
                match renderer.full_render(active_mix, title, art, cache) {
                    Ok(picture) => {
                        assert(rendered_channel(
                            taken,
                            renderer,
                            Ok(picture.image@),
                            active_mix,
                            *title,
                            *art,
                            cache@,
                        ));
                        encode_part(&picture, part, slot)
                    },
                    Err(error) => {
                        assert(rendered_channel(
                            taken,
                            renderer,
                            Err(error),
                            active_mix,
                            *title,
                            *art,
                            cache@,
                        ));
                        Err(PartError::Render(error))
                    },
                }
            },
            DisplayPart::Volume(mix) => match renderer.get_volume(mix, cache) {
                Ok(raw) => {
                    let position = match draw(part, slot) {
                        SyncAction::Draw { x, y, .. } => (x, y),
                        _ => (0u32, 0u32),
                    };
                    Ok(RawImage { position, image: raw.image })
                },
                Err(error) => Err(PartError::Render(error)),
            },
        };
        self.renderers.insert(id, renderer);
        assert(self.renderers@ =~= before);
        out
    }

    /// Draws and encodes the whole display, for the origin.  `titles` holds
    /// the rasterized title of the channel of each slot.  Fails only where a
    /// dial is missing or cannot be decoded; with no channel shown it hands
    /// out the blank display.
    pub fn render_canvas(&self, titles: &Vec<TextRun>, art: &MuteArt, cache: &DialImageCache) -> (out:
        Result<RawImage, PartError>)
        requires
            self.wf(),
            titles@.len() == self@.devices_shown.len(),
            forall|i: int| 0 <= i < titles@.len() ==> (#[trigger] titles@[i]).wf(),
            art.wf(),
        ensures
            self@.devices_shown.len() == 0 ==> (out matches Ok(raw) && encodes(
                out,
                filled(
                    DISPLAY_DIMENSIONS.0 as int,
                    DISPLAY_DIMENSIONS.1 as int,
                    bg_colour(),
                ),
                DisplayPart::Canvas,
                0,
            )),
            first_missing_dial(
                self@.devices_shown,
                self@.channels,
                self@.active_mix,
                cache@,
                0,
            ) is Some ==> out is Err,
            match out {
                Ok(_) => exists|picture: ImageView| #[trigger]
                    is_canvas(picture, self@.devices_shown, self@.channels, titles@, *art)
                        && encodes(out, picture, DisplayPart::Canvas, 0),
                Err(PartError::Render(error)) => if error == RenderError::MissingDial {
                    first_missing_dial(
                        self@.devices_shown,
                        self@.channels,
                        self@.active_mix,
                        cache@,
                        0,
                    ) is Some
                } else {
                    is_decode_error(error)
                },
                Err(_) => false,
            },
    {
        match self.do_full_render(titles, art, cache) {
            Ok(picture) => encode_part(&picture, DisplayPart::Canvas, 0),
            Err(error) => Err(PartError::Render(error)),
        }
    }

    /// Makes `mix` the active mix.
    pub(crate) fn set_active_mix(&mut self, mix: Mix)
        requires
            old(self).wf(),
        ensures
            final(self).wf(),
            final(self)@ == (SessionView { active_mix: mix, ..old(self)@ }),
            forall|id: u128| #[trigger] final(self).kept(id) == old(self).kept(id),
    {
        self.active_mix = mix;
    }

    /// Makes `page` the page on display; the channels shown stay.
    pub(crate) fn set_page(&mut self, page: u8)
        requires
            old(self).wf(),
        ensures
            final(self).wf(),
            final(self)@ == (SessionView { page, ..old(self)@ }),
            forall|id: u128| #[trigger] final(self).kept(id) == old(self).kept(id),
    {
        self.page = page;
    }

    /// Hands out the number for the next request and moves the count on;
    /// after the highest number it starts again at 0.
    pub(crate) fn take_index(&mut self) -> (index: u64)
        requires
            old(self).wf(),
        ensures
            final(self).wf(),
            index == old(self)@.command_index,
            final(self)@ == (SessionView {
                command_index: if index == u64::MAX {
                    0
                } else {
                    (index + 1) as u64
                },
                ..old(self)@
            }),
            forall|id: u128| #[trigger] final(self).kept(id) == old(self).kept(id),
    {
        let index = self.command_index;
        self.command_index = if index == u64::MAX {
            0
        } else {
            index + 1
        };
        index
    }

    /// The kind of console that this session serves.
    pub fn device_type(&self) -> (device_type: DeviceType)
        ensures
            device_type == self@.device_type,
    {
        self.device_type
    }

    /// The number that the next request gets.
    pub fn command_index(&self) -> (index: u64)
        ensures
            index == self@.command_index,
    {
        self.command_index
    }

    /// The page on display.
    pub fn page(&self) -> (page: u8)
        ensures
            page == self@.page,
    {
        self.page
    }

    /// The mix whose volumes the dials show and change.
    pub fn active_mix(&self) -> (mix: Mix)
        ensures
            mix == self@.active_mix,
    {
        self.active_mix
    }

    /// The sources on display, by slot.
    pub fn devices_shown(&self) -> (devices: &Vec<u128>)
        ensures
            devices@ == self@.devices_shown,
    {
        &self.devices_shown
    }

    /// The renderer of the source `id`, if it is on display.
    pub fn renderer(&self, id: u128) -> (renderer: Option<&ChannelRenderer>)
        requires
            self.wf(),
        ensures
            renderer is Some <==> self@.channels.contains_key(id),
            renderer matches Some(r) ==> r@ == self@.channels[id] && r.wf(),
    {
        self.renderers.get(id)
    }
}

} // verus!
