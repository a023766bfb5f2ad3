//! One audio source as the display shows it: its attributes, and the list of
//! what changed when a fresh snapshot of the source arrives.

use crate::colour::Rgba;
use crate::raster::{Image, ImageView};
use crate::render::{channel_view, header_view, mute_box_of, MuteArt, TextRun};
use vstd::prelude::*;

verus! {

/// Highest volume a channel stores, in percent.
pub const MAX_VOLUME: u8 = 100;

/// One of the two monitoring buses.
#[derive(Debug, Clone, Copy, PartialEq, Eq, Structural)]
pub enum Mix {
    A,
    B,
}

/// One of the two mute-routing groups.
#[derive(Debug, Clone, Copy, PartialEq, Eq, Structural)]
pub enum MuteTarget {
    TargetA,
    TargetB,
}

/// Name, identifier and accent colour of a source, as the daemon reports them.
#[derive(Debug, Clone)]
pub struct DeviceDescription {
    pub id: u128,
    pub name: String,
    pub colour: Colour,
}

/// Accent colour of a source.
#[derive(Debug, Clone, Copy, PartialEq, Eq, Structural)]
pub struct Colour {
    pub red: u8,
    pub green: u8,
    pub blue: u8,
}

/// Volume of a source on each mix.
#[derive(Debug, Clone, Copy, PartialEq, Eq, Structural)]
pub struct Volumes {
    pub mix_a: u8,
    pub mix_b: u8,
}

/// Mute membership of a source: the targets it is muted against, and for each
/// target the sources it routes the mute to (none means all).
#[derive(Debug, Clone)]
pub struct MuteStates {
    pub mute_state: Vec<MuteTarget>,
    pub mute_targets_a: Vec<u128>,
    pub mute_targets_b: Vec<u128>,
}

/// A physical or virtual source as the daemon describes it.
#[derive(Debug, Clone)]
pub struct SourceDevice {
    pub description: DeviceDescription,
    pub volumes: Volumes,
    pub mute_states: MuteStates,
}

/// What the display shows of one mute target.
#[derive(Debug, Clone, Copy, PartialEq, Eq, Structural)]
pub struct MuteState {
    pub is_active: bool,
    pub is_mute_to_all: bool,
}

/// A field of a channel that a snapshot changed.
#[derive(Debug, Clone, Copy, PartialEq, Eq, Structural)]
pub enum ChannelChangedProperty {
    Title,
    Colour,
    Volumes(Mix),
    MuteState(MuteTarget),
}

/// The attributes of a channel as mathematical values.
pub struct ChannelAttributes {
    pub title: Seq<char>,
    pub colour: Rgba,
    pub volume_a: u8,
    pub volume_b: u8,
    pub mute_a: MuteState,
    pub mute_b: MuteState,
}

impl ChannelAttributes {
    pub open spec fn volume(self, mix: Mix) -> u8 {
        match mix {
            Mix::A => self.volume_a,
            Mix::B => self.volume_b,
        }
    }

    pub open spec fn mute(self, target: MuteTarget) -> MuteState {
        match target {
            MuteTarget::TargetA => self.mute_a,
            MuteTarget::TargetB => self.mute_b,
        }
    }
}

/// A volume as a channel stores it: never above 100.
pub open spec fn clamp_volume(volume: u8) -> u8 {
    if volume > MAX_VOLUME {
        MAX_VOLUME
    } else {
        volume
    }
}

/// The targets for which `device` routes the mute.
pub open spec fn mute_targets_of(device: SourceDevice, target: MuteTarget) -> Seq<u128> {
    match target {
        MuteTarget::TargetA => device.mute_states.mute_targets_a@,
        MuteTarget::TargetB => device.mute_states.mute_targets_b@,
    }
}

/// What the display shows of `target` for `device`.
pub open spec fn mute_state_of(device: SourceDevice, target: MuteTarget) -> MuteState {
    MuteState {
        is_active: device.mute_states.mute_state@.contains(target),
        is_mute_to_all: mute_targets_of(device, target).len() == 0,
    }
}

/// The attributes that a channel takes from `device`.
pub open spec fn attributes_of(device: SourceDevice) -> ChannelAttributes {
    ChannelAttributes {
        title: device.description.name@,
        colour: Rgba {
            red: device.description.colour.red,
            green: device.description.colour.green,
            blue: device.description.colour.blue,
            alpha: 255,
        },
        volume_a: clamp_volume(device.volumes.mix_a),
        volume_b: clamp_volume(device.volumes.mix_b),
        mute_a: mute_state_of(device, MuteTarget::TargetA),
        mute_b: mute_state_of(device, MuteTarget::TargetB),
    }
}

/// `[property]` when `changed`, else nothing.
pub open spec fn when(changed: bool, property: ChannelChangedProperty) -> Seq<ChannelChangedProperty> {
    if changed {
        seq![property]
    } else {
        Seq::empty()
    }
}

/// The fields in which `new` differs from `current`, in the order in which
/// they are reported: title, colour, the volume of each mix, then each mute
/// target once, whichever of its two flags changed.  A target whose active
/// flag changed comes before one of which only the routing flag changed.
pub open spec fn changed_properties(
    current: ChannelAttributes,
    new: ChannelAttributes,
) -> Seq<ChannelChangedProperty> {
    let active_a = current.mute_a.is_active != new.mute_a.is_active;
    let active_b = current.mute_b.is_active != new.mute_b.is_active;
    let routing_a = current.mute_a.is_mute_to_all != new.mute_a.is_mute_to_all;
    let routing_b = current.mute_b.is_mute_to_all != new.mute_b.is_mute_to_all;
    when(current.title != new.title, ChannelChangedProperty::Title)
        + when(current.colour != new.colour, ChannelChangedProperty::Colour)
        + when(current.volume_a != new.volume_a, ChannelChangedProperty::Volumes(Mix::A))
        + when(current.volume_b != new.volume_b, ChannelChangedProperty::Volumes(Mix::B))
        + when(active_a, ChannelChangedProperty::MuteState(MuteTarget::TargetA))
        + when(active_b, ChannelChangedProperty::MuteState(MuteTarget::TargetB))
        + when(routing_a && !active_a, ChannelChangedProperty::MuteState(MuteTarget::TargetA))
        + when(routing_b && !active_b, ChannelChangedProperty::MuteState(MuteTarget::TargetB))
}

/// True when `target` is among `targets`.
pub fn contains_target(targets: &Vec<MuteTarget>, target: MuteTarget) -> (found: bool)
    ensures
        found == targets@.contains(target),
{
    let mut i: usize = 0;
    while i < targets.len()
        invariant
            i <= targets.len(),
            forall|k: int| 0 <= k < i ==> targets@[k] != target,
        decreases targets.len() - i,
    {
        if targets[i] == target {
            return true;
        }
        i += 1;
    }
    false
}

/// What the display shows of `target` for `device`.
pub fn read_mute_state(device: &SourceDevice, target: MuteTarget) -> (state: MuteState)
    ensures
        state == mute_state_of(*device, target),
{
    let routed = match target {
        MuteTarget::TargetA => device.mute_states.mute_targets_a.len(),
        MuteTarget::TargetB => device.mute_states.mute_targets_b.len(),
    };
    MuteState {
        is_active: contains_target(&device.mute_states.mute_state, target),
        is_mute_to_all: routed == 0,
    }
}

/// `volume`, or 100 where it is above 100.
pub fn clamped(volume: u8) -> (stored: u8)
    ensures
        stored == clamp_volume(volume),
        stored <= MAX_VOLUME,
{
    if volume > MAX_VOLUME {
        MAX_VOLUME
    } else {
        volume
    }
}

/// Appends `property` to `updates` when `changed`.
fn push_when(updates: &mut Vec<ChannelChangedProperty>, changed: bool, property: ChannelChangedProperty)
    ensures
        final(updates)@ == old(updates)@ + when(changed, property),
{
    if changed {
        updates.push(property);
        assert(updates@ =~= old(updates)@ + when(changed, property));
    } else {
        assert(updates@ =~= old(updates)@ + when(changed, property));
    }
}

/// A header as it was drawn, and the rasterized title it was drawn from.
pub struct CachedHeader {
    pub(crate) image: Image,
    pub(crate) title: Ghost<TextRun>,
}

/// A mute button as it was drawn, and what it was drawn with.
pub struct CachedMuteBox {
    pub(crate) image: Image,
    pub(crate) art: Ghost<MuteArt>,
}

/// A whole channel as it was drawn for a mix, and what it was drawn with.
pub struct CachedChannel {
    pub(crate) image: Image,
    pub(crate) mix: Mix,
    pub(crate) title: Ghost<TextRun>,
    pub(crate) art: Ghost<MuteArt>,
    pub(crate) dial: Ghost<ImageView>,
}

/// The display state of one audio source: its attributes, and the pictures
/// drawn from them as long as the attributes they depend on stay the same.
pub struct ChannelRenderer {
    pub(crate) title: String,
    pub(crate) colour: Rgba,
    pub(crate) volume_a: u8,
    pub(crate) volume_b: u8,
    pub(crate) mute_a: MuteState,
    pub(crate) mute_b: MuteState,
    pub(crate) header: Option<CachedHeader>,
    pub(crate) mute_box_a: Option<CachedMuteBox>,
    pub(crate) mute_box_b: Option<CachedMuteBox>,
    pub(crate) composite: Option<CachedChannel>,
}

impl View for ChannelRenderer {
    type V = ChannelAttributes;

    closed spec fn view(&self) -> ChannelAttributes {
        ChannelAttributes {
            title: self.title@,
            colour: self.colour,
            volume_a: self.volume_a,
            volume_b: self.volume_b,
            mute_a: self.mute_a,
            mute_b: self.mute_b,
        }
    }
}

impl ChannelRenderer {
    /// The header kept, if any.
    pub closed spec fn cached_header(&self) -> Option<ImageView> {
        match self.header {
            Some(kept) => Some(kept.image@),
            None => None,
        }
    }

    /// The mute button kept for `target`, if any.
    pub closed spec fn cached_mute_box(&self, target: MuteTarget) -> Option<ImageView> {
        match target {
            MuteTarget::TargetA => match self.mute_box_a {
                Some(kept) => Some(kept.image@),
                None => None,
            },
            MuteTarget::TargetB => match self.mute_box_b {
                Some(kept) => Some(kept.image@),
                None => None,
            },
        }
    }

    /// The picture of the whole channel kept, if any, and the mix it shows.
    pub closed spec fn cached_channel(&self) -> Option<(Mix, ImageView)> {
        match self.composite {
            Some(kept) => Some((kept.mix, kept.image@)),
            None => None,
        }
    }

    /// True when a mute button kept is the button of `target` for the
    /// current attributes.
    pub closed spec fn mute_box_fits(&self, kept: Option<CachedMuteBox>, target: MuteTarget) -> bool {
        kept matches Some(k) ==> k.image@.wf() && k.art@.wf() && k.image@ == mute_box_of(
            self@,
            target,
            k.art@,
        )
    }

    /// Holds of every renderer that this module hands out: no volume is above
    /// 100, the accent colour is opaque, and every picture kept is the
    /// picture of the current attributes.
    pub closed spec fn wf(&self) -> bool {
        &&& self.volume_a <= MAX_VOLUME
        &&& self.volume_b <= MAX_VOLUME
        &&& self.colour.alpha == 255
        &&& self.header matches Some(kept) ==> kept.image@.wf() && kept.title@.wf() && kept.image@
            == header_view(self.colour, kept.title@.views(), kept.title@.baseline_y as int)
        &&& self.mute_box_fits(self.mute_box_a, MuteTarget::TargetA)
        &&& self.mute_box_fits(self.mute_box_b, MuteTarget::TargetB)
        &&& self.composite matches Some(kept) ==> kept.image@.wf() && kept.image@ == channel_view(
            self@,
            kept.title@,
            kept.art@,
            kept.dial@,
        )
    }

    /// True when no picture is kept.
    pub open spec fn keeps_nothing(&self) -> bool {
        &&& self.cached_header() is None
        &&& self.cached_mute_box(MuteTarget::TargetA) is None
        &&& self.cached_mute_box(MuteTarget::TargetB) is None
        &&& self.cached_channel() is None
    }

    /// True when `self` has the attributes `new` and keeps of the pictures
    /// of `before` exactly those that `new` leaves valid: the header while
    /// title and colour stay, a mute button while the colour and the state
    /// of its mute stay, the whole channel while everything stays.
    pub open spec fn refreshed_from(&self, before: ChannelRenderer, new: ChannelAttributes) -> bool {
        &&& self@ == new
        &&& self.cached_header() == if before@.title != new.title || before@.colour != new.colour {
            None
        } else {
            before.cached_header()
        }
        &&& forall|target: MuteTarget|
            #[trigger] self.cached_mute_box(target) == if before@.colour != new.colour
                || before@.mute(target) != new.mute(target) {
                None
            } else {
                before.cached_mute_box(target)
            }
        &&& self.cached_channel() == if before@ != new {
            None
        } else {
            before.cached_channel()
        }
    }

    /// Every picture that a renderer keeps is a picture of its current
    /// attributes: the header is the header of the current colour with some
    /// title drawn on it, each mute button is the button for the current
    /// colour and mute state, and the whole channel is the current
    /// attributes drawn with some dial.  No stored volume is above 100.
    pub proof fn lemma_kept_pictures_fit(&self)
        requires
            self.wf(),
        ensures
            self@.volume_a <= MAX_VOLUME,
            self@.volume_b <= MAX_VOLUME,
            self@.colour.alpha == 255,
            self.cached_header() matches Some(picture) ==> picture.wf() && exists|title: TextRun|
                title.wf() && picture == #[trigger] header_view(
                    self@.colour,
                    title.views(),
                    title.baseline_y as int,
                ),
            forall|target: MuteTarget|
                (#[trigger] self.cached_mute_box(target)) is Some ==> self.cached_mute_box(
                    target,
                )->0.wf() && exists|art: MuteArt|
                    art.wf() && self.cached_mute_box(target)->0 == #[trigger] mute_box_of(
                        self@,
                        target,
                        art,
                    ),
            self.cached_channel() matches Some((_, picture)) ==> picture.wf() && exists|
                title: TextRun,
                art: MuteArt,
                dial: ImageView,
            | picture == #[trigger] channel_view(self@, title, art, dial),
    {
        if let Some(kept) = self.header {
            assert(kept.image@ == header_view(
                self@.colour,
                kept.title@.views(),
                kept.title@.baseline_y as int,
            ));
        }
        assert forall|target: MuteTarget|
            (#[trigger] self.cached_mute_box(target)) is Some implies self.cached_mute_box(
                target,
            )->0.wf() && exists|art: MuteArt|
                art.wf() && self.cached_mute_box(target)->0 == #[trigger] mute_box_of(
                    self@,
                    target,
                    art,
                ) by {
            let kept = match target {
                MuteTarget::TargetA => self.mute_box_a->0,
                MuteTarget::TargetB => self.mute_box_b->0,
            };
            assert(kept.art@.wf() && kept.image@ == mute_box_of(self@, target, kept.art@));
        }
        if let Some(kept) = self.composite {
            assert(kept.image@ == channel_view(self@, kept.title@, kept.art@, kept.dial@));
        }
    }

    /// What the pictures kept are, for the rest of the crate.
    pub(crate) proof fn lemma_kept(&self)
        ensures
            self@ == (ChannelAttributes {
                title: self.title@,
                colour: self.colour,
                volume_a: self.volume_a,
                volume_b: self.volume_b,
                mute_a: self.mute_a,
                mute_b: self.mute_b,
            }),
            self.cached_header() == match self.header {
                Some(kept) => Some(kept.image@),
                None => None,
            },
            self.cached_mute_box(MuteTarget::TargetA) == match self.mute_box_a {
                Some(kept) => Some(kept.image@),
                None => None,
            },
            self.cached_mute_box(MuteTarget::TargetB) == match self.mute_box_b {
                Some(kept) => Some(kept.image@),
                None => None,
            },
            self.cached_channel() == match self.composite {
                Some(kept) => Some((kept.mix, kept.image@)),
                None => None,
            },
            self.wf() <==> {
                &&& self@.volume_a <= MAX_VOLUME
                &&& self@.volume_b <= MAX_VOLUME
                &&& self@.colour.alpha == 255
                &&& self.header matches Some(kept) ==> kept.image@.wf() && kept.title@.wf()
                    && kept.image@ == header_view(
                    self@.colour,
                    kept.title@.views(),
                    kept.title@.baseline_y as int,
                )
                &&& self.mute_box_a matches Some(kept) ==> kept.image@.wf() && kept.art@.wf()
                    && kept.image@ == mute_box_of(self@, MuteTarget::TargetA, kept.art@)
                &&& self.mute_box_b matches Some(kept) ==> kept.image@.wf() && kept.art@.wf()
                    && kept.image@ == mute_box_of(self@, MuteTarget::TargetB, kept.art@)
                &&& self.composite matches Some(kept) ==> kept.image@.wf() && kept.image@
                    == channel_view(self@, kept.title@, kept.art@, kept.dial@)
            },
    {
    }

    /// A renderer with the attributes of `device`.
    pub fn from_source_device(device: &SourceDevice) -> (renderer: ChannelRenderer)
        ensures
            renderer@ == attributes_of(*device),
            renderer.wf(),
            renderer.keeps_nothing(),
    {
        ChannelRenderer {
            title: device.description.name.clone(),
            colour: Rgba {
                red: device.description.colour.red,
                green: device.description.colour.green,
                blue: device.description.colour.blue,
                alpha: 255,
            },
            volume_a: clamped(device.volumes.mix_a),
            volume_b: clamped(device.volumes.mix_b),
            mute_a: read_mute_state(device, MuteTarget::TargetA),
            mute_b: read_mute_state(device, MuteTarget::TargetB),
            header: None,
            mute_box_a: None,
            mute_box_b: None,
            composite: None,
        }
    }

    /// Takes over the attributes of `device` and reports which fields
    /// changed.
    pub fn update_from_device(&mut self, device: &SourceDevice) -> (updates: Vec<
        ChannelChangedProperty,
    >)
        requires
            old(self).wf(),
        ensures
            final(self)@ == attributes_of(*device),
            final(self).wf(),
            updates@ == changed_properties(old(self)@, attributes_of(*device)),
            final(self).refreshed_from(*old(self), attributes_of(*device)),
    {
        let ghost before = self@;
        let ghost after = attributes_of(*device);
        let ghost active_a_changed = before.mute_a.is_active != after.mute_a.is_active;
        let ghost active_b_changed = before.mute_b.is_active != after.mute_b.is_active;
        let ghost target_a = ChannelChangedProperty::MuteState(MuteTarget::TargetA);
        let ghost target_b = ChannelChangedProperty::MuteState(MuteTarget::TargetB);
        let ghost s1 = when(before.title != after.title, ChannelChangedProperty::Title);
        let ghost s2 = s1 + when(before.colour != after.colour, ChannelChangedProperty::Colour);
        let ghost s3 = s2 + when(
            before.volume_a != after.volume_a,
            ChannelChangedProperty::Volumes(Mix::A),
        );
        let ghost s4 = s3 + when(
            before.volume_b != after.volume_b,
            ChannelChangedProperty::Volumes(Mix::B),
        );
        let ghost s5 = s4 + when(active_a_changed, target_a);
        let ghost s6 = s5 + when(active_b_changed, target_b);
        let ghost s7 = s6 + when(
            before.mute_a.is_mute_to_all != after.mute_a.is_mute_to_all && !active_a_changed,
            target_a,
        );
        let ghost s8 = s7 + when(
            before.mute_b.is_mute_to_all != after.mute_b.is_mute_to_all && !active_b_changed,
            target_b,
        );
        let mut updates: Vec<ChannelChangedProperty> = Vec::new();
        let title_changed = device.description.name != self.title;
        if title_changed {
            self.title = device.description.name.clone();
        }
        assert(self@.title =~= after.title);
        push_when(&mut updates, title_changed, ChannelChangedProperty::Title);
        assert(updates@ =~= s1);
        let colour = Rgba {
            red: device.description.colour.red,
            green: device.description.colour.green,
            blue: device.description.colour.blue,
            alpha: 255,
        };
        let colour_changed = self.colour != colour;
        push_when(&mut updates, colour_changed, ChannelChangedProperty::Colour);
        self.colour = colour;
        let volume_a = clamped(device.volumes.mix_a);
        push_when(
            &mut updates,
            volume_a != self.volume_a,
            ChannelChangedProperty::Volumes(Mix::A),
        );
        self.volume_a = volume_a;
        let volume_b = clamped(device.volumes.mix_b);
        push_when(
            &mut updates,
            volume_b != self.volume_b,
            ChannelChangedProperty::Volumes(Mix::B),
        );
        self.volume_b = volume_b;
        let mute_a = read_mute_state(device, MuteTarget::TargetA);
        let mute_b = read_mute_state(device, MuteTarget::TargetB);
        let active_a = mute_a.is_active != self.mute_a.is_active;
        let active_b = mute_b.is_active != self.mute_b.is_active;
        let routing_a = mute_a.is_mute_to_all != self.mute_a.is_mute_to_all;
        let routing_b = mute_b.is_mute_to_all != self.mute_b.is_mute_to_all;
        push_when(&mut updates, active_a, ChannelChangedProperty::MuteState(MuteTarget::TargetA));
        push_when(&mut updates, active_b, ChannelChangedProperty::MuteState(MuteTarget::TargetB));
        push_when(
            &mut updates,
            routing_a && !active_a,
            ChannelChangedProperty::MuteState(MuteTarget::TargetA),
        );
        push_when(
            &mut updates,
            routing_b && !active_b,
            ChannelChangedProperty::MuteState(MuteTarget::TargetB),
        );
        self.mute_a = mute_a;
        self.mute_b = mute_b;
        assert(updates@ == s8);
        proof {
            lemma_no_change_iff_equal(before, after);
        }
        self.forget(
            title_changed || colour_changed,
            colour_changed || active_a || routing_a,
            colour_changed || active_b || routing_b,
            updates.len() > 0,
        );
        updates
    }

    /// Drops the pictures kept that the flags name.
    fn forget(&mut self, header: bool, mute_box_a: bool, mute_box_b: bool, composite: bool)
        ensures
            final(self)@ == old(self)@,
            final(self).header == if header {
                None
            } else {
                old(self).header
            },
            final(self).mute_box_a == if mute_box_a {
                None
            } else {
                old(self).mute_box_a
            },
            final(self).mute_box_b == if mute_box_b {
                None
            } else {
                old(self).mute_box_b
            },
            final(self).composite == if composite {
                None
            } else {
                old(self).composite
            },
    {
        if header {
            self.header = None;
        }
        if mute_box_a {
            self.mute_box_a = None;
        }
        if mute_box_b {
            self.mute_box_b = None;
        }
        if composite {
            self.composite = None;
        }
    }

    /// A renderer with the same attributes and no pictures kept.
    pub fn duplicate(&self) -> (copy: ChannelRenderer)
        ensures
            copy@ == self@,
            self.wf() ==> copy.wf(),
            copy.keeps_nothing(),
    {
        ChannelRenderer {
            title: self.title.clone(),
            colour: self.colour,
            volume_a: self.volume_a,
            volume_b: self.volume_b,
            mute_a: self.mute_a,
            mute_b: self.mute_b,
            header: None,
            mute_box_a: None,
            mute_box_b: None,
            composite: None,
        }
    }

    /// The title shown in the header.
    pub fn title(&self) -> (title: &String)
        ensures
            title@ == self@.title,
    {
        &self.title
    }

    /// The accent colour.
    pub fn colour(&self) -> (colour: Rgba)
        ensures
            colour == self@.colour,
    {
        self.colour
    }

    /// The stored volume of `mix`, in percent.
    pub fn volume(&self, mix: Mix) -> (volume: u8)
        ensures
            volume == self@.volume(mix),
            self.wf() ==> volume <= MAX_VOLUME,
    {
        match mix {
            Mix::A => self.volume_a,
            Mix::B => self.volume_b,
        }
    }

    /// What is shown of `target`.
    pub fn mute_state(&self, target: MuteTarget) -> (state: MuteState)
        ensures
            state == self@.mute(target),
    {
        match target {
            MuteTarget::TargetA => self.mute_a,
            MuteTarget::TargetB => self.mute_b,
        }
    }
}

impl From<SourceDevice> for ChannelRenderer {
    /// A renderer with the attributes of `value`.
    fn from(value: SourceDevice) -> (renderer: ChannelRenderer)
        ensures
            renderer@ == attributes_of(value),
            renderer.wf(),
            renderer.keeps_nothing(),
    {
        let mute_a = read_mute_state(&value, MuteTarget::TargetA);
        let mute_b = read_mute_state(&value, MuteTarget::TargetB);
        ChannelRenderer {
            title: value.description.name,
            colour: Rgba {
                red: value.description.colour.red,
                green: value.description.colour.green,
                blue: value.description.colour.blue,
                alpha: 255,
            },
            volume_a: clamped(value.volumes.mix_a),
            volume_b: clamped(value.volumes.mix_b),
            mute_a,
            mute_b,
            header: None,
            mute_box_a: None,
            mute_box_b: None,
            composite: None,
        }
    }
}

impl vstd::std_specs::convert::FromSpecImpl<SourceDevice> for ChannelRenderer {
    open spec fn obeys_from_spec() -> bool {
        true
    }

    closed spec fn from_spec(value: SourceDevice) -> ChannelRenderer {
        ChannelRenderer {
            title: value.description.name,
            colour: Rgba {
                red: value.description.colour.red,
                green: value.description.colour.green,
                blue: value.description.colour.blue,
                alpha: 255,
            },
            volume_a: clamp_volume(value.volumes.mix_a),
            volume_b: clamp_volume(value.volumes.mix_b),
            mute_a: mute_state_of(value, MuteTarget::TargetA),
            mute_b: mute_state_of(value, MuteTarget::TargetB),
            header: None,
            mute_box_a: None,
            mute_box_b: None,
            composite: None,
        }
    }
}

/// Takes over a fresh snapshot and says what changed.
pub trait UpdateFrom<T> {
    /// True when `self` can take a snapshot.
    spec fn ready(&self) -> bool;

    /// The attributes before or after.
    spec fn attributes(&self) -> ChannelAttributes;

    /// The attributes that a snapshot stands for.
    spec fn snapshot(value: T) -> ChannelAttributes;

    /// Takes over `value` and reports which fields changed.
    fn update_from(&mut self, value: T) -> (updates: Vec<ChannelChangedProperty>)
        requires
            old(self).ready(),
        ensures
            final(self).ready(),
            final(self).attributes() == Self::snapshot(value),
            updates@ == changed_properties(old(self).attributes(), Self::snapshot(value)),
    ;
}

impl UpdateFrom<SourceDevice> for ChannelRenderer {
    open spec fn ready(&self) -> bool {
        self.wf()
    }

    open spec fn attributes(&self) -> ChannelAttributes {
        self@
    }

    open spec fn snapshot(value: SourceDevice) -> ChannelAttributes {
        attributes_of(value)
    }

    fn update_from(&mut self, value: SourceDevice) -> (updates: Vec<ChannelChangedProperty>) {
        self.update_from_device(&value)
    }
}

/// Taking over the same snapshot twice keeps what the first time kept.
pub proof fn lemma_refreshed_twice(
    first: ChannelRenderer,
    second: ChannelRenderer,
    third: ChannelRenderer,
    new: ChannelAttributes,
)
    requires
        second.refreshed_from(first, new),
        third.refreshed_from(second, new),
    ensures
        third.refreshed_from(first, new),
{
    assert forall|target: MuteTarget|
        #[trigger] third.cached_mute_box(target) == if first@.colour != new.colour || first@.mute(
            target,
        ) != new.mute(target) {
            None
        } else {
            first.cached_mute_box(target)
        } by {
        assert(third.cached_mute_box(target) == second.cached_mute_box(target));
    }
}

/// A snapshot equal to the current attributes changes nothing.
pub proof fn lemma_same_snapshot_changes_nothing(current: ChannelAttributes)
    ensures
        changed_properties(current, current) =~= Seq::empty(),
{
}

/// A snapshot that differs from the current attributes in the volume of one
/// mix only reports exactly that volume.
pub proof fn lemma_volume_only_change(current: ChannelAttributes, new: ChannelAttributes, mix: Mix)
    requires
        new.title == current.title,
        new.colour == current.colour,
        new.mute_a == current.mute_a,
        new.mute_b == current.mute_b,
        new.volume(mix) != current.volume(mix),
        mix == Mix::A ==> new.volume_b == current.volume_b,
        mix == Mix::B ==> new.volume_a == current.volume_a,
    ensures
        changed_properties(current, new) =~= seq![ChannelChangedProperty::Volumes(mix)],
{
}

/// Appending `when(changed, property)` to a list without duplicates that does
/// not hold `property` gives a list without duplicates.
proof fn lemma_append_when(
    list: Seq<ChannelChangedProperty>,
    changed: bool,
    property: ChannelChangedProperty,
)
    requires
        list.no_duplicates(),
        changed ==> !list.contains(property),
    ensures
        (list + when(changed, property)).no_duplicates(),
        (list + when(changed, property)).len() == list.len() + if changed {
            1int
        } else {
            0int
        },
        forall|q: ChannelChangedProperty|
            #[trigger] (list + when(changed, property)).contains(q) <==> (list.contains(q) || (
            changed && q == property)),
{
    let out = list + when(changed, property);
    if changed {
        assert(out =~= list.push(property));
        assert forall|q: ChannelChangedProperty| out.contains(q) <==> (list.contains(q) || q
            == property) by {
            if out.contains(q) {
                let k = choose|k: int| 0 <= k < out.len() && out[k] == q;
                if k < list.len() {
                    assert(list[k] == q);
                }
            }
            if list.contains(q) {
                let k = choose|k: int| 0 <= k < list.len() && list[k] == q;
                assert(out[k] == q);
            }
            if q == property {
                assert(out[list.len() as int] == q);
            }
        }
        assert forall|i: int, j: int| 0 <= i < out.len() && 0 <= j < out.len() && i != j implies out[i]
            != out[j] by {
            if i < list.len() && j < list.len() {
            } else if i < list.len() {
                assert(list.contains(list[i]));
            } else if j < list.len() {
                assert(list.contains(list[j]));
            }
        }
    } else {
        assert(out =~= list);
    }
}

/// True when `current` and `new` differ in the field that `property` names.
pub open spec fn differs_in(
    current: ChannelAttributes,
    new: ChannelAttributes,
    property: ChannelChangedProperty,
) -> bool {
    match property {
        ChannelChangedProperty::Title => current.title != new.title,
        ChannelChangedProperty::Colour => current.colour != new.colour,
        ChannelChangedProperty::Volumes(mix) => current.volume(mix) != new.volume(mix),
        ChannelChangedProperty::MuteState(target) => current.mute(target) != new.mute(target),
    }
}

/// The change list names no field twice, and it names a field exactly when
/// the snapshot differs from the current attributes in it.
pub proof fn lemma_changes_are_exact(current: ChannelAttributes, new: ChannelAttributes)
    ensures
        changed_properties(current, new).no_duplicates(),
        forall|property: ChannelChangedProperty|
            #[trigger] changed_properties(current, new).contains(property) <==> differs_in(
                current,
                new,
                property,
            ),
{
    let active_a = current.mute_a.is_active != new.mute_a.is_active;
    let active_b = current.mute_b.is_active != new.mute_b.is_active;
    let routing_a = current.mute_a.is_mute_to_all != new.mute_a.is_mute_to_all;
    let routing_b = current.mute_b.is_mute_to_all != new.mute_b.is_mute_to_all;
    let target_a = ChannelChangedProperty::MuteState(MuteTarget::TargetA);
    let target_b = ChannelChangedProperty::MuteState(MuteTarget::TargetB);
    let s0 = Seq::<ChannelChangedProperty>::empty();
    let s1 = s0 + when(current.title != new.title, ChannelChangedProperty::Title);
    let s2 = s1 + when(current.colour != new.colour, ChannelChangedProperty::Colour);
    let s3 = s2 + when(current.volume_a != new.volume_a, ChannelChangedProperty::Volumes(Mix::A));
    let s4 = s3 + when(current.volume_b != new.volume_b, ChannelChangedProperty::Volumes(Mix::B));
    let s5 = s4 + when(active_a, target_a);
    let s6 = s5 + when(active_b, target_b);
    let s7 = s6 + when(routing_a && !active_a, target_a);
    let s8 = s7 + when(routing_b && !active_b, target_b);
    assert(s1 =~= when(current.title != new.title, ChannelChangedProperty::Title));
    assert(s8 == changed_properties(current, new));
    lemma_append_when(s0, current.title != new.title, ChannelChangedProperty::Title);
    lemma_append_when(s1, current.colour != new.colour, ChannelChangedProperty::Colour);
    lemma_append_when(s2, current.volume_a != new.volume_a, ChannelChangedProperty::Volumes(Mix::A));
    lemma_append_when(s3, current.volume_b != new.volume_b, ChannelChangedProperty::Volumes(Mix::B));
    lemma_append_when(s4, active_a, target_a);
    lemma_append_when(s5, active_b, target_b);
    lemma_append_when(s6, routing_a && !active_a, target_a);
    lemma_append_when(s7, routing_b && !active_b, target_b);
    assert forall|property: ChannelChangedProperty| #[trigger]
        s8.contains(property) <==> differs_in(current, new, property) by {
        assert(s8.contains(property) <==> s7.contains(property) || (routing_b && !active_b
            && property == target_b));
        assert(s7.contains(property) <==> s6.contains(property) || (routing_a && !active_a
            && property == target_a));
        assert(s6.contains(property) <==> s5.contains(property) || (active_b && property
            == target_b));
        assert(s5.contains(property) <==> s4.contains(property) || (active_a && property
            == target_a));
        assert(s4.contains(property) <==> s3.contains(property) || (current.volume_b
            != new.volume_b && property == ChannelChangedProperty::Volumes(Mix::B)));
        assert(s3.contains(property) <==> s2.contains(property) || (current.volume_a
            != new.volume_a && property == ChannelChangedProperty::Volumes(Mix::A)));
        assert(s2.contains(property) <==> s1.contains(property) || (current.colour != new.colour
            && property == ChannelChangedProperty::Colour));
        assert(s1.contains(property) <==> (current.title != new.title && property
            == ChannelChangedProperty::Title));
        match property {
            ChannelChangedProperty::Title => {},
            ChannelChangedProperty::Colour => {},
            ChannelChangedProperty::Volumes(mix) => {
                match mix {
                    Mix::A => {},
                    Mix::B => {},
                }
            },
            ChannelChangedProperty::MuteState(target) => {
                match target {
                    MuteTarget::TargetA => {},
                    MuteTarget::TargetB => {},
                }
            },
        }
    }
}

/// The change list is empty exactly when the snapshot equals the current
/// attributes.
pub proof fn lemma_no_change_iff_equal(current: ChannelAttributes, new: ChannelAttributes)
    ensures
        changed_properties(current, new).len() == 0 <==> current == new,
{
    if changed_properties(current, new).len() == 0 {
        assert(current.title =~= new.title);
    }
}

} // verus!
