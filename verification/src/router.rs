//! What an input event of the console leads to: requests to the daemon, a
//! change of mix or page, and what has to be drawn for it.
//!
//! A dial or a mute button changes nothing here.  The request goes to the
//! daemon, and the display follows when the daemon reports the new status.

use crate::channel::{Mix, MuteTarget, MAX_VOLUME};
use crate::device::{
    dial_slot, mix_colour, mute_button, other_mix, APICommand, ButtonLighting, ButtonState,
    Buttons, DaemonRequest, DeviceType, Dials, Interactions, WebsocketRequest,
};
use crate::paging::{get_page_channels, page_count, pages, visible_channels, CHANNEL_COUNT};
use crate::session::{
    draw, first_unknown, refresh_actions, shown_channels, spec_draw, DisplayPart,
    PipeweaverSession, SessionView, SyncAction, SyncError,
};
use crate::sources::SourceDevices;
use vstd::prelude::*;

verus! {

/// What the caller has to do after an input event: requests to send to the
/// daemon, then actions on the console, each list in order.
#[derive(Debug)]
pub struct Reaction {
    pub requests: Vec<WebsocketRequest>,
    pub actions: Vec<SyncAction>,
}

/// A reaction as mathematical values.
pub struct ReactionView {
    pub requests: Seq<WebsocketRequest>,
    pub actions: Seq<SyncAction>,
}

impl View for Reaction {
    type V = ReactionView;

    open spec fn view(&self) -> ReactionView {
        ReactionView { requests: self.requests@, actions: self.actions@ }
    }
}

/// Nothing to do.
pub open spec fn no_reaction() -> ReactionView {
    ReactionView { requests: Seq::empty(), actions: Seq::empty() }
}

/// `volume` moved by `change` and held between 0 and 100.
pub open spec fn moved_volume(volume: u8, change: i8) -> u8 {
    if volume + change < 0 {
        0
    } else if volume + change > MAX_VOLUME {
        MAX_VOLUME
    } else {
        (volume + change) as u8
    }
}

/// The number of the request after the one numbered `index`; after the
/// highest number the count starts again at 0.
pub open spec fn next_index(index: u64) -> u64 {
    if index == u64::MAX {
        0
    } else {
        (index + 1) as u64
    }
}

/// The request that a turn of `dial` by `change` leads to: the volume of the
/// active mix of the source at the dial's slot, moved by `change` and held
/// between 0 and 100.  `None` where the slot is empty.
pub open spec fn dial_request(session: SessionView, dial: Dials, change: i8) -> Option<
    WebsocketRequest,
> {
    let slot = dial_slot(dial) as int;
    if slot < session.devices_shown.len() {
        let id = session.devices_shown[slot];
        let volume = session.channels[id].volume(session.active_mix);
        Some(
            WebsocketRequest {
                id: session.command_index,
                data: DaemonRequest::Pipewire(
                    APICommand::SetSourceVolume(id, session.active_mix, moved_volume(volume, change)),
                ),
            },
        )
    } else {
        None
    }
}

/// The request that the mute button of `slot` for `target` leads to: the
/// target is taken from the source where its mute is active, and added
/// where it is not.  `None` where the slot is empty.
pub open spec fn mute_request(session: SessionView, slot: usize, target: MuteTarget) -> Option<
    WebsocketRequest,
> {
    if slot < session.devices_shown.len() {
        let id = session.devices_shown[slot as int];
        let command = if session.channels[id].mute(target).is_active {
            APICommand::DelSourceMuteTarget(id, target)
        } else {
            APICommand::AddSourceMuteTarget(id, target)
        };
        Some(WebsocketRequest { id: session.command_index, data: DaemonRequest::Pipewire(command) })
    } else {
        None
    }
}

/// The session after `request` was handed out, and the reaction that holds
/// it; nothing changes where there is no request.
pub open spec fn after_request(session: SessionView, request: Option<WebsocketRequest>) -> (
    SessionView,
    ReactionView,
) {
    match request {
        Some(r) => (
            SessionView { command_index: next_index(session.command_index), ..session },
            ReactionView { requests: seq![r], actions: Seq::empty() },
        ),
        None => (session, no_reaction()),
    }
}

/// The drawing of the dial of every slot from `from` up to `count`, for
/// `mix`.
pub open spec fn dial_actions(count: int, from: int, mix: Mix) -> Seq<SyncAction>
    decreases count - from,
{
    if from < 0 || from >= count {
        Seq::empty()
    } else {
        seq![spec_draw(DisplayPart::Volume(mix), from as usize)] + dial_actions(
            count,
            from + 1,
            mix,
        )
    }
}

/// The session after the active mix was swapped, and the reaction: the dial
/// of every visible channel is drawn for the mix now active, then the mix
/// light takes the colour of the other mix, the one that the button leads
/// to next.
pub open spec fn after_mix_toggle(session: SessionView) -> (SessionView, ReactionView) {
    let mix = other_mix(session.active_mix);
    (
        SessionView { active_mix: mix, ..session },
        ReactionView {
            requests: Seq::empty(),
            actions: dial_actions(session.devices_shown.len() as int, 0, mix) + seq![
                SyncAction::ButtonColour(ButtonLighting::Mix, mix_colour(other_mix(mix))),
            ],
        },
    )
}

/// The page that a page button leads to; `None` at either end, where the
/// button does nothing.
pub open spec fn turned_page(session: SessionView, sources: SourceDevices, right: bool) -> Option<
    u8,
> {
    if right {
        if session.page + 1 < pages(sources.device_order.pinned@, sources.device_order.default@)
            && session.page < u8::MAX {
            Some((session.page + 1) as u8)
        } else {
            None
        }
    } else {
        if session.page > 0 {
            Some((session.page - 1) as u8)
        } else {
            None
        }
    }
}

/// The outcome of a page button: nothing at either end; else the channels
/// of the new page are shown as any new set of channels is.
pub open spec fn after_page_turn(session: SessionView, sources: SourceDevices, right: bool) -> Result<
    (SessionView, ReactionView),
    SyncError,
> {
    match turned_page(session, sources, right) {
        None => Ok((session, no_reaction())),
        Some(page) => {
            let devices = visible_channels(
                sources.device_order.pinned@,
                sources.device_order.default@,
                page as int,
            );
            match first_unknown(devices, session.channels, sources, 0) {
                Some(id) => Err(SyncError::UnknownDevice(id)),
                None => {
                    let channels = shown_channels(devices, session.channels, sources);
                    Ok(
                        (
                            SessionView { page, devices_shown: devices, channels, ..session },
                            ReactionView {
                                requests: Seq::empty(),
                                actions: refresh_actions(devices, channels),
                            },
                        ),
                    )
                },
            }
        },
    }
}

/// The outcome of a button that came up.
pub open spec fn after_release(session: SessionView, sources: SourceDevices, button: Buttons) -> Result<
    (SessionView, ReactionView),
    SyncError,
> {
    match button {
        Buttons::AudienceMix => Ok(after_mix_toggle(session)),
        Buttons::PageLeft => after_page_turn(session, sources, false),
        Buttons::PageRight => after_page_turn(session, sources, true),
        _ => {
            let (slot, target) = mute_button(button)->0;
            Ok(after_request(session, mute_request(session, slot, target)))
        },
    }
}

/// The outcome of an input event: the session afterwards and what the
/// caller has to do, or why the event cannot be handled.
///
/// A mix console has dials only: its buttons do nothing.  On a mix create
/// console a button acts when it comes up.  Any other device has no business
/// sending input.
pub open spec fn after_interaction(
    session: SessionView,
    sources: SourceDevices,
    event: Interactions,
) -> Result<(SessionView, ReactionView), SyncError> {
    match session.device_type {
        DeviceType::BeacnMix => match event {
            Interactions::ButtonPress(_, _) => Ok((session, no_reaction())),
            Interactions::DialChanged(dial, change) => Ok(
                after_request(session, dial_request(session, dial, change)),
            ),
        },
        DeviceType::BeacnMixCreate => match event {
            Interactions::ButtonPress(button, ButtonState::Release) => after_release(
                session,
                sources,
                button,
            ),
            Interactions::ButtonPress(_, ButtonState::Press) => Ok((session, no_reaction())),
            Interactions::DialChanged(dial, change) => Ok(
                after_request(session, dial_request(session, dial, change)),
            ),
        },
        _ => Err(SyncError::InvalidDevice),
    }
}

/// True when `event` turns the page: a page button of a mix create console
/// comes up, and there is a page to turn to.
pub open spec fn turns_page(session: SessionView, sources: SourceDevices, event: Interactions) -> bool {
    session.device_type == DeviceType::BeacnMixCreate && match event {
        Interactions::ButtonPress(Buttons::PageLeft, ButtonState::Release) => turned_page(
            session,
            sources,
            false,
        ) is Some,
        Interactions::ButtonPress(Buttons::PageRight, ButtonState::Release) => turned_page(
            session,
            sources,
            true,
        ) is Some,
        _ => false,
    }
}

/// The volume that a dial asks for is never above 100.
pub proof fn lemma_moved_volume_in_range(volume: u8, change: i8)
    ensures
        moved_volume(volume, change) <= MAX_VOLUME,
        0 <= volume + change <= MAX_VOLUME ==> moved_volume(volume, change) == volume + change,
{
}

/// `volume` moved by `change` and held between 0 and 100.
pub fn move_volume(volume: u8, change: i8) -> (moved: u8)
    ensures
        moved == moved_volume(volume, change),
        moved <= MAX_VOLUME,
{
    let sum: i16 = volume as i16 + change as i16;
    if sum < 0 {
        0
    } else if sum > MAX_VOLUME as i16 {
        MAX_VOLUME
    } else {
        sum as u8
    }
}

impl PipeweaverSession {
    /// The reaction to a turn of `dial` by `change`.
    fn turn_dial(&mut self, dial: Dials, change: i8) -> (reaction: Reaction)
        requires
            old(self).wf(),
        ensures
            final(self).wf(),
            (final(self)@, reaction@) == after_request(
                old(self)@,
                dial_request(old(self)@, dial, change),
            ),
            forall|id: u128| #[trigger] final(self).kept(id) == old(self).kept(id),
    {
        proof {
            self.lemma_wf();
        }
        let slot = dial_slot(dial);
        let mut requests: Vec<WebsocketRequest> = Vec::new();
        if slot < self.devices_shown().len() {
            let id = self.devices_shown()[slot];
            assert(self@.devices_shown.contains(self@.devices_shown[slot as int]));
            let mix = self.active_mix();
            match self.renderer(id) {
                Some(renderer) => {
                    let volume = move_volume(renderer.volume(mix), change);
                    let index = self.take_index();
                    requests.push(
                        WebsocketRequest {
                            id: index,
                            data: DaemonRequest::Pipewire(
                                APICommand::SetSourceVolume(id, mix, volume),
                            ),
                        },
                    );
                    assert(requests@ =~= seq![dial_request(old(self)@, dial, change)->0]);
                },
                None => {
                    assert(false);
                },
            }
        }
        Reaction { requests, actions: Vec::new() }
    }

    /// The reaction to the mute button of `slot` for `target`.
    fn toggle_mute(&mut self, slot: usize, target: MuteTarget) -> (reaction: Reaction)
        requires
            old(self).wf(),
        ensures
            final(self).wf(),
            (final(self)@, reaction@) == after_request(
                old(self)@,
                mute_request(old(self)@, slot, target),
            ),
            forall|id: u128| #[trigger] final(self).kept(id) == old(self).kept(id),
    {
        proof {
            self.lemma_wf();
        }
        let mut requests: Vec<WebsocketRequest> = Vec::new();
        if slot < self.devices_shown().len() {
            let id = self.devices_shown()[slot];
            assert(self@.devices_shown.contains(self@.devices_shown[slot as int]));
            match self.renderer(id) {
                Some(renderer) => {
                    let command = if renderer.mute_state(target).is_active {
                        APICommand::DelSourceMuteTarget(id, target)
                    } else {
                        APICommand::AddSourceMuteTarget(id, target)
                    };
                    let index = self.take_index();
                    requests.push(
                        WebsocketRequest { id: index, data: DaemonRequest::Pipewire(command) },
                    );
                    assert(requests@ =~= seq![mute_request(old(self)@, slot, target)->0]);
                },
                None => {
                    assert(false);
                },
            }
        }
        Reaction { requests, actions: Vec::new() }
    }

    /// Swaps the active mix.
    fn toggle_mix(&mut self) -> (reaction: Reaction)
        requires
            old(self).wf(),
        ensures
            final(self).wf(),
            (final(self)@, reaction@) == after_mix_toggle(old(self)@),
            forall|id: u128| #[trigger] final(self).kept(id) == old(self).kept(id),
    {
        proof {
            self.lemma_wf();
        }
        let mix = other_mix(self.active_mix());
        self.set_active_mix(mix);
        let count = self.devices_shown().len();
        let mut actions: Vec<SyncAction> = Vec::new();
        let mut slot: usize = 0;
        while slot < count
            invariant
                slot <= count,
                count <= CHANNEL_COUNT,
                actions@ + dial_actions(count as int, slot as int, mix) == dial_actions(
                    count as int,
                    0,
                    mix,
                ),
            decreases count - slot,
        {
            let ghost before = actions@;
            actions.push(draw(DisplayPart::Volume(mix), slot));
            assert(actions@ + dial_actions(count as int, slot + 1, mix) =~= before + dial_actions(
                count as int,
                slot as int,
                mix,
            ));
            slot += 1;
        }
        let ghost drawn = actions@;
        assert(drawn + dial_actions(count as int, count as int, mix) =~= drawn);
        actions.push(SyncAction::ButtonColour(ButtonLighting::Mix, mix_colour(other_mix(mix))));
        assert(actions@ =~= after_mix_toggle(old(self)@).1.actions);
        Reaction { requests: Vec::new(), actions }
    }

    /// Turns the page to the right or to the left.
    fn turn_page(&mut self, sources: &SourceDevices, right: bool) -> (result: Result<
        Reaction,
        SyncError,
    >)
        requires
            old(self).wf(),
        ensures
            final(self).wf(),
            match after_page_turn(old(self)@, *sources, right) {
                Ok((session, reaction)) => result matches Ok(r) && r@ == reaction && final(self)@
                    == session,
                Err(error) => result == Err::<Reaction, SyncError>(error) && final(self)@ == old(
                    self,
                )@,
            },
            if result is Ok && turned_page(old(self)@, *sources, right) is Some {
                forall|id: u128|
                    final(self)@.devices_shown.contains(id) ==> (#[trigger] final(self).kept(
                        id,
                    )).keeps_nothing()
            } else {
                forall|id: u128| #[trigger] final(self).kept(id) == old(self).kept(id)
            },
    {
        let page = self.page();
        let target: u8 = if right {
            if page < u8::MAX && (page as usize) + 1 < page_count(&sources.device_order) {
                page + 1
            } else {
                return Ok(Reaction { requests: Vec::new(), actions: Vec::new() });
            }
        } else {
            if page > 0 {
                page - 1
            } else {
                return Ok(Reaction { requests: Vec::new(), actions: Vec::new() });
            }
        };
        let devices = get_page_channels(&sources.device_order, target);
        match self.show_devices(devices, sources) {
            Ok(actions) => {
                self.set_page(target);
                Ok(Reaction { requests: Vec::new(), actions })
            },
            Err(error) => Err(error),
        }
    }

    /// Handles an input event of the console: changes mix or page where the
    /// event asks for it, and returns what the caller has to send and draw.
    /// Fails, and changes nothing, where the device is no console or a new
    /// page names a source that the daemon does not report.  A page that is
    /// turned to starts without pictures kept; any other event leaves the
    /// pictures kept as they are.
    pub fn handle_interaction(&mut self, sources: &SourceDevices, event: Interactions) -> (result:
        Result<Reaction, SyncError>)
        requires
            old(self).wf(),
        ensures
            final(self).wf(),
            match after_interaction(old(self)@, *sources, event) {
                Ok((session, reaction)) => result matches Ok(r) && r@ == reaction && final(self)@
                    == session,
                Err(error) => result == Err::<Reaction, SyncError>(error) && final(self)@ == old(
                    self,
                )@,
            },
            if result is Ok && turns_page(old(self)@, *sources, event) {
                forall|id: u128|
                    final(self)@.devices_shown.contains(id) ==> (#[trigger] final(self).kept(
                        id,
                    )).keeps_nothing()
            } else {
                forall|id: u128| #[trigger] final(self).kept(id) == old(self).kept(id)
            },
    {
        let nothing = Reaction { requests: Vec::new(), actions: Vec::new() };
        match self.device_type() {
            DeviceType::BeacnMix => match event {
                Interactions::ButtonPress(_, _) => Ok(nothing),
                Interactions::DialChanged(dial, change) => Ok(self.turn_dial(dial, change)),
            },
            DeviceType::BeacnMixCreate => match event {
                Interactions::ButtonPress(button, ButtonState::Release) => match button {
                    Buttons::AudienceMix => Ok(self.toggle_mix()),
                    Buttons::PageLeft => self.turn_page(sources, false),
                    Buttons::PageRight => self.turn_page(sources, true),
                    _ => match mute_button(button) {
                        Some((slot, target)) => Ok(self.toggle_mute(slot, target)),
                        None => Ok(nothing),
                    },
                },
                Interactions::ButtonPress(_, ButtonState::Press) => Ok(nothing),
                Interactions::DialChanged(dial, change) => Ok(self.turn_dial(dial, change)),
            },
            _ => Err(SyncError::InvalidDevice),
        }
    }
}

} // verus!
