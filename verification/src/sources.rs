//! The sources that the daemon reports, and the renderers kept for the ones
//! on display.

use crate::channel::{attributes_of, ChannelAttributes, ChannelRenderer, SourceDevice};
use crate::paging::DeviceOrder;
use std::collections::HashMap;
use vstd::prelude::*;

verus! {

broadcast use vstd::std_specs::hash::group_hash_axioms;

/// The part of the daemon's status that the display depends on: the order of
/// the sources and the sources themselves.
#[derive(Debug, Clone)]
pub struct SourceDevices {
    pub device_order: DeviceOrder,
    pub physical_devices: Vec<SourceDevice>,
    pub virtual_devices: Vec<SourceDevice>,
}

/// The first of `devices` from place `from` on that has the identifier `id`.
pub open spec fn find_from(devices: Seq<SourceDevice>, id: u128, from: int) -> Option<SourceDevice>
    decreases devices.len() - from,
{
    if from < 0 || from >= devices.len() {
        None
    } else if devices[from].description.id == id {
        Some(devices[from])
    } else {
        find_from(devices, id, from + 1)
    }
}

/// The source with the identifier `id`: the first physical one, or else the
/// first virtual one.
pub open spec fn device_ref(sources: SourceDevices, id: u128) -> Option<SourceDevice> {
    match find_from(sources.physical_devices@, id, 0) {
        Some(device) => Some(device),
        None => find_from(sources.virtual_devices@, id, 0),
    }
}

/// The first of `devices` that has the identifier `id`.
fn find_device<'a>(devices: &'a Vec<SourceDevice>, id: u128) -> (found: Option<&'a SourceDevice>)
    ensures
        match found {
            Some(device) => find_from(devices@, id, 0) == Some(*device),
            None => find_from(devices@, id, 0) is None,
        },
{
    let mut i: usize = 0;
    while i < devices.len()
        invariant
            i <= devices.len(),
            find_from(devices@, id, 0) == find_from(devices@, id, i as int),
        decreases devices.len() - i,
    {
        if devices[i].description.id == id {
            return Some(&devices[i]);
        }
        i += 1;
    }
    None
}

/// The source with the identifier `id`, physical before virtual.
pub fn get_device_ref<'a>(id: u128, sources: &'a SourceDevices) -> (found: Option<&'a SourceDevice>)
    ensures
        match found {
            Some(device) => device_ref(*sources, id) == Some(*device),
            None => device_ref(*sources, id) is None,
        },
{
    match find_device(&sources.physical_devices, id) {
        Some(device) => Some(device),
        None => find_device(&sources.virtual_devices, id),
    }
}

/// A renderer for the source with the identifier `id`; `None` where the
/// daemon reports no such source.
pub fn get_channel_renderers(id: u128, sources: &SourceDevices) -> (renderer: Option<
    ChannelRenderer,
>)
    ensures
        match renderer {
            Some(r) => device_ref(*sources, id) matches Some(device) && r@ == attributes_of(device)
                && r.wf() && r.keeps_nothing(),
            None => device_ref(*sources, id) is None,
        },
{
    match get_device_ref(id, sources) {
        Some(device) => Some(ChannelRenderer::from_source_device(device)),
        None => None,
    }
}

/// The renderers of the channels on display, by source identifier.
pub struct Renderers {
    map: HashMap<u128, ChannelRenderer>,
}

impl View for Renderers {
    type V = Map<u128, ChannelAttributes>;

    closed spec fn view(&self) -> Map<u128, ChannelAttributes> {
        Map::new(|id: u128| self.map@.contains_key(id), |id: u128| self.map@[id]@)
    }
}

impl Renderers {
    /// Every renderer kept is well formed.
    pub closed spec fn wf(&self) -> bool {
        forall|id: u128| self.map@.contains_key(id) ==> (#[trigger] self.map@[id]).wf()
    }

    /// The renderer kept for `id`, with the pictures it keeps.
    pub closed spec fn kept(&self, id: u128) -> ChannelRenderer {
        self.map@[id]
    }

    /// No renderers.
    pub fn new() -> (renderers: Renderers)
        ensures
            renderers.wf(),
            renderers@ == Map::<u128, ChannelAttributes>::empty(),
    {
        let renderers = Renderers { map: HashMap::new() };
        assert(renderers@ =~= Map::<u128, ChannelAttributes>::empty());
        renderers
    }

    /// True when a renderer is kept for `id`.
    pub fn contains_key(&self, id: u128) -> (found: bool)
        ensures
            found == self@.contains_key(id),
    {
        self.map.contains_key(&id)
    }

    /// The renderer kept for `id`.
    pub fn get(&self, id: u128) -> (renderer: Option<&ChannelRenderer>)
        requires
            self.wf(),
        ensures
            renderer is Some <==> self@.contains_key(id),
            renderer matches Some(r) ==> r@ == self@[id] && r.wf() && *r == self.kept(id),
    {
        self.map.get(&id)
    }

    /// Keeps `renderer` for `id`, in place of the one kept before.
    pub fn insert(&mut self, id: u128, renderer: ChannelRenderer)
        requires
            old(self).wf(),
            renderer.wf(),
        ensures
            final(self).wf(),
            final(self)@ == old(self)@.insert(id, renderer@),
            final(self).kept(id) == renderer,
            forall|other: u128| other != id ==> #[trigger] final(self).kept(other) == old(self).kept(other),
    {
        self.map.insert(id, renderer);
        assert(self@ =~= old(self)@.insert(id, renderer@));
    }

    /// Takes the renderer kept for `id` out.
    pub fn remove(&mut self, id: u128) -> (renderer: Option<ChannelRenderer>)
        requires
            old(self).wf(),
        ensures
            final(self).wf(),
            final(self)@ == old(self)@.remove(id),
            renderer is Some <==> old(self)@.contains_key(id),
            renderer matches Some(r) ==> r@ == old(self)@[id] && r.wf() && r == old(self).kept(id),
            forall|other: u128| other != id ==> #[trigger] final(self).kept(other) == old(self).kept(other),
    {
        let renderer = self.map.remove(&id);
        assert(self@ =~= old(self)@.remove(id));
        renderer
    }
}

} // verus!
