//! The page that routes the applications of a linked computer to channels.

use vstd::prelude::*;

verus! {

/// A channel that an application of the linked computer can play on.
#[derive(Debug, Clone, Copy, PartialEq, Eq, Structural)]
pub enum LinkChannel {
    System,
    Link1,
    Link2,
    Link3,
    Link4,
}

/// The link page.
#[derive(Debug, Clone, Copy, PartialEq, Eq, Structural)]
pub struct Linked {}

impl Linked {
    pub fn new() -> (page: Linked)
        ensures
            page == (Linked {  }),
    {
        Linked {  }
    }

    /// Name of the page's icon.
    pub fn icon(&self) -> (icon: &'static str)
        ensures
            icon@ == "left_right"@,
    {
        "left_right"
    }

    /// The page is hidden while the device is in an error state.
    pub fn show_on_error(&self) -> (shown: bool)
        ensures
            !shown,
    {
        false
    }

    /// This is the page that needs a linked computer.
    pub fn is_link_page(&self) -> (link: bool)
        ensures
            link,
    {
        true
    }

    /// The name under which `channel` is offered.
    pub fn display_name(&self, channel: LinkChannel) -> (name: &'static str)
        ensures
            name@ == match channel {
                LinkChannel::System => "System"@,
                LinkChannel::Link1 => "Link 1"@,
                LinkChannel::Link2 => "Link 2"@,
                LinkChannel::Link3 => "Link 3"@,
                LinkChannel::Link4 => "Link 4"@,
            },
    {
        match channel {
            LinkChannel::System => "System",
            LinkChannel::Link1 => "Link 1",
            LinkChannel::Link2 => "Link 2",
            LinkChannel::Link3 => "Link 3",
            LinkChannel::Link4 => "Link 4",
        }
    }
}

} // verus!
