//! The page that names the device, its serial number and its firmware.

use vstd::prelude::*;

verus! {

/// The "about" page.
#[derive(Debug, Clone, Copy, PartialEq, Eq, Structural)]
pub struct About {}

impl About {
    pub fn new() -> (page: About)
        ensures
            page == (About {  }),
    {
        About {  }
    }

    /// Name of the page's icon.
    pub fn icon(&self) -> (icon: &'static str)
        ensures
            icon@ == "gear"@,
    {
        "gear"
    }

    /// The page is hidden while the device is in an error state.
    pub fn show_on_error(&self) -> (shown: bool)
        ensures
            !shown,
    {
        false
    }

    /// This page needs no linked computer.
    pub fn is_link_page(&self) -> (link: bool)
        ensures
            !link,
    {
        false
    }
}

} // verus!
