//! The page that sets the lights of a microphone.

use vstd::prelude::*;

verus! {

/// The lighting page.
#[derive(Debug, Clone, Copy, PartialEq, Eq, Structural)]
pub struct LightingPage {}

impl LightingPage {
    pub fn new() -> (page: LightingPage)
        ensures
            page == (LightingPage {  }),
    {
        LightingPage {  }
    }

    /// Name of the page's icon.
    pub fn icon(&self) -> (icon: &'static str)
        ensures
            icon@ == "bulb"@,
    {
        "bulb"
    }

    /// The page is hidden while the device is in an error state.
    pub fn show_on_error(&self) -> (shown: bool)
        ensures
            !shown,
    {
        false
    }

    /// This page needs no linked computer.
    pub fn is_link_page(&self) -> (link: bool)
        ensures
            !link,
    {
        false
    }
}

} // verus!
