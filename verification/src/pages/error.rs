//! The page that lists what went wrong with the device.

use vstd::prelude::*;

verus! {

/// The error page.
#[derive(Debug, Clone, Copy, PartialEq, Eq, Structural)]
pub struct ErrorPage {}

impl ErrorPage {
    pub fn new() -> (page: ErrorPage)
        ensures
            page == (ErrorPage {  }),
    {
        ErrorPage {  }
    }

    /// Name of the page's icon.
    pub fn icon(&self) -> (icon: &'static str)
        ensures
            icon@ == "error"@,
    {
        "error"
    }

    /// The page is shown while the device is in an error state.
    pub fn show_on_error(&self) -> (shown: bool)
        ensures
            shown,
    {
        true
    }

    /// This page needs no linked computer.
    pub fn is_link_page(&self) -> (link: bool)
        ensures
            !link,
    {
        false
    }
}

} // verus!
