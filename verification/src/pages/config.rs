//! The pages that configure the effects of a microphone, one for each
//! effect.

use vstd::prelude::*;

verus! {

/// The page of the compressor.
#[derive(Debug, Clone, Copy, PartialEq, Eq, Structural)]
pub struct CompressorPage;

impl CompressorPage {
    /// The heading of the page.
    pub fn title(&self) -> (title: &'static str)
        ensures
            title@ == "Compressor"@,
    {
        "Compressor"
    }
}

/// The page of the expander.
#[derive(Debug, Clone, Copy, PartialEq, Eq, Structural)]
pub struct ExpanderPage;

impl ExpanderPage {
    /// The heading of the page.
    pub fn title(&self) -> (title: &'static str)
        ensures
            title@ == "Expander"@,
    {
        "Expander"
    }
}

/// The page of the headphones.
#[derive(Debug, Clone, Copy, PartialEq, Eq, Structural)]
pub struct HeadphonesPage;

impl HeadphonesPage {
    /// The heading of the page.
    pub fn title(&self) -> (title: &'static str)
        ensures
            title@ == "Headphones"@,
    {
        "Headphones"
    }
}

/// The page of the input stage.
#[derive(Debug, Clone, Copy, PartialEq, Eq, Structural)]
pub struct MicSetupPage;

impl MicSetupPage {
    /// The heading of the page.
    pub fn title(&self) -> (title: &'static str)
        ensures
            title@ == "Mic Setup"@,
    {
        "Mic Setup"
    }
}

/// The page of the noise suppressor.
#[derive(Debug, Clone, Copy, PartialEq, Eq, Structural)]
pub struct NoiseSuppressionPage;

impl NoiseSuppressionPage {
    /// The heading of the page.
    pub fn title(&self) -> (title: &'static str)
        ensures
            title@ == "Noise Suppression"@,
    {
        "Noise Suppression"
    }
}

} // verus!
