//! Colours as four 8-bit channels.

use vstd::prelude::*;

verus! {

/// A colour with an alpha channel; 255 is opaque.
#[derive(Debug, Clone, Copy, PartialEq, Eq, Structural)]
pub struct Rgba {
    pub red: u8,
    pub green: u8,
    pub blue: u8,
    pub alpha: u8,
}

impl Rgba {
    pub fn new(red: u8, green: u8, blue: u8, alpha: u8) -> (colour: Rgba)
        ensures
            colour == (Rgba { red, green, blue, alpha }),
    {
        Rgba { red, green, blue, alpha }
    }

    /// The same colour with another alpha.
    pub open spec fn spec_with_alpha(self, alpha: u8) -> Rgba {
        Rgba { red: self.red, green: self.green, blue: self.blue, alpha }
    }

    /// The same colour with another alpha.
    #[verifier::when_used_as_spec(spec_with_alpha)]
    pub fn with_alpha(self, alpha: u8) -> (colour: Rgba)
        ensures
            colour == self.spec_with_alpha(alpha),
    {
        Rgba { red: self.red, green: self.green, blue: self.blue, alpha }
    }
}

/// A colour without alpha.
#[derive(Debug, Clone, Copy, PartialEq, Eq, Structural)]
pub struct Rgb {
    pub red: u8,
    pub green: u8,
    pub blue: u8,
}

} // verus!
