//! Colours as plain numbers.
use vstd::prelude::*;

verus! {

/// An sRGB colour whose channels are given in thousandths (0 to 1000).
#[derive(Clone, Copy, PartialEq, Eq, Structural, Debug)]
pub struct Rgb {
    pub r: u16,
    pub g: u16,
    pub b: u16,
}

impl Rgb {
    /// All three channels lie in 0..=1000.
    pub open spec fn valid(self) -> bool {
        self.r <= 1000 && self.g <= 1000 && self.b <= 1000
    }

    /// The colour with the given channels.
    pub fn new(r: u16, g: u16, b: u16) -> (c: Rgb)
        ensures
            c == (Rgb { r, g, b }),
    {
        Rgb { r, g, b }
    }
}

} // verus!
