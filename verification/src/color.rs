//! Colours as plain numbers, for whoever paints them.

use vstd::prelude::*;

verus! {

/// An opaque colour.
#[derive(Debug, Clone, Copy, PartialEq, Eq, Hash, Structural)]
pub struct Rgb {
    pub r: u8,
    pub g: u8,
    pub b: u8,
}

impl Rgb {
    pub open spec fn of(r: u8, g: u8, b: u8) -> Rgb {
        Rgb { r, g, b }
    }

    pub fn new(r: u8, g: u8, b: u8) -> (c: Rgb)
        ensures
            c == Rgb::of(r, g, b),
    {
        Rgb { r, g, b }
    }

    /// How much light the colour gives, as the sum of its three channels.
    pub open spec fn light(self) -> int {
        self.r + self.g + self.b
    }
}

/// A colour laid on at `percent` of its strength.
#[derive(Debug, Clone, Copy, PartialEq, Eq, Structural)]
pub struct Ink {
    pub color: Rgb,
    pub percent: u8,
}

impl Ink {
    pub open spec fn of(r: u8, g: u8, b: u8, percent: u8) -> Ink {
        Ink { color: Rgb::of(r, g, b), percent }
    }

    pub fn new(r: u8, g: u8, b: u8, percent: u8) -> (i: Ink)
        ensures
            i == Ink::of(r, g, b, percent),
    {
        Ink { color: Rgb::new(r, g, b), percent }
    }
}

} // verus!
