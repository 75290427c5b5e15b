//! Colours, in whole numbers.

use vstd::prelude::*;

verus! {

/// A colour by its red, green and blue channel. A channel counts in
/// hundredths of the intensity that a display shows as full, so 100 is full
/// and anything above it is brighter than the display's white.
#[derive(Clone, Copy, PartialEq, Eq, Hash, Debug, Structural)]
pub struct Rgb {
    pub red: u16,
    pub green: u16,
    pub blue: u16,
}

impl Rgb {
    /// The colour with the given channels.
    pub fn new(red: u16, green: u16, blue: u16) -> (color: Rgb)
        ensures
            color == (Rgb { red, green, blue }),
    {
        Rgb { red, green, blue }
    }

    /// Whether a channel goes beyond what a display shows as full. Only such
    /// a colour is left over once the bloom has cut off the ordinary range,
    /// so only such a colour glows.
    pub open spec fn glows(self) -> bool {
        self.red > 100 || self.green > 100 || self.blue > 100
    }
}

} // verus!
