//! The clear-color cycle: a counter modulo four selecting the solid color the
//! next frame is cleared to.

use vstd::prelude::*;

verus! {

/// Number of colors in the clear-color cycle.
pub const COLOR_CYCLE_LEN: u32 = 4;

/// A solid clear color. The cycle runs red, green, blue, magenta, and repeats.
#[derive(Clone, Copy, Debug, PartialEq, Eq, Structural)]
pub enum ClearColor {
    Red,
    Green,
    Blue,
    Magenta,
}

/// The color drawn for a given cycle index: red, green, blue for indices
/// 0, 1, 2 and magenta for every other value.
pub open spec fn color_of_index(i: u32) -> ClearColor {
    if i == 0 {
        ClearColor::Red
    } else if i == 1 {
        ClearColor::Green
    } else if i == 2 {
        ClearColor::Blue
    } else {
        ClearColor::Magenta
    }
}

/// The cycle index after one drawn frame.
pub open spec fn next_index(i: u32) -> u32 {
    (((i as int) + 1) % (COLOR_CYCLE_LEN as int)) as u32
}

impl ClearColor {
    /// The color's channels (red, green, blue, alpha), each 0 or 1:
    /// full intensity is 1.
    pub open spec fn spec_rgba(self) -> (u8, u8, u8, u8) {
        match self {
            ClearColor::Red => (1, 0, 0, 1),
            ClearColor::Green => (0, 1, 0, 1),
            ClearColor::Blue => (0, 0, 1, 1),
            ClearColor::Magenta => (1, 0, 1, 1),
        }
    }

    /// Returns the color's channels (red, green, blue, alpha), each 0 or 1.
    pub fn rgba(self) -> (channels: (u8, u8, u8, u8))
        ensures
            channels == self.spec_rgba(),
    {
        match self {
            ClearColor::Red => (1, 0, 0, 1),
            ClearColor::Green => (0, 1, 0, 1),
            ClearColor::Blue => (0, 0, 1, 1),
            ClearColor::Magenta => (1, 0, 1, 1),
        }
    }
}

/// Returns the clear color selected by a cycle index.
pub fn clear_color(i: u32) -> (c: ClearColor)
    ensures
        c == color_of_index(i),
{
    if i == 0 {
        ClearColor::Red
    } else if i == 1 {
        ClearColor::Green
    } else if i == 2 {
        ClearColor::Blue
    } else {
        ClearColor::Magenta
    }
}

} // verus!
