//! The units in which a wheel tells how far it turned.

use vstd::prelude::*;

verus! {

/// The granularity of one scroll event.
#[derive(Clone, Copy, Debug, PartialEq, Eq, Structural)]
pub enum ScrollUnit {
    /// Whole lines: the unit in which a frame's scrolling is totalled.
    Line,
    /// Pixels: ten of them count as one line.
    Pixel,
}

impl ScrollUnit {
    /// How many events of amount one in this granularity add up to one line.
    pub open spec fn spec_per_line(self) -> nat {
        match self {
            ScrollUnit::Line => 1,
            ScrollUnit::Pixel => 10,
        }
    }

    /// How many events of amount one in this granularity add up to one line:
    /// an amount divided by this number is the same amount in lines.
    pub fn per_line(self) -> (n: u32)
        ensures
            n == self.spec_per_line(),
            n >= 1,
    {
        match self {
            ScrollUnit::Line => 1,
            ScrollUnit::Pixel => 10,
        }
    }
}

} // verus!
