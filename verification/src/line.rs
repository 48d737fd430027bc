//! One binary output line.

use vstd::prelude::*;

verus! {

/// An output line that is either high or low. A segment is lit while its line
/// is high.
#[derive(Clone, Copy, Debug, PartialEq, Eq, Structural)]
pub struct Line {
    high: bool,
}

impl Line {
    /// Whether the line is high.
    pub closed spec fn is_high(self) -> bool {
        self.high
    }

    /// A line that is low, as an output is when it is first configured.
    pub fn new() -> (line: Line)
        ensures
            !line.is_high(),
    {
        Line { high: false }
    }

    /// Drives the line high.
    pub fn set_high(&mut self)
        ensures
            final(self).is_high(),
    {
        self.high = true;
    }

    /// Drives the line low.
    pub fn set_low(&mut self)
        ensures
            !final(self).is_high(),
    {
        self.high = false;
    }

    /// Reads back the level that the line is driven to.
    pub fn is_set_high(&self) -> (high: bool)
        ensures
            high == self.is_high(),
    {
        self.high
    }
}

} // verus!
