//! Binary output lines.

use vstd::prelude::*;

verus! {

/// A binary output line that its owner sets high or low.
///
/// The contract is a demand on every implementation: once a level has been
/// written, the line is at that level until it is written again. A write does
/// not fail; an implementation that cannot carry one out does not return.
pub trait OutputLine {
    /// Whether the line is at its high level.
    spec fn is_high(&self) -> bool;

    fn set_high(&mut self)
        ensures
            final(self).is_high(),
    ;

    fn set_low(&mut self)
        ensures
            !final(self).is_high(),
    ;
}

/// A line that records the level last written to it.
#[derive(Clone, Copy, Debug, PartialEq, Eq, Structural)]
pub struct Line {
    pub high: bool,
}

impl Line {
    /// A line at its low level.
    pub fn new() -> (line: Line)
        ensures
            !line.high,
    {
        Line { high: false }
    }
}

impl OutputLine for Line {
    open spec fn is_high(&self) -> bool {
        self.high
    }

    fn set_high(&mut self) {
        self.high = true;
    }

    fn set_low(&mut self) {
        self.high = false;
    }
}

} // verus!
