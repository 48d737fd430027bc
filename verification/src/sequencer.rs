//! The counting loop: which digit is shown at each tick, and what one tick
//! asks of the hardware.

use vstd::prelude::*;
use crate::console::{displaying_line, displaying_text};
use crate::display::NumberDisplay;
use crate::segment::{dark, glyph, is_digit, Segments};

verus! {

/// How long each digit stays on the display, in milliseconds.
pub const TICK_MS: u16 = 1000;

/// The digit that follows `d` in the count, 0 after 9.
pub open spec fn next_digit(d: int) -> int {
    (d + 1) % 10
}

/// The digit that the counter holds `ticks` ticks after it held `d`.
pub open spec fn digit_after(d: int, ticks: nat) -> int
    decreases ticks,
{
    if ticks == 0 {
        d
    } else {
        next_digit(digit_after(d, (ticks - 1) as nat))
    }
}

/// One thing that a tick asks of the hardware.
#[derive(Clone, Debug, PartialEq, Eq)]
pub enum Action {
    /// Write this line to the console.
    Log(String),
    /// Drive the seven lines to these levels.
    Drive(Segments),
    /// Wait this many milliseconds.
    Wait(u16),
}

/// The counting loop's state: the display and the digit that the next tick
/// shows.
pub struct DisplayLoop {
    display: NumberDisplay,
    current_digit: i8,
}

impl DisplayLoop {
    #[verifier::type_invariant]
    spec fn counter_is_digit(self) -> bool {
        is_digit(self.current_digit as int)
    }

    /// The digit that the next tick shows.
    pub closed spec fn digit(self) -> int {
        self.current_digit as int
    }

    /// The levels of the display's lines, in the order A to G.
    pub closed spec fn shown(self) -> Seq<bool> {
        self.display@
    }

    /// A loop about to show 0, around a display with all lines low.
    pub fn new() -> (state: DisplayLoop)
        ensures
            state.digit() == 0,
            state.shown() == dark(),
    {
        DisplayLoop { display: NumberDisplay::new(), current_digit: 0 }
    }

    /// The digit that the next tick shows; it is always one of 0 to 9.
    pub fn current_digit(&self) -> (digit: i8)
        ensures
            digit == self.digit(),
            is_digit(digit as int),
    {
        proof {
            use_type_invariant(self);
        }
        self.current_digit
    }

    /// The display as the last tick left it.
    pub fn display(&self) -> (display: &NumberDisplay)
        ensures
            display@ == self.shown(),
    {
        &self.display
    }

    /// Runs one tick: announces the current digit, draws it, and moves the
    /// counter on to the next digit, from 9 back to 0. The result lists what
    /// the caller carries out, in this order, before the next tick: the line
    /// to log, the levels to drive the lines to, and the wait.
    pub fn tick(&mut self) -> (actions: [Action; 3])
        ensures
            is_digit(old(self).digit()),
            actions[0] matches Action::Log(line) && line@ == displaying_text(old(self).digit()),
            actions[1] matches Action::Drive(segments) && segments@ == glyph(old(self).digit()),
            actions[2] == Action::Wait(TICK_MS),
            final(self).shown() == glyph(old(self).digit()),
            final(self).digit() == next_digit(old(self).digit()),
    {
        proof {
            use_type_invariant(&*self);
        }
        let digit: i8 = self.current_digit;
        let line = displaying_line(digit);
        // The counter's invariant covers the whole state, so the display is
        // drawn on a copy and stored back in one assignment.
        let mut display = self.display;
        // The counter holds a digit, so the draw succeeds.
        let _ = display.draw_number(digit);
        let segments = display.segments();
        self.display = display;
        self.current_digit = if digit == 9 {
            0
        } else {
            digit + 1
        };
        [Action::Log(line), Action::Drive(segments), Action::Wait(TICK_MS)]
    }
}

/// From a digit `d`, the counter holds `(d + ticks) % 10` after `ticks`
/// ticks.
pub proof fn lemma_digit_after(d: int, ticks: nat)
    requires
        is_digit(d),
    ensures
        digit_after(d, ticks) == (d + ticks) % 10,
    decreases ticks,
{
    if ticks > 0 {
        lemma_digit_after(d, (ticks - 1) as nat);
    }
}

/// The count has a cycle of exactly ten ticks: from a digit `d` the counter
/// is back at `d` after ten ticks and at no tick before, and on the way from
/// 0 it holds the digit `k` after `k` ticks, so that none is skipped or
/// repeated.
pub proof fn lemma_cycle_of_ten(d: int)
    requires
        is_digit(d),
    ensures
        digit_after(d, 10) == d,
        forall|k: nat| 0 < k < 10 ==> digit_after(d, k) != d,
        forall|k: nat| k < 10 ==> digit_after(0, k) == k,
{
    lemma_digit_after(d, 10);
    assert forall|k: nat| 0 < k < 10 implies digit_after(d, k) != d by {
        lemma_digit_after(d, k);
    }
    assert forall|k: nat| k < 10 implies digit_after(0, k) == k by {
        lemma_digit_after(0, k);
    }
}

} // verus!
