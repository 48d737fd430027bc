//! The display: seven output lines, one per segment, and the drawing of
//! digits onto them.

use vstd::prelude::*;
use crate::console::{unimplemented_line, unimplemented_text};
use crate::line::Line;
use crate::segment::{dark, glyph, is_digit, Segments};

verus! {

/// Why a number was not drawn.
#[derive(Clone, Copy, Debug, PartialEq, Eq, Structural)]
pub enum DrawError {
    /// The number has no glyph: it is not one of the digits 0 to 9.
    Unimplemented,
}

impl DrawError {
    /// The console line that reports this error, without a line end.
    pub fn message(&self) -> (line: String)
        ensures
            line@ == unimplemented_text(),
    {
        match self {
            DrawError::Unimplemented => unimplemented_line(),
        }
    }
}

/// What the lines show after `num` was asked for while they showed `levels`:
/// the glyph of a digit, and for any other number what they showed before.
pub open spec fn drawn(levels: Seq<bool>, num: int) -> Seq<bool> {
    if is_digit(num) {
        glyph(num)
    } else {
        levels
    }
}

/// The seven output lines of one digit, named by the segment that each
/// drives.
#[derive(Clone, Copy, Debug, PartialEq, Eq, Structural)]
pub struct NumberDisplay {
    pub a: Line,
    pub b: Line,
    pub c: Line,
    pub d: Line,
    pub e: Line,
    pub f: Line,
    pub g: Line,
}

impl View for NumberDisplay {
    type V = Seq<bool>;

    /// The levels of the lines in the order A to G, `true` for high.
    open spec fn view(&self) -> Seq<bool> {
        seq![
            self.a.is_high(),
            self.b.is_high(),
            self.c.is_high(),
            self.d.is_high(),
            self.e.is_high(),
            self.f.is_high(),
            self.g.is_high(),
        ]
    }
}

impl NumberDisplay {
    /// A display with all lines low, so that no segment is lit.
    pub fn new() -> (display: NumberDisplay)
        ensures
            display@ == dark(),
    {
        NumberDisplay {
            a: Line::new(),
            b: Line::new(),
            c: Line::new(),
            d: Line::new(),
            e: Line::new(),
            f: Line::new(),
            g: Line::new(),
        }
    }

    /// The state of the seven segments as the lines now drive them.
    pub fn segments(&self) -> (segments: Segments)
        ensures
            segments@ == self@,
    {
        Segments {
            a: self.a.is_set_high(),
            b: self.b.is_set_high(),
            c: self.c.is_set_high(),
            d: self.d.is_set_high(),
            e: self.e.is_set_high(),
            f: self.f.is_set_high(),
            g: self.g.is_set_high(),
        }
    }

    /// Sets every line for the glyph of 0.
    pub fn draw_zero(&mut self)
        ensures
            final(self)@ == glyph(0),
    {
        self.a.set_high();
        self.b.set_high();
        self.c.set_high();
        self.d.set_high();
        self.e.set_high();
        self.f.set_high();

        self.g.set_low();
    }

    /// Sets every line for the glyph of 1.
    pub fn draw_one(&mut self)
        ensures
            final(self)@ == glyph(1),
    {
        self.b.set_high();
        self.c.set_high();

        self.a.set_low();
        self.d.set_low();
        self.e.set_low();
        self.f.set_low();
        self.g.set_low();
    }

    /// Sets every line for the glyph of 2.
    pub fn draw_two(&mut self)
        ensures
            final(self)@ == glyph(2),
    {
        self.b.set_high();
        self.a.set_high();
        self.g.set_high();
        self.e.set_high();
        self.d.set_high();

        self.c.set_low();
        self.f.set_low();
    }

    /// Sets every line for the glyph of 3.
    pub fn draw_three(&mut self)
        ensures
            final(self)@ == glyph(3),
    {
        self.b.set_high();
        self.a.set_high();
        self.g.set_high();
        self.c.set_high();
        self.d.set_high();

        self.e.set_low();
        self.f.set_low();
    }

    /// Sets every line for the glyph of 4.
    pub fn draw_four(&mut self)
        ensures
            final(self)@ == glyph(4),
    {
        self.b.set_high();
        self.f.set_high();
        self.g.set_high();
        self.c.set_high();

        self.a.set_low();
        self.d.set_low();
        self.e.set_low();
    }

    /// Sets every line for the glyph of 5.
    pub fn draw_five(&mut self)
        ensures
            final(self)@ == glyph(5),
    {
        self.a.set_high();
        self.f.set_high();
        self.g.set_high();
        self.c.set_high();
        self.d.set_high();

        self.b.set_low();
        self.e.set_low();
    }

    /// Sets every line for the glyph of 6.
    pub fn draw_six(&mut self)
        ensures
            final(self)@ == glyph(6),
    {
        self.g.set_high();
        self.c.set_high();
        self.f.set_high();
        self.e.set_high();
        self.d.set_high();

        self.a.set_low();
        self.b.set_low();
    }

    /// Sets every line for the glyph of 7.
    pub fn draw_seven(&mut self)
        ensures
            final(self)@ == glyph(7),
    {
        self.b.set_high();
        self.a.set_high();
        self.c.set_high();

        self.d.set_low();
        self.e.set_low();
        self.f.set_low();
        self.g.set_low();
    }

    /// Sets every line for the glyph of 8.
    pub fn draw_eight(&mut self)
        ensures
            final(self)@ == glyph(8),
    {
        self.b.set_high();
        self.a.set_high();
        self.g.set_high();
        self.c.set_high();
        self.f.set_high();
        self.e.set_high();
        self.d.set_high();
    }

    /// Sets every line for the glyph of 9.
    pub fn draw_nine(&mut self)
        ensures
            final(self)@ == glyph(9),
    {
        self.b.set_high();
        self.a.set_high();
        self.g.set_high();
        self.c.set_high();
        self.f.set_high();

        self.d.set_low();
        self.e.set_low();
    }

    /// Draws `num` if it is a digit, setting every line; leaves every line as
    /// it was and reports the number as unimplemented if it is not.
    pub fn draw_number(&mut self, num: i8) -> (outcome: Result<(), DrawError>)
        ensures
            final(self)@ == drawn(old(self)@, num as int),
            is_digit(num as int) ==> outcome == Ok::<(), DrawError>(()),
            !is_digit(num as int) ==> outcome == Err::<(), DrawError>(DrawError::Unimplemented),
            !is_digit(num as int) ==> *final(self) == *old(self),
    {
        match num {
            0 => self.draw_zero(),
            1 => self.draw_one(),
            2 => self.draw_two(),
            3 => self.draw_three(),
            4 => self.draw_four(),
            5 => self.draw_five(),
            6 => self.draw_six(),
            7 => self.draw_seven(),
            8 => self.draw_eight(),
            9 => self.draw_nine(),
            _ => return Err(DrawError::Unimplemented),
        }
        Ok(())
    }
}

/// The pattern of segments for `digit`, if it is a digit.
pub fn encode(digit: i8) -> (pattern: Option<Segments>)
    ensures
        is_digit(digit as int) ==> pattern.is_some() && pattern.unwrap()@ == glyph(digit as int),
        !is_digit(digit as int) ==> pattern.is_none(),
{
    let mut scratch = NumberDisplay::new();
    match scratch.draw_number(digit) {
        Ok(()) => Some(scratch.segments()),
        Err(_) => None,
    }
}

/// Drawing the same number twice in a row leaves the lines as drawing it
/// once does.
pub proof fn lemma_draw_twice(levels: Seq<bool>, num: int)
    ensures
        drawn(drawn(levels, num), num) == drawn(levels, num),
{
}

} // verus!
