//! The seven segments and the glyph of each decimal digit.

use vstd::prelude::*;

verus! {

/// The number of segments of one digit.
pub const SEGMENT_COUNT: usize = 7;

/// One of the seven positions of a digit, by its conventional letter:
/// A top, B top right, C bottom right, D bottom, E bottom left, F top left,
/// G middle.
#[derive(Clone, Copy, Debug, PartialEq, Eq, Structural)]
pub enum Segment {
    A,
    B,
    C,
    D,
    E,
    F,
    G,
}

impl Segment {
    /// The place of this segment in a pattern, counted from A.
    pub open spec fn index(self) -> int {
        match self {
            Segment::A => 0,
            Segment::B => 1,
            Segment::C => 2,
            Segment::D => 3,
            Segment::E => 4,
            Segment::F => 5,
            Segment::G => 6,
        }
    }
}

/// Whether `d` is a digit that has a glyph.
pub open spec fn is_digit(d: int) -> bool {
    0 <= d <= 9
}

/// The glyphs of the digits 0 to 9, one row each; a row lists the segments
/// A to G, `true` for lit.
pub open spec fn glyph_table() -> Seq<Seq<bool>> {
    seq![
        seq![true, true, true, true, true, true, false],
        seq![false, true, true, false, false, false, false],
        seq![true, true, false, true, true, false, true],
        seq![true, true, true, true, false, false, true],
        seq![false, true, true, false, false, true, true],
        seq![true, false, true, true, false, true, true],
        seq![false, false, true, true, true, true, true],
        seq![true, true, true, false, false, false, false],
        seq![true, true, true, true, true, true, true],
        seq![true, true, true, false, false, true, true],
    ]
}

/// The glyph of the digit `d`: its row of the table.
pub open spec fn glyph(d: int) -> Seq<bool>
    recommends
        is_digit(d),
{
    glyph_table()[d]
}

/// The pattern with no segment lit.
pub open spec fn dark() -> Seq<bool> {
    Seq::new(SEGMENT_COUNT as nat, |i: int| false)
}

/// The state of all seven segments, `true` for lit.
#[derive(Clone, Copy, Debug, PartialEq, Eq, Structural)]
pub struct Segments {
    pub a: bool,
    pub b: bool,
    pub c: bool,
    pub d: bool,
    pub e: bool,
    pub f: bool,
    pub g: bool,
}

impl View for Segments {
    type V = Seq<bool>;

    /// The seven states in the order A to G.
    open spec fn view(&self) -> Seq<bool> {
        seq![self.a, self.b, self.c, self.d, self.e, self.f, self.g]
    }
}

impl Segments {
    /// Whether `segment` is lit in this pattern.
    pub fn is_lit(&self, segment: Segment) -> (lit: bool)
        ensures
            lit == self@[segment.index()],
    {
        match segment {
            Segment::A => self.a,
            Segment::B => self.b,
            Segment::C => self.c,
            Segment::D => self.d,
            Segment::E => self.e,
            Segment::F => self.f,
            Segment::G => self.g,
        }
    }
}

/// Every glyph of the table sets all seven segments.
pub proof fn lemma_glyph_complete(d: int)
    requires
        is_digit(d),
    ensures
        glyph(d).len() == SEGMENT_COUNT,
{
}

} // verus!
