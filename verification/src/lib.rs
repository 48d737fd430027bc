//! Driver logic for a single seven-segment digit that counts from 0 to 9.
//!
//! The crate holds the glyph table, the display that applies a glyph to its
//! seven output lines, the text of the console lines, and the sequencer that
//! decides what one tick of the counting loop does. The hardware itself
//! (pins, serial console, the delay between ticks) stays with the caller,
//! who carries out what each tick hands back.

pub mod console;
pub mod display;
pub mod line;
pub mod segment;
pub mod sequencer;
