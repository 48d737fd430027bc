//! The text of the lines that go to the console.

use vstd::prelude::*;
use vstd::string::StringExecFns;
use crate::segment::is_digit;

verus! {

/// The character of the decimal digit `d`.
pub open spec fn digit_char(d: int) -> char
    recommends
        is_digit(d),
{
    seq!['0', '1', '2', '3', '4', '5', '6', '7', '8', '9'][d]
}

/// The decimal numeral of `n`, without leading zeros.
pub open spec fn numeral(n: nat) -> Seq<char>
    decreases n,
{
    if n < 10 {
        seq![digit_char(n as int)]
    } else {
        numeral(n / 10).push(digit_char((n % 10) as int))
    }
}

/// The decimal text of `n`: its numeral, after a minus sign if `n` is
/// negative.
pub open spec fn decimal(n: int) -> Seq<char> {
    if n < 0 {
        seq!['-'] + numeral((-n) as nat)
    } else {
        numeral(n as nat)
    }
}

/// The line that announces the number about to be shown.
pub open spec fn displaying_text(num: int) -> Seq<char> {
    "Displaying number: "@ + decimal(num)
}

/// The line that reports a number without a glyph.
pub open spec fn unimplemented_text() -> Seq<char> {
    "Unimplemented"@
}

/// Formats `n` with `ufmt::uDisplay::fmt` for `i8` into a fresh `String`.
///
/// Trusted: ufmt writes the decimal digits of the magnitude, most significant
/// first and without leading zeros, after a `-` where `n` is negative; writing
/// into a `String` cannot fail.
#[verifier::external_body]
fn format_i8(n: i8) -> (text: String)
    ensures
        text@ == decimal(n as int),
{
    let mut text = String::new();
    let _ = ufmt::uDisplay::fmt(&n, &mut ufmt::Formatter::new(&mut text));
    text
}

/// The console line for the number about to be shown, without a line end.
pub fn displaying_line(num: i8) -> (line: String)
    ensures
        line@ == displaying_text(num as int),
{
    let mut line = String::from_str("Displaying number: ");
    let number = format_i8(num);
    line.append(number.as_str());
    line
}

/// The console line for a number without a glyph, without a line end.
pub fn unimplemented_line() -> (line: String)
    ensures
        line@ == unimplemented_text(),
{
    String::from_str("Unimplemented")
}

} // verus!
