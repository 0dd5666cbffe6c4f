//! Building the short decimal and clock strings that the modes show on the
//! two-line character display. Time is whole seconds, rendered as minutes and
//! seconds by integer division and modulo.

use vstd::prelude::*;
use vstd::string::StringExecFns;

verus! {

/// Relies on `String::push` from std: it appends exactly the one character
/// at the end of the string.
pub assume_specification[ String::push ](s: &mut String, ch: char)
    ensures
        final(s)@ == old(s)@.push(ch),
;

/// The decimal digit character for a value below ten.
pub open spec fn digit_char(d: int) -> char {
    if d == 0 {
        '0'
    } else if d == 1 {
        '1'
    } else if d == 2 {
        '2'
    } else if d == 3 {
        '3'
    } else if d == 4 {
        '4'
    } else if d == 5 {
        '5'
    } else if d == 6 {
        '6'
    } else if d == 7 {
        '7'
    } else if d == 8 {
        '8'
    } else {
        '9'
    }
}

/// The decimal digit sequence of a number, most significant first, with no
/// leading zeros (a single zero digit for zero).
pub open spec fn decimal_digits(n: int) -> Seq<char>
    decreases n,
{
    if n < 10 {
        seq![digit_char(n)]
    } else {
        decimal_digits(n / 10).push(digit_char(n % 10))
    }
}

/// A number below one hundred as exactly two digits, zero padded.
pub open spec fn two_digit_text(n: int) -> Seq<char> {
    seq![digit_char(n / 10), digit_char(n % 10)]
}

/// A second count as `M:SS`: minutes without padding, seconds zero padded.
pub open spec fn clock_text(secs: int) -> Seq<char> {
    decimal_digits(secs / 60) + seq![':'] + two_digit_text(secs % 60)
}

/// A second count as `MM:SS`: both parts zero padded to two digits.
pub open spec fn clock_text_padded(secs: int) -> Seq<char> {
    two_digit_text(secs / 60) + seq![':'] + two_digit_text(secs % 60)
}

/// The character for one decimal digit.
pub fn digit_to_char(d: u32) -> (c: char)
    requires
        d < 10,
    ensures
        c == digit_char(d as int),
{
    match d {
        0 => '0',
        1 => '1',
        2 => '2',
        3 => '3',
        4 => '4',
        5 => '5',
        6 => '6',
        7 => '7',
        8 => '8',
        _ => '9',
    }
}

/// The decimal rendering of a number.
pub fn u32_to_string(n: u32) -> (s: String)
    ensures
        s@ == decimal_digits(n as int),
    decreases n,
{
    if n < 10 {
        let mut s = String::new();
        s.push(digit_to_char(n));
        s
    } else {
        let mut s = u32_to_string(n / 10);
        s.push(digit_to_char(n % 10));
        s
    }
}

/// A number below one hundred as exactly two digits, zero padded.
pub fn two_digit_string(n: u32) -> (s: String)
    requires
        n < 100,
    ensures
        s@ == two_digit_text(n as int),
{
    let mut s = String::new();
    s.push(digit_to_char(n / 10));
    s.push(digit_to_char(n % 10));
    s
}

/// A second count as `M:SS`.
pub fn format_clock(secs: u32) -> (s: String)
    ensures
        s@ == clock_text(secs as int),
{
    let mut s = u32_to_string(secs / 60);
    s.push(':');
    let tail = two_digit_string(secs % 60);
    s.append(tail.as_str());
    s
}

/// A second count as `MM:SS`, for clocks known to stay under one hundred
/// minutes.
pub fn format_clock_padded(secs: u32) -> (s: String)
    requires
        secs < 6000,
    ensures
        s@ == clock_text_padded(secs as int),
{
    let mut s = two_digit_string(secs / 60);
    s.push(':');
    let tail = two_digit_string(secs % 60);
    s.append(tail.as_str());
    s
}

} // verus!
