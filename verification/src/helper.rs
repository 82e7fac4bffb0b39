//! Decimal rendering of 16-bit words, used for trace lines and fault messages.

use vstd::prelude::*;

verus! {

/// The character for a single decimal digit; values of ten or more render as
/// an underscore, mirroring the catch-all arm of `digit_to_str`.
pub open spec fn spec_digit_char(d: nat) -> char {
    if d == 0 {
        '0'
    } else if d == 1 {
        '1'
    } else if d == 2 {
        '2'
    } else if d == 3 {
        '3'
    } else if d == 4 {
        '4'
    } else if d == 5 {
        '5'
    } else if d == 6 {
        '6'
    } else if d == 7 {
        '7'
    } else if d == 8 {
        '8'
    } else if d == 9 {
        '9'
    } else {
        '_'
    }
}

/// The decimal rendering of `n`, most significant digit first, with no
/// leading zeroes (zero itself renders as a single `'0'`).
pub open spec fn spec_decimal(n: nat) -> Seq<char>
    decreases n,
{
    if n < 10 {
        seq![spec_digit_char(n)]
    } else {
        spec_decimal(n / 10).push(spec_digit_char(n % 10))
    }
}

/// Relies on `alloc::string::String::push`: appends the given character to
/// the end of the string.
pub assume_specification[ String::push ](s: &mut String, ch: char)
    ensures
        final(s)@ == old(s)@.push(ch),
;

/// Relies on `alloc::string::String::push_str`: appends the given string
/// slice to the end of the string.
pub assume_specification[ String::push_str ](s: &mut String, piece: &str)
    ensures
        final(s)@ == old(s)@ + piece@,
;

fn digit_to_str(val: u16) -> (c: char)
    ensures
        c == spec_digit_char(val as nat),
{
    match val {
        0 => '0',
        1 => '1',
        2 => '2',
        3 => '3',
        4 => '4',
        5 => '5',
        6 => '6',
        7 => '7',
        8 => '8',
        9 => '9',
        _ => '_',
    }
}

/// Renders `val` in decimal.
pub fn u16_to_string(val: u16) -> (r: String)
    ensures
        r@ == spec_decimal(val as nat),
    decreases val,
{
    if val < 10 {
        let mut s = String::new();
        s.push(digit_to_str(val));
        proof {
            assert(s@ =~= spec_decimal(val as nat));
        }
        s
    } else {
        let mut s = u16_to_string(val / 10);
        s.push(digit_to_str(val % 10));
        proof {
            assert(s@ =~= spec_decimal(val as nat));
        }
        s
    }
}

} // verus!
