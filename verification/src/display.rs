//! Rendering of times for the interface: `h:mm:ss` out of milliseconds.

use crate::text::string_from_chars;
use vstd::prelude::*;

verus! {

/// The character for one decimal digit.
pub open spec fn spec_digit_char(d: int) -> char {
    if d == 0 {
        '0'
    } else if d == 1 {
        '1'
    } else if d == 2 {
        '2'
    } else if d == 3 {
        '3'
    } else if d == 4 {
        '4'
    } else if d == 5 {
        '5'
    } else if d == 6 {
        '6'
    } else if d == 7 {
        '7'
    } else if d == 8 {
        '8'
    } else {
        '9'
    }
}

/// The decimal digits of `n`, most significant first, without leading
/// zeros (a single `'0'` for zero).
pub open spec fn spec_decimal_digits(n: int) -> Seq<char>
    decreases n,
{
    if n < 10 {
        seq![spec_digit_char(n)]
    } else {
        spec_decimal_digits(n / 10).push(spec_digit_char(n % 10))
    }
}

/// Two decimal digits for a value below one hundred: padded with a
/// leading zero below ten.
pub open spec fn spec_two_digits(n: int) -> Seq<char> {
    if n < 10 {
        seq!['0', spec_digit_char(n)]
    } else {
        spec_decimal_digits(n)
    }
}

/// `h:mm:ss` for a duration in milliseconds: whole hours unpadded, then
/// minutes and seconds, each two digits.
pub open spec fn spec_time_display(millis: u64) -> Seq<char> {
    let total = millis as int / 1000;
    let hours = total / 3600;
    let remaining = total % 3600;
    let minutes = remaining / 60;
    let seconds = remaining % 60;
    spec_decimal_digits(hours) + seq![':'] + spec_two_digits(minutes) + seq![':']
        + spec_two_digits(seconds)
}

fn digit_char(d: u64) -> (r: char)
    requires
        d < 10,
    ensures
        r == spec_digit_char(d as int),
{
    if d == 0 {
        '0'
    } else if d == 1 {
        '1'
    } else if d == 2 {
        '2'
    } else if d == 3 {
        '3'
    } else if d == 4 {
        '4'
    } else if d == 5 {
        '5'
    } else if d == 6 {
        '6'
    } else if d == 7 {
        '7'
    } else if d == 8 {
        '8'
    } else {
        '9'
    }
}

fn push_decimal(n: u64, out: &mut Vec<char>)
    ensures
        final(out)@ == old(out)@ + spec_decimal_digits(n as int),
    decreases n,
{
    if n < 10 {
        out.push(digit_char(n));
    } else {
        push_decimal(n / 10, out);
        out.push(digit_char(n % 10));
    }
    proof {
        assert(out@ =~= old(out)@ + spec_decimal_digits(n as int));
    }
}

fn push_two_digits(n: u64, out: &mut Vec<char>)
    requires
        n < 100,
    ensures
        final(out)@ == old(out)@ + spec_two_digits(n as int),
{
    if n < 10 {
        out.push('0');
        out.push(digit_char(n));
        proof {
            assert(out@ =~= old(out)@ + spec_two_digits(n as int));
        }
    } else {
        push_decimal(n, out);
    }
}

/// Renders a duration in milliseconds as `h:mm:ss` for the interface.
pub fn duration_to_time_display(millis: u64) -> (r: String)
    ensures
        r@ == spec_time_display(millis),
{
    let total_seconds = millis / 1000;
    let hours = total_seconds / 3600;
    let remaining = total_seconds % 3600;
    let minutes = remaining / 60;
    let seconds = remaining % 60;
    let mut out: Vec<char> = Vec::new();
    push_decimal(hours, &mut out);
    out.push(':');
    push_two_digits(minutes, &mut out);
    out.push(':');
    push_two_digits(seconds, &mut out);
    proof {
        assert(out@ =~= spec_time_display(millis));
    }
    string_from_chars(&out)
}

} // verus!
