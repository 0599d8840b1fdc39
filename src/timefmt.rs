//! Durations rendered for the dashboard.
use vstd::prelude::*;
use crate::text::{decimal_text, push_decimal, push_two_digits, two_digit_text};

verus! {

pub open spec fn abs_seconds(seconds: i64) -> nat {
    if seconds < 0 { (-seconds) as nat } else { seconds as nat }
}

/// `±HH:MM:SS`, hours not wrapped at a day and padded to at least two digits.
pub open spec fn clock_text(seconds: i64) -> Seq<char> {
    let w = abs_seconds(seconds);
    seq![if seconds < 0 { '-' } else { '+' }] + two_digit_text(w / 3600) + seq![':'] + two_digit_text(
        (w % 3600) / 60,
    ) + seq![':'] + two_digit_text(w % 60)
}

/// `D day(s), Hh Mm Ss` of the absolute duration.
pub open spec fn span_text(seconds: i64) -> Seq<char> {
    let w = abs_seconds(seconds);
    decimal_text(w / 86400) + " day(s), "@ + decimal_text((w % 86400) / 3600) + seq!['h', ' ']
        + decimal_text((w % 3600) / 60) + seq!['m', ' '] + decimal_text(w % 60) + seq!['s']
}

fn magnitude_of(seconds: i64) -> (r: u64)
    ensures
        r == abs_seconds(seconds),
{
    if seconds < 0 {
        (0i128 - (seconds as i128)) as u64
    } else {
        seconds as u64
    }
}

/// A signed offset as a clock reading, such as `-01:02:03`.
pub fn strf_seconds_small(seconds: i64) -> (r: String)
    ensures
        r@ == clock_text(seconds),
{
    let w = magnitude_of(seconds);
    let mut s = String::new();
    if seconds < 0 {
        s.push('-');
    } else {
        s.push('+');
    }
    push_two_digits(&mut s, w / 3600);
    s.push(':');
    push_two_digits(&mut s, (w % 3600) / 60);
    s.push(':');
    push_two_digits(&mut s, w % 60);
    proof {
        assert(s@ =~= clock_text(seconds));
    }
    s
}

/// A duration in days, hours, minutes and seconds.
pub fn strf_seconds(seconds: i64) -> (r: String)
    ensures
        r@ == span_text(seconds),
{
    let w = magnitude_of(seconds);
    let mut s = String::new();
    push_decimal(&mut s, w / 86400);
    s.append(" day(s), ");
    push_decimal(&mut s, (w % 86400) / 3600);
    s.push('h');
    s.push(' ');
    push_decimal(&mut s, (w % 3600) / 60);
    s.push('m');
    s.push(' ');
    push_decimal(&mut s, w % 60);
    s.push('s');
    proof {
        assert(s@ =~= span_text(seconds));
    }
    s
}

} // verus!
