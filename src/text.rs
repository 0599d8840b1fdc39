//! Character-level helpers on `String` and decimal rendering of integers.
use vstd::prelude::*;

verus! {

/// Relies on `String::push`: the character is appended at the end.
pub assume_specification[ String::push ](s: &mut String, ch: char)
    ensures
        final(s)@ == old(s)@.push(ch),
;

/// Relies on `String::pop`: the last character is removed and returned, if any.
pub assume_specification[ String::pop ](s: &mut String) -> (r: Option<char>)
    ensures
        old(s)@.len() == 0 ==> r is None && final(s)@ == old(s)@,
        old(s)@.len() > 0 ==> r == Some(old(s)@.last()) && final(s)@ == old(s)@.drop_last(),
;

/// Relies on `String::insert`; only the front position is used here, which is
/// always a character boundary.
pub assume_specification[ String::insert ](s: &mut String, idx: usize, ch: char)
    requires
        idx == 0,
    ensures
        final(s)@ == seq![ch] + old(s)@,
;

/// Relies on `String::remove`; only the first character of a non-empty string
/// is removed here.
pub assume_specification[ String::remove ](s: &mut String, idx: usize) -> (r: char)
    requires
        idx == 0,
        old(s)@.len() > 0,
    ensures
        r == old(s)@[0],
        final(s)@ == old(s)@.drop_first(),
;

pub open spec fn is_digit(c: char) -> bool {
    '0' <= c <= '9'
}

pub open spec fn digit_char(d: nat) -> char {
    if d == 0 { '0' }
    else if d == 1 { '1' }
    else if d == 2 { '2' }
    else if d == 3 { '3' }
    else if d == 4 { '4' }
    else if d == 5 { '5' }
    else if d == 6 { '6' }
    else if d == 7 { '7' }
    else if d == 8 { '8' }
    else { '9' }
}

/// The decimal digits of `n`, most significant first, without leading zeros.
pub open spec fn decimal_text(n: nat) -> Seq<char>
    decreases n,
{
    if n < 10 {
        seq![digit_char(n)]
    } else {
        decimal_text(n / 10).push(digit_char(n % 10))
    }
}

/// `decimal_text(n)` left-padded with zeros to at least two characters.
pub open spec fn two_digit_text(n: nat) -> Seq<char> {
    if n < 10 {
        seq!['0', digit_char(n)]
    } else {
        decimal_text(n)
    }
}

fn digit_to_char(d: u64) -> (c: char)
    requires
        d < 10,
    ensures
        c == digit_char(d as nat),
{
    if d == 0 { '0' }
    else if d == 1 { '1' }
    else if d == 2 { '2' }
    else if d == 3 { '3' }
    else if d == 4 { '4' }
    else if d == 5 { '5' }
    else if d == 6 { '6' }
    else if d == 7 { '7' }
    else if d == 8 { '8' }
    else { '9' }
}

/// Appends the decimal digits of `n`.
pub fn push_decimal(s: &mut String, n: u64)
    ensures
        final(s)@ == old(s)@ + decimal_text(n as nat),
    decreases n,
{
    if n >= 10 {
        push_decimal(s, n / 10);
    }
    s.push(digit_to_char(n % 10));
    proof {
        if n < 10 {
            assert(decimal_text(n as nat) == seq![digit_char(n as nat)]);
        }
        assert(final(s)@ =~= old(s)@ + decimal_text(n as nat));
    }
}

/// Appends the decimal digits of `n`, zero-padded to at least two characters.
pub fn push_two_digits(s: &mut String, n: u64)
    ensures
        final(s)@ == old(s)@ + two_digit_text(n as nat),
{
    if n < 10 {
        s.push('0');
        s.push(digit_to_char(n));
        proof {
            assert(final(s)@ =~= old(s)@ + two_digit_text(n as nat));
        }
    } else {
        push_decimal(s, n);
    }
}

/// The decimal rendering of `n`.
pub fn decimal_string(n: u64) -> (r: String)
    ensures
        r@ == decimal_text(n as nat),
{
    let mut s = String::new();
    push_decimal(&mut s, n);
    proof {
        assert(s@ =~= decimal_text(n as nat));
    }
    s
}

} // verus!
