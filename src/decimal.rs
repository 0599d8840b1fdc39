//! Decimal numbers held exactly as their text: station coordinates, altitudes
//! and orbital inclinations.
use vstd::prelude::*;
use crate::text::is_digit;

verus! {

/// The unsigned part of `s`: `s` without a leading minus sign.
pub open spec fn magnitude(s: Seq<char>) -> Seq<char> {
    if s.len() > 0 && s[0] == '-' {
        s.drop_first()
    } else {
        s
    }
}

/// A decimal number: an optional leading `-`, then digits with at most one
/// `.` among them, and at least one digit.
pub open spec fn is_decimal(s: Seq<char>) -> bool {
    let b = magnitude(s);
    &&& forall|i: int| 0 <= i < b.len() ==> is_digit(#[trigger] b[i]) || b[i] == '.'
    &&& exists|i: int| 0 <= i < b.len() && is_digit(#[trigger] b[i])
    &&& forall|i: int, j: int|
        0 <= i < b.len() && 0 <= j < b.len() && #[trigger] b[i] == '.' && #[trigger] b[j] == '.'
            ==> i == j
}

pub open spec fn has_dot(b: Seq<char>) -> bool {
    exists|i: int| 0 <= i < b.len() && #[trigger] b[i] == '.'
}

/// Where the integer digits of `b` end: at its `.`, or at its end.
pub open spec fn dot_position(b: Seq<char>) -> int {
    if has_dot(b) {
        choose|i: int| 0 <= i < b.len() && #[trigger] b[i] == '.'
    } else {
        b.len() as int
    }
}

pub open spec fn digit_value(c: char) -> nat {
    ((c as u32) - 48) as nat
}

/// The value of a run of decimal digits.
pub open spec fn digits_value(d: Seq<char>) -> nat
    decreases d.len(),
{
    if d.len() == 0 {
        0
    } else {
        digits_value(d.drop_last()) * 10 + digit_value(d.last())
    }
}

/// The digits before the `.` of a decimal.
pub open spec fn integer_digits(s: Seq<char>) -> Seq<char> {
    magnitude(s).take(dot_position(magnitude(s)))
}

/// The digits after the `.` of a decimal (none without a `.`).
pub open spec fn fraction_digits(s: Seq<char>) -> Seq<char> {
    let b = magnitude(s);
    if has_dot(b) {
        b.skip(dot_position(b) + 1)
    } else {
        Seq::empty()
    }
}

/// The absolute value of the decimal `s` is at most `bound`.
pub open spec fn magnitude_at_most(s: Seq<char>, bound: nat) -> bool {
    let v = digits_value(integer_digits(s));
    v < bound || (v == bound && forall|k: int|
        0 <= k < fraction_digits(s).len() ==> #[trigger] fraction_digits(s)[k] == '0')
}

/// A decimal number, kept as the exact text it was written in.
pub struct Decimal {
    text: String,
}

impl View for Decimal {
    type V = Seq<char>;

    closed spec fn view(&self) -> Seq<char> {
        self.text@
    }
}

proof fn lemma_capped_step(v: nat, d: nat, cap: nat)
    requires
        cap >= 1,
    ensures
        (if v * 10 + d < cap { v * 10 + d } else { cap }) == ({
            let m = if v < cap { v } else { cap };
            if m * 10 + d < cap { m * 10 + d } else { cap }
        }),
{
    if v >= cap {
        assert(v * 10 + d >= cap) by (nonlinear_arith)
            requires v >= cap;
        assert(cap * 10 + d >= cap) by (nonlinear_arith)
            requires cap >= 1;
    }
}

impl Decimal {
    #[verifier::type_invariant]
    spec fn well_formed(self) -> bool {
        is_decimal(self.text@)
    }

    /// The number zero, written `0`.
    pub fn zero() -> (r: Decimal)
        ensures
            r@ == seq!['0'],
    {
        let mut text = String::new();
        text.push('0');
        proof {
            assert(text@ =~= seq!['0']);
            assert(magnitude(text@) =~= seq!['0']);
            assert(is_digit(magnitude(text@)[0]));
        }
        Decimal { text }
    }

    /// Reads a decimal: `Some` exactly when `s` is one, holding `s` unchanged.
    pub fn parse(s: &str) -> (r: Option<Decimal>)
        ensures
            r is Some <==> is_decimal(s@),
            r is Some ==> r.unwrap()@ == s@,
    {
        let n = s.unicode_len();
        let start: usize = if n > 0 && s.get_char(0) == '-' { 1 } else { 0 };
        let ghost b = magnitude(s@);
        assert(b =~= s@.skip(start as int));
        let mut seen_digit = false;
        let mut seen_dot = false;
        let mut i: usize = start;
        while i < n
            invariant
                start <= i <= n,
                n == s@.len(),
                b == s@.skip(start as int),
                b == magnitude(s@),
                forall|k: int| 0 <= k < i - start ==> is_digit(#[trigger] b[k]) || b[k] == '.',
                seen_digit <==> exists|k: int| 0 <= k < i - start && is_digit(#[trigger] b[k]),
                seen_dot <==> exists|k: int| 0 <= k < i - start && #[trigger] b[k] == '.',
                forall|k: int, l: int|
                    0 <= k < i - start && 0 <= l < i - start && #[trigger] b[k] == '.'
                        && #[trigger] b[l] == '.' ==> k == l,
            decreases n - i,
        {
            let c = s.get_char(i);
            assert(b[i - start] == c);
            if c == '.' {
                if seen_dot {
                    proof {
                        let k0 = choose|k: int| 0 <= k < i - start && #[trigger] b[k] == '.';
                        assert(b[k0] == '.' && b[i - start] == '.' && k0 != i - start);
                    }
                    return None;
                }
                seen_dot = true;
            } else if '0' <= c && c <= '9' {
                seen_digit = true;
            } else {
                assert(!(is_digit(b[i - start]) || b[i - start] == '.'));
                return None;
            }
            i = i + 1;
        }
        if !seen_digit {
            return None;
        }
        let text = String::from_str(s);
        Some(Decimal { text })
    }

    /// A second decimal with the same text.
    pub fn copy(&self) -> (r: Decimal)
        ensures
            r == *self,
    {
        proof {
            use_type_invariant(self);
        }
        Decimal { text: self.text.clone() }
    }

    /// The text of the number.
    pub fn as_str(&self) -> (r: &str)
        ensures
            r@ == self@,
            is_decimal(r@),
    {
        proof {
            use_type_invariant(self);
        }
        self.text.as_str()
    }

    /// Whether the absolute value is at most `bound`, compared exactly.
    pub fn magnitude_at_most(&self, bound: u64) -> (r: bool)
        ensures
            r == magnitude_at_most(self@, bound as nat),
    {
        proof {
            use_type_invariant(self);
        }
        let s = self.text.as_str();
        let n = s.unicode_len();
        let start: usize = if n > 0 && s.get_char(0) == '-' { 1 } else { 0 };
        let ghost b = magnitude(s@);
        assert(b =~= s@.skip(start as int));
        let cap: u128 = bound as u128 + 1;
        let mut acc: u128 = 0;
        let mut i: usize = start;
        let mut dot_found = false;
        while i < n
            invariant
                start <= i <= n,
                n == s@.len(),
                s@ == self@,
                b == s@.skip(start as int),
                b == magnitude(s@),
                is_decimal(s@),
                cap == bound + 1,
                cap <= u64::MAX + 1,
                acc <= cap,
                forall|k: int| 0 <= k < i - start ==> #[trigger] b[k] != '.',
                dot_found ==> i < n && b[i - start] == '.',
                acc == (if digits_value(b.take(i - start)) < cap {
                    digits_value(b.take(i - start))
                } else {
                    cap as nat
                }),
            ensures
                dot_found || i == n,
            decreases n - i,
        {
            let c = s.get_char(i);
            if c == '.' {
                dot_found = true;
                break;
            }
            proof {
                assert(b[i - start] == c);
                assert(is_digit(b[i - start]));
            }
            let d: u128 = (c as u32 - 48) as u128;
            proof {
                let t = b.take(i - start + 1);
                assert(t.drop_last() =~= b.take(i - start));
                assert(t.last() == c);
                lemma_capped_step(digits_value(b.take(i - start)), d as nat, cap as nat);
            }
            if acc * 10 + d < cap {
                acc = acc * 10 + d;
            } else {
                acc = cap;
            }
            i = i + 1;
        }
        let p = i;
        proof {
            if dot_found {
                assert(has_dot(b));
                let q = dot_position(b);
                assert(b[q] == '.');
                assert(q == p - start);
            } else {
                assert(b.len() == n - start);
                assert forall|k: int| 0 <= k < b.len() implies #[trigger] b[k] != '.' by {}
                assert(!has_dot(b));
            }
            assert(integer_digits(s@) =~= b.take(p - start));
        }
        let mut nonzero = false;
        let mut j: usize = if dot_found { p + 1 } else { n };
        while j < n
            invariant
                p < j <= n || j == n,
                dot_found ==> p + 1 <= j <= n,
                n == s@.len(),
                dot_found ==> fraction_digits(s@) =~= s@.subrange(p + 1, n as int),
                !dot_found ==> fraction_digits(s@).len() == 0,
                nonzero <==> exists|k: int| p + 1 <= k < j && #[trigger] s@[k] != '0',
            decreases n - j,
        {
            if s.get_char(j) != '0' {
                nonzero = true;
            }
            j = j + 1;
        }
        proof {
            if dot_found {
                assert(b.skip(p - start + 1) =~= s@.subrange(p + 1, n as int));
                if nonzero {
                    let k = choose|k: int| p + 1 <= k < n && #[trigger] s@[k] != '0';
                    assert(fraction_digits(s@)[k - p - 1] != '0');
                } else {
                    assert forall|k: int| 0 <= k < fraction_digits(s@).len() implies
                        #[trigger] fraction_digits(s@)[k] == '0' by {
                        assert(s@[p + 1 + k] == '0');
                    }
                }
            }
        }
        acc < bound as u128 || (acc == bound as u128 && !nonzero)
    }
}

} // verus!
