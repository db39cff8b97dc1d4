//! The text of a floating-point number, as std's `FromStr` for `f32` and
//! `f64` accepts it.
//!
//! std documents the grammar: an optional sign, then `inf`, `infinity`,
//! `nan` (in any case), or digits with at most one decimal point and at least
//! one digit, followed by an optional exponent (`e` or `E`, an optional sign
//! and at least one digit). Reading the value is left to std; this module
//! only tells which texts are numbers.
use vstd::prelude::*;

use crate::parsers::{all_ascii_digits, is_ascii_digit};

verus! {

/// True when `b` is `+` or `-`.
pub open spec fn is_sign(b: u8) -> bool {
    b == 43u8 || b == 45u8
}

/// `b` with an ASCII capital letter made small.
pub open spec fn ascii_lower(b: u8) -> u8 {
    if 65 <= b <= 90 {
        (b + 32) as u8
    } else {
        b
    }
}

/// True when `s`, in any case, is the small ASCII word `w`.
pub open spec fn is_word(s: Seq<u8>, w: Seq<u8>) -> bool {
    s.len() == w.len() && forall|i: int| 0 <= i < s.len() ==> ascii_lower(#[trigger] s[i]) == w[i]
}

/// True when `b` marks an exponent: `e` or `E`.
pub open spec fn is_exponent_mark(b: u8) -> bool {
    b == 101u8 || b == 69u8
}

/// True when `m` is digits with at most one `.`, and at least one digit.
pub open spec fn mantissa_text(m: Seq<u8>) -> bool {
    &&& m.len() > 0
    &&& forall|i: int| 0 <= i < m.len() ==> is_ascii_digit(#[trigger] m[i]) || m[i] == 46u8
    &&& forall|i: int, j: int|
        0 <= i < m.len() && 0 <= j < m.len() && #[trigger] m[i] == 46u8 && #[trigger] m[j] == 46u8
            ==> i == j
    &&& !(m.len() == 1 && m[0] == 46u8)
}

/// True when `e` is an optional sign followed by at least one digit.
pub open spec fn exponent_text(e: Seq<u8>) -> bool {
    let d = if e.len() > 0 && is_sign(e[0]) {
        e.drop_first()
    } else {
        e
    };
    d.len() > 0 && all_ascii_digits(d)
}

/// True when `s` is a mantissa, optionally followed by an exponent mark and
/// an exponent.
pub open spec fn number_text(s: Seq<u8>) -> bool {
    ||| (forall|i: int| 0 <= i < s.len() ==> !is_exponent_mark(#[trigger] s[i])) && mantissa_text(s)
    ||| exists|k: int|
        0 <= k < s.len() && #[trigger] is_exponent_mark(s[k]) && mantissa_text(s.take(k))
            && exponent_text(s.skip(k + 1))
}

/// The small ASCII word `inf`.
pub open spec fn inf_word() -> Seq<u8> {
    seq![105u8, 110u8, 102u8]
}

/// The small ASCII word `infinity`.
pub open spec fn infinity_word() -> Seq<u8> {
    seq![105u8, 110u8, 102u8, 105u8, 110u8, 105u8, 116u8, 121u8]
}

/// The small ASCII word `nan`.
pub open spec fn nan_word() -> Seq<u8> {
    seq![110u8, 97u8, 110u8]
}

/// True when `s` is the text of a floating-point number: an optional sign,
/// then `inf`, `infinity`, `nan` or a number.
pub open spec fn float_text(s: Seq<u8>) -> bool {
    let u = if s.len() > 0 && is_sign(s[0]) {
        s.drop_first()
    } else {
        s
    };
    ||| is_word(u, inf_word())
    ||| is_word(u, infinity_word())
    ||| is_word(u, nan_word())
    ||| number_text(u)
}

/// True when `s`, in any case, is the small ASCII word `w`.
fn is_word_exec(s: &[u8], w: &[u8]) -> (r: bool)
    ensures
        r == is_word(s@, w@),
{
    if s.len() != w.len() {
        return false;
    }
    let mut i: usize = 0;
    while i < s.len()
        invariant
            s@.len() == w@.len(),
            0 <= i <= s@.len(),
            forall|k: int| 0 <= k < i ==> ascii_lower(#[trigger] s@[k]) == w@[k],
        decreases s@.len() - i,
    {
        let b = s[i];
        let lower = if 65 <= b && b <= 90 {
            b + 32
        } else {
            b
        };
        if lower != w[i] {
            return false;
        }
        i = i + 1;
    }
    true
}

/// True when `m` is digits with at most one `.`, and at least one digit.
fn is_mantissa(m: &[u8]) -> (r: bool)
    ensures
        r == mantissa_text(m@),
{
    if m.len() == 0 {
        return false;
    }
    let mut dot: Option<usize> = None;
    let mut i: usize = 0;
    while i < m.len()
        invariant
            0 <= i <= m@.len(),
            forall|k: int| 0 <= k < i ==> is_ascii_digit(#[trigger] m@[k]) || m@[k] == 46u8,
            dot matches Some(d) ==> d < i && m@[d as int] == 46u8,
            forall|k: int| 0 <= k < i && #[trigger] m@[k] == 46u8 ==> dot == Some(k as usize),
        decreases m@.len() - i,
    {
        let b = m[i];
        if b == 46u8 {
            if dot.is_some() {
                return false;
            }
            dot = Some(i);
        } else if !(48 <= b && b <= 57) {
            return false;
        }
        i = i + 1;
    }
    !(m.len() == 1 && m[0] == 46u8)
}

/// True when `e` is an optional sign followed by at least one digit.
fn is_exponent(e: &[u8]) -> (r: bool)
    ensures
        r == exponent_text(e@),
{
    let d = if e.len() > 0 && (e[0] == 43u8 || e[0] == 45u8) {
        &e[1..e.len()]
    } else {
        e
    };
    assert(d@ == (if e@.len() > 0 && is_sign(e@[0]) {
        e@.drop_first()
    } else {
        e@
    })) by {
        if e@.len() > 0 && is_sign(e@[0]) {
            assert(d@ =~= e@.drop_first());
        }
    }
    if d.len() == 0 {
        return false;
    }
    let mut i: usize = 0;
    while i < d.len()
        invariant
            0 <= i <= d@.len(),
            exponent_text(e@) == (d@.len() > 0 && all_ascii_digits(d@)),
            forall|k: int| 0 <= k < i ==> is_ascii_digit(#[trigger] d@[k]),
        decreases d@.len() - i,
    {
        if !(48 <= d[i] && d[i] <= 57) {
            assert(!is_ascii_digit(d@[i as int]));
            return false;
        }
        i = i + 1;
    }
    true
}

/// True when `s` is a mantissa, optionally followed by an exponent mark and
/// an exponent.
fn is_number(s: &[u8]) -> (r: bool)
    ensures
        r == number_text(s@),
{
    let mut k: usize = 0;
    while k < s.len() && s[k] != 101u8 && s[k] != 69u8
        invariant
            0 <= k <= s@.len(),
            forall|i: int| 0 <= i < k ==> !is_exponent_mark(#[trigger] s@[i]),
        decreases s@.len() - k,
    {
        k = k + 1;
    }
    if k == s.len() {
        let r = is_mantissa(s);
        proof {
            assert forall|j: int| 0 <= j < s@.len() implies !is_exponent_mark(
                #[trigger] s@[j],
            ) by {}
        }
        return r;
    }
    let mantissa = &s[0..k];
    let exponent = &s[k + 1..s.len()];
    assert(mantissa@ =~= s@.take(k as int));
    assert(exponent@ =~= s@.skip(k + 1));
    let r = is_mantissa(mantissa) && is_exponent(exponent);
    proof {
        assert(is_exponent_mark(s@[k as int]));
        if r {
            assert(exists|j: int|
                0 <= j < s@.len() && #[trigger] is_exponent_mark(s@[j]) && mantissa_text(
                    s@.take(j),
                ) && exponent_text(s@.skip(j + 1)));
        } else {
            assert forall|j: int|
                0 <= j < s@.len() && #[trigger] is_exponent_mark(s@[j]) && mantissa_text(
                    s@.take(j),
                ) implies !exponent_text(s@.skip(j + 1)) by {
                if j > k {
                    assert(s@.take(j)[k as int] == s@[k as int]);
                } else if j < k {
                    assert(!is_exponent_mark(s@[j]));
                }
            }
        }
    }
    r
}

/// True when `s` is the text of a floating-point number, as std's `FromStr`
/// for `f32` and `f64` accepts it.
pub fn is_float_text(s: &[u8]) -> (r: bool)
    ensures
        r == float_text(s@),
{
    let u = if s.len() > 0 && (s[0] == 43u8 || s[0] == 45u8) {
        &s[1..s.len()]
    } else {
        s
    };
    assert(s@.len() > 0 && is_sign(s@[0]) ==> u@ =~= s@.drop_first());
    let inf: [u8; 3] = [105u8, 110u8, 102u8];
    let infinity: [u8; 8] = [105u8, 110u8, 102u8, 105u8, 110u8, 105u8, 116u8, 121u8];
    let nan: [u8; 3] = [110u8, 97u8, 110u8];
    assert(inf@ == inf_word());
    assert(infinity@ == infinity_word());
    assert(nan@ == nan_word());
    is_word_exec(u, &inf) || is_word_exec(u, &infinity) || is_word_exec(u, &nan) || is_number(u)
}

} // verus!
