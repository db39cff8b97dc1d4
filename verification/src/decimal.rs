//! Decimal text of unsigned numbers, as std's formatter writes them.
use vstd::prelude::*;

use crate::parsers::{all_ascii_digits, digits_value, is_ascii_digit};

verus! {

/// The decimal digits of `n`, most significant first, with no leading zero.
pub open spec fn decimal_digits(n: nat) -> Seq<u8>
    decreases n,
{
    if n < 10 {
        seq![(48 + n) as u8]
    } else {
        decimal_digits(n / 10).push((48 + n % 10) as u8)
    }
}

/// The decimal text of `n` padded on the left with zeros to at least
/// `width` characters, as `format!("{:0width$}", n)` writes it.
pub open spec fn zero_padded(n: nat, width: nat) -> Seq<u8> {
    let digits = decimal_digits(n);
    if digits.len() < width {
        Seq::new((width - digits.len()) as nat, |i: int| 48u8) + digits
    } else {
        digits
    }
}

/// A number below ten to the `k` has at most `k` digits.
pub proof fn lemma_decimal_digits_len(n: nat, k: nat, p: nat)
    requires
        k >= 1,
        p == crate::parsers::pow10(k),
        n < p,
    ensures
        decimal_digits(n).len() <= k,
    decreases k,
{
    if n >= 10 {
        let q = crate::parsers::pow10((k - 1) as nat);
        assert(p == 10 * q);
        if k == 1 {
            assert(crate::parsers::pow10(0) == 1);
        } else {
            assert(n / 10 < q) by (nonlinear_arith)
                requires
                    n < 10 * q,
            ;
            lemma_decimal_digits_len(n / 10, (k - 1) as nat, q);
        }
    }
}

/// The decimal digits of `n` are digits, and read back as `n`.
pub proof fn lemma_decimal_digits_value(n: nat)
    ensures
        all_ascii_digits(decimal_digits(n)),
        digits_value(decimal_digits(n)) == n,
    decreases n,
{
    if n < 10 {
        let d = decimal_digits(n);
        assert(d.drop_last() =~= Seq::<u8>::empty());
        assert(d.last() == (48 + n) as u8);
        assert(digits_value(d) == digits_value(d.drop_last()) * 10 + (d.last() - 48) as nat);
    } else {
        lemma_decimal_digits_value(n / 10);
        let d = decimal_digits(n);
        assert(d.drop_last() =~= decimal_digits(n / 10));
        assert(d.last() == (48 + n % 10) as u8);
        assert(digits_value(d) == digits_value(d.drop_last()) * 10 + (d.last() - 48) as nat);
        assert((n / 10) * 10 + n % 10 == n);
        assert forall|i: int| 0 <= i < d.len() implies is_ascii_digit(#[trigger] d[i]) by {
            if i < d.len() - 1 {
                assert(d[i] == decimal_digits(n / 10)[i]);
            }
        }
    }
}

/// Zeros in front of digits change neither that they are digits nor what
/// they read as.
proof fn lemma_leading_zeros_value(k: nat, s: Seq<u8>)
    requires
        all_ascii_digits(s),
    ensures
        all_ascii_digits(Seq::new(k, |i: int| 48u8) + s),
        digits_value(Seq::new(k, |i: int| 48u8) + s) == digits_value(s),
    decreases s.len(), k,
{
    let z = Seq::new(k, |i: int| 48u8);
    let t = z + s;
    assert forall|i: int| 0 <= i < t.len() implies is_ascii_digit(#[trigger] t[i]) by {
        if i >= k {
            assert(t[i] == s[i - k]);
        }
    }
    if s.len() > 0 {
        assert(all_ascii_digits(s.drop_last()));
        lemma_leading_zeros_value(k, s.drop_last());
        assert(t.drop_last() =~= z + s.drop_last());
        assert(t.last() == s.last());
    } else if k > 0 {
        let z1 = Seq::new((k - 1) as nat, |i: int| 48u8);
        lemma_leading_zeros_value((k - 1) as nat, s);
        assert(t.drop_last() =~= z1 + s);
        assert(z1 + s =~= z1);
    } else {
        assert(t =~= s);
    }
}

/// The zero-padded text of `n` is digits, and reads back as `n`.
pub proof fn lemma_zero_padded_value(n: nat, width: nat)
    ensures
        all_ascii_digits(zero_padded(n, width)),
        digits_value(zero_padded(n, width)) == n,
{
    lemma_decimal_digits_value(n);
    let digits = decimal_digits(n);
    if digits.len() < width {
        lemma_leading_zeros_value((width - digits.len()) as nat, digits);
    }
}

/// Appends the decimal digits of `n` to `out`.
pub fn push_decimal(out: &mut Vec<u8>, n: u128)
    ensures
        final(out)@ == old(out)@ + decimal_digits(n as nat),
    decreases n,
{
    if n >= 10 {
        push_decimal(out, n / 10);
    }
    let digit = (48 + n % 10) as u8;
    out.push(digit);
    proof {
        if n < 10 {
            assert(decimal_digits(n as nat) == seq![digit]);
        }
    }
    assert(out@ =~= old(out)@ + decimal_digits(n as nat));
}

/// Appends the decimal digits of `n`, padded with zeros to `width`, to `out`.
pub fn push_zero_padded(out: &mut Vec<u8>, n: u128, width: usize)
    ensures
        final(out)@ == old(out)@ + zero_padded(n as nat, width as nat),
{
    let mut digits: Vec<u8> = Vec::new();
    push_decimal(&mut digits, n);
    assert(digits@ =~= decimal_digits(n as nat));
    let len = digits.len();
    let ghost start = out@;
    if len < width {
        let mut i: usize = 0;
        while i < width - len
            invariant
                len < width,
                0 <= i <= width - len,
                out@ =~= start + Seq::new(i as nat, |k: int| 48u8),
            decreases width - len - i,
        {
            out.push(48u8);
            i = i + 1;
        }
    }
    let mut j: usize = 0;
    let ghost padded = out@;
    while j < len
        invariant
            len == digits@.len(),
            0 <= j <= len,
            out@ =~= padded + digits@.take(j as int),
        decreases len - j,
    {
        out.push(digits[j]);
        assert(digits@.take(j + 1) =~= digits@.take(j as int).push(digits@[j as int]));
        j = j + 1;
    }
    assert(digits@.take(len as int) =~= digits@);
}

} // verus!
