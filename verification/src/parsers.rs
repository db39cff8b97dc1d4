//! Byte-level building blocks of the RF Explorer message grammar.
//!
//! Every message is an ASCII prefix followed by fixed-width fields that are
//! separated by commas, and an optional `\r` or `\r\n` line ending.
use vstd::prelude::*;

verus! {

/// True when `b` is the ASCII code of a decimal digit.
pub open spec fn is_ascii_digit(b: u8) -> bool {
    48 <= b <= 57
}

/// True when every byte of `s` is an ASCII decimal digit.
pub open spec fn all_ascii_digits(s: Seq<u8>) -> bool {
    forall|i: int| 0 <= i < s.len() ==> is_ascii_digit(#[trigger] s[i])
}

/// The number that the decimal digits `s` spell, most significant first.
pub open spec fn digits_value(s: Seq<u8>) -> nat
    decreases s.len(),
{
    if s.len() == 0 {
        0
    } else {
        digits_value(s.drop_last()) * 10 + (s.last() - 48) as nat
    }
}

/// The value that std's `FromStr` for an unsigned integer reads from `s`:
/// an optional `+` followed by at least one decimal digit.
pub open spec fn unsigned_text_value(s: Seq<u8>) -> Option<nat> {
    if s.len() > 0 && s[0] == 43u8 {
        let d = s.drop_first();
        if d.len() > 0 && all_ascii_digits(d) {
            Some(digits_value(d))
        } else {
            None
        }
    } else if s.len() > 0 && all_ascii_digits(s) {
        Some(digits_value(s))
    } else {
        None
    }
}

/// The value of `s` read as an unsigned integer type whose largest value is `max`.
pub open spec fn unsigned_value(s: Seq<u8>, max: nat) -> Option<nat> {
    match unsigned_text_value(s) {
        Some(v) => if v <= max {
            Some(v)
        } else {
            None
        },
        None => None,
    }
}

/// True when `t` is an accepted end of a message: nothing, `\r` or `\r\n`.
pub open spec fn is_line_end(t: Seq<u8>) -> bool {
    ||| t.len() == 0
    ||| t == seq![13u8]
    ||| t == seq![13u8, 10u8]
}

/// Where field `i` of a message starts, when the prefix is `prefix_len`
/// bytes long and the fields have the given widths and are separated by one byte.
pub open spec fn field_offset(prefix_len: int, widths: Seq<usize>, i: int) -> int
    decreases i,
{
    if i <= 0 {
        prefix_len
    } else {
        field_offset(prefix_len, widths, i - 1) + widths[i - 1] + 1
    }
}

/// Where the last field of a message ends.
pub open spec fn fields_end(prefix_len: int, widths: Seq<usize>) -> int {
    field_offset(prefix_len, widths, widths.len() as int) - 1
}

/// True when `b` is `prefix`, then fields of the given widths separated by
/// commas, then a line end.
pub open spec fn framed(b: Seq<u8>, prefix: Seq<u8>, widths: Seq<usize>) -> bool {
    let pl = prefix.len() as int;
    &&& widths.len() > 0
    &&& fields_end(pl, widths) <= b.len()
    &&& b.take(pl) == prefix
    &&& forall|i: int|
        0 <= i < widths.len() - 1 ==> b[#[trigger] field_offset(pl, widths, i) + widths[i]]
            == 44u8
    &&& is_line_end(b.skip(fields_end(pl, widths)))
}

/// The text of field `i` of a framed message.
pub open spec fn field_text(b: Seq<u8>, prefix_len: int, widths: Seq<usize>, i: int) -> Seq<u8> {
    b.subrange(
        field_offset(prefix_len, widths, i),
        field_offset(prefix_len, widths, i) + widths[i],
    )
}

/// The fields of `b` when it is framed by `prefix` and `widths`.
pub open spec fn split_fields_spec(b: Seq<u8>, prefix: Seq<u8>, widths: Seq<usize>) -> Option<
    Seq<Seq<u8>>,
> {
    if framed(b, prefix, widths) {
        Some(
            Seq::new(
                widths.len(),
                |i: int| field_text(b, prefix.len() as int, widths, i),
            ),
        )
    } else {
        None
    }
}

proof fn lemma_field_offset_monotone(pl: int, widths: Seq<usize>, i: int, j: int)
    requires
        0 <= i <= j,
    ensures
        field_offset(pl, widths, i) <= field_offset(pl, widths, j),
    decreases j,
{
    if i < j {
        lemma_field_offset_monotone(pl, widths, i, j - 1);
    }
}

proof fn lemma_digits_value_step(s: Seq<u8>, i: int)
    requires
        0 <= i < s.len(),
    ensures
        digits_value(s.take(i + 1)) == digits_value(s.take(i)) * 10 + (s[i] - 48) as nat,
{
    assert(s.take(i + 1).drop_last() =~= s.take(i));
}

proof fn lemma_digits_value_prefix(s: Seq<u8>, i: int)
    requires
        0 <= i <= s.len(),
        all_ascii_digits(s),
    ensures
        digits_value(s.take(i)) <= digits_value(s),
    decreases s.len(),
{
    if i < s.len() {
        let d = s.drop_last();
        assert(all_ascii_digits(d));
        lemma_digits_value_prefix(d, i);
        assert(d.take(i) =~= s.take(i));
        assert(is_ascii_digit(s[s.len() - 1]));
    } else {
        assert(s.take(i) =~= s);
    }
}

/// Reads `digits` as a decimal number no larger than `max`; `None` when a
/// byte is not a digit, when there is none, or when the number is larger.
fn parse_digits(digits: &[u8], max: u64) -> (r: Option<u64>)
    ensures
        r matches Some(v) ==> digits@.len() > 0 && all_ascii_digits(digits@) && v == digits_value(
            digits@,
        ) && v <= max,
        r is None ==> !(digits@.len() > 0 && all_ascii_digits(digits@) && digits_value(digits@)
            <= max),
{
    let n = digits.len();
    if n == 0 {
        return None;
    }
    let mut acc: u64 = 0;
    let mut i: usize = 0;
    while i < n
        invariant
            n == digits@.len(),
            0 <= i <= n,
            all_ascii_digits(digits@.take(i as int)),
            acc == digits_value(digits@.take(i as int)),
            acc <= max,
        decreases n - i,
    {
        let b = digits[i];
        proof {
            lemma_digits_value_step(digits@, i as int);
        }
        if b < 48 || b > 57 {
            return None;
        }
        let d = (b - 48) as u64;
        if acc > max / 10 || (acc == max / 10 && d > max % 10) {
            proof {
                assert(acc * 10 + d > max) by (nonlinear_arith)
                    requires
                        acc > max / 10 || (acc == max / 10 && d > max % 10),
                        d <= 9,
                ;
                assert forall|k: int| 0 <= k < i + 1 implies is_ascii_digit(
                    #[trigger] digits@.take(i + 1)[k],
                ) by {
                    if k < i {
                        assert(digits@.take(i + 1)[k] == digits@.take(i as int)[k]);
                    }
                }
                if all_ascii_digits(digits@) {
                    lemma_digits_value_prefix(digits@, i + 1);
                }
            }
            return None;
        }
        proof {
            assert(acc * 10 + d <= max) by (nonlinear_arith)
                requires
                    !(acc > max / 10 || (acc == max / 10 && d > max % 10)),
                    d <= 9,
            ;
            assert forall|k: int| 0 <= k < i + 1 implies is_ascii_digit(
                #[trigger] digits@.take(i + 1)[k],
            ) by {
                if k < i {
                    assert(digits@.take(i + 1)[k] == digits@.take(i as int)[k]);
                }
            }
        }
        acc = acc * 10 + d;
        i = i + 1;
    }
    assert(digits@.take(n as int) =~= digits@);
    Some(acc)
}

/// Reads `text` as std's `FromStr` reads an unsigned integer type whose
/// largest value is `max`.
pub fn parse_unsigned(text: &[u8], max: u64) -> (r: Option<u64>)
    ensures
        r matches Some(v) ==> unsigned_value(text@, max as nat) == Some(v as nat),
        r is None ==> unsigned_value(text@, max as nat) is None,
{
    if text.len() > 0 && text[0] == 43u8 {
        let digits = &text[1..text.len()];
        assert(digits@ =~= text@.drop_first());
        parse_digits(digits, max)
    } else {
        parse_digits(text, max)
    }
}

/// True when `rest` is an accepted end of a message.
pub fn is_line_end_exec(rest: &[u8]) -> (r: bool)
    ensures
        r == is_line_end(rest@),
{
    let n = rest.len();
    if n == 0 {
        true
    } else if n == 1 {
        assert(rest@ == seq![13u8] <==> rest@[0] == 13u8) by {
            if rest@[0] == 13u8 {
                assert(rest@ =~= seq![13u8]);
            }
        }
        rest[0] == 13u8
    } else if n == 2 {
        assert(rest@ == seq![13u8, 10u8] <==> (rest@[0] == 13u8 && rest@[1] == 10u8)) by {
            if rest@[0] == 13u8 && rest@[1] == 10u8 {
                assert(rest@ =~= seq![13u8, 10u8]);
            }
        }
        rest[0] == 13u8 && rest[1] == 10u8
    } else {
        false
    }
}

/// True when `bytes` begins with `prefix`.
pub fn starts_with(bytes: &[u8], prefix: &[u8]) -> (r: bool)
    ensures
        r == (prefix@.len() <= bytes@.len() && bytes@.take(prefix@.len() as int) == prefix@),
{
    let n = prefix.len();
    if n > bytes.len() {
        return false;
    }
    let mut i: usize = 0;
    while i < n
        invariant
            n == prefix@.len(),
            n <= bytes@.len(),
            0 <= i <= n,
            forall|k: int| 0 <= k < i ==> bytes@[k] == prefix@[k],
        decreases n - i,
    {
        if bytes[i] != prefix[i] {
            assert(bytes@.take(n as int)[i as int] != prefix@[i as int]);
            return false;
        }
        i = i + 1;
    }
    assert(bytes@.take(n as int) =~= prefix@);
    true
}

/// Splits a message into its fields: `bytes` must be `prefix`, then fields of
/// the given widths separated by commas, then a line end.
pub fn split_fields<'a>(bytes: &'a [u8], prefix: &[u8], widths: &[usize]) -> (r: Option<
    Vec<&'a [u8]>,
>)
    ensures
        r is Some <==> split_fields_spec(bytes@, prefix@, widths@) is Some,
        r matches Some(fs) ==> fs@.len() == widths@.len() && forall|i: int|
            0 <= i < fs@.len() ==> (#[trigger] fs@[i])@ == split_fields_spec(
                bytes@,
                prefix@,
                widths@,
            ).unwrap()[i],
        r matches Some(fs) ==> forall|i: int|
            0 <= i < fs@.len() ==> (#[trigger] fs@[i])@.len() == widths@[i],
{
    let ghost pl = prefix@.len() as int;
    let n = widths.len();
    let len = bytes.len();
    if n == 0 {
        return None;
    }
    if !starts_with(bytes, prefix) {
        proof {
            lemma_field_offset_monotone(prefix@.len() as int, widths@, 1, n as int);
            assert(field_offset(prefix@.len() as int, widths@, 0) == prefix@.len());
            assert(field_offset(prefix@.len() as int, widths@, 1) == prefix@.len() + widths@[0]
                + 1);
        }
        return None;
    }
    let mut fields: Vec<&'a [u8]> = Vec::new();
    let mut pos: usize = prefix.len();
    let mut i: usize = 0;
    while i < n
        invariant
            n == widths@.len(),
            n > 0,
            len == bytes@.len(),
            pl == prefix@.len(),
            pl <= len,
            bytes@.take(pl) == prefix@,
            0 <= i <= n,
            i < n ==> pos == field_offset(pl, widths@, i as int),
            i == n ==> pos == fields_end(pl, widths@),
            pos <= len,
            fields@.len() == i,
            forall|k: int|
                0 <= k < i ==> (#[trigger] fields@[k])@ == field_text(bytes@, pl, widths@, k),
            forall|k: int| 0 <= k < i ==> (#[trigger] fields@[k])@.len() == widths@[k],
            forall|k: int|
                0 <= k < i && k < n - 1 ==> bytes@[#[trigger] field_offset(pl, widths@, k)
                    + widths@[k]] == 44u8,
        decreases n - i,
    {
        let w = widths[i];
        if w > len - pos {
            proof {
                lemma_field_offset_monotone(pl, widths@, i + 1, n as int);
                assert(field_offset(pl, widths@, i + 1) == field_offset(pl, widths@, i as int)
                    + widths@[i as int] + 1);
            }
            return None;
        }
        let field = &bytes[pos..pos + w];
        fields.push(field);
        pos = pos + w;
        if i + 1 < n {
            if pos >= len || bytes[pos] != 44u8 {
                proof {
                    lemma_field_offset_monotone(pl, widths@, i + 2, n as int);
                    assert(field_offset(pl, widths@, i + 1) == field_offset(pl, widths@, i as int)
                        + widths@[i as int] + 1);
                    assert(field_offset(pl, widths@, i + 2) == field_offset(pl, widths@, i + 1)
                        + widths@[i + 1] + 1);
                    if pos < len {
                        assert(bytes@[field_offset(pl, widths@, i as int) + widths@[i as int]]
                            != 44u8);
                    }
                }
                return None;
            }
            pos = pos + 1;
        }
        i = i + 1;
    }
    let rest = &bytes[pos..len];
    assert(rest@ =~= bytes@.skip(pos as int));
    if !is_line_end_exec(rest) {
        assert(!framed(bytes@, prefix@, widths@));
        return None;
    }
    proof {
        let fs = split_fields_spec(bytes@, prefix@, widths@).unwrap();
        assert forall|k: int| 0 <= k < fields@.len() implies (#[trigger] fields@[k])@ == fs[k] by {}
    }
    Some(fields)
}

} // verus!

verus! {

/// Reads field `i` of a split message as an unsigned integer no larger than `max`.
pub fn parse_field(fields: &Vec<&[u8]>, i: usize, max: u64) -> (r: Option<u64>)
    requires
        i < fields@.len(),
    ensures
        r matches Some(v) ==> unsigned_value(fields@[i as int]@, max as nat) == Some(v as nat),
        r is None ==> unsigned_value(fields@[i as int]@, max as nat) is None,
{
    parse_unsigned(fields[i], max)
}

} // verus!

verus! {

/// Ten to the power `n`.
pub open spec fn pow10(n: nat) -> nat
    decreases n,
{
    if n == 0 {
        1
    } else {
        10 * pow10((n - 1) as nat)
    }
}

proof fn lemma_digits_value_bound(s: Seq<u8>)
    requires
        all_ascii_digits(s),
    ensures
        digits_value(s) < pow10(s.len()),
    decreases s.len(),
{
    if s.len() > 0 {
        let d = s.drop_last();
        assert(all_ascii_digits(d));
        lemma_digits_value_bound(d);
        assert(is_ascii_digit(s[s.len() - 1]));
        let v = digits_value(d);
        let p = pow10(d.len());
        let e = (s.last() - 48) as nat;
        assert(v * 10 + e < 10 * p) by (nonlinear_arith)
            requires
                v < p,
                e <= 9,
        ;
    }
}

/// A number read from `n` characters has fewer than `n + 1` digits.
pub proof fn lemma_unsigned_value_bound(s: Seq<u8>, max: nat)
    ensures
        unsigned_value(s, max) matches Some(v) ==> v < pow10(s.len()),
{
    if s.len() > 0 && s[0] == 43u8 {
        let d = s.drop_first();
        if d.len() > 0 && all_ascii_digits(d) {
            lemma_digits_value_bound(d);
            assert(pow10(s.len()) == 10 * pow10(d.len()));
        }
    } else if s.len() > 0 && all_ascii_digits(s) {
        lemma_digits_value_bound(s);
    }
}

} // verus!
