//! Whole numbers as text: the digits that a number is written with, and the
//! number that digits stand for.

use vstd::prelude::*;

verus! {

/// The decimal digits of `n`, the most significant first.
pub open spec fn decimal_digits(n: nat) -> Seq<u8>
    decreases n,
{
    if n < 10 {
        seq![(48 + n) as u8]
    } else {
        decimal_digits(n / 10).push((48 + n % 10) as u8)
    }
}

/// The decimal text of `i`: a minus sign where it is negative, then the
/// digits of its magnitude.
pub open spec fn signed_decimal(i: int) -> Seq<u8> {
    if i < 0 {
        seq![45u8] + decimal_digits((-i) as nat)
    } else {
        decimal_digits(i as nat)
    }
}

/// Writes `n` in decimal digits.
pub fn decimal_text(n: i64) -> (text: Vec<u8>)
    ensures
        text@ == signed_decimal(n as int),
{
    let mut rest: u64 = if n < 0 {
        (0 - (n as i128)) as u64
    } else {
        n as u64
    };
    let ghost magnitude = rest as nat;
    let mut text: Vec<u8> = Vec::new();
    text.push((48 + rest % 10) as u8);
    rest = rest / 10;
    while rest > 0
        invariant
            decimal_digits(magnitude) == if rest > 0 {
                decimal_digits(rest as nat) + text@
            } else {
                text@
            },
        decreases rest,
    {
        let ghost before = text@;
        text.insert(0, (48 + rest % 10) as u8);
        proof {
            assert(text@ =~= seq![(48 + rest % 10) as u8] + before);
            if rest >= 10 {
                assert(decimal_digits(rest as nat) + before =~= decimal_digits((rest / 10) as nat)
                    + text@);
            } else {
                assert(decimal_digits(rest as nat) + before =~= text@);
            }
        }
        rest = rest / 10;
    }
    if n < 0 {
        text.insert(0, 45);
        assert(text@ =~= seq![45u8] + decimal_digits(magnitude));
    }
    text
}

/// The value of `byte` as a digit: `0` to `9`, then the letters, of either
/// case, from ten on. A byte that is no digit counts as 36, beyond every
/// radix.
pub open spec fn digit(byte: u8) -> int {
    if 48 <= byte <= 57 {
        byte - 48
    } else if 97 <= byte <= 122 {
        byte - 87
    } else if 65 <= byte <= 90 {
        byte - 55
    } else {
        36
    }
}

/// Whether `s` is one digit or more of the radix.
pub open spec fn is_digits(s: Seq<u8>, radix: int) -> bool {
    s.len() > 0 && forall|i: int| 0 <= i < s.len() ==> digit(#[trigger] s[i]) < radix
}

/// The number that the digits of `s` stand for, the most significant first.
pub open spec fn digits_value(s: Seq<u8>, radix: int) -> int
    decreases s.len(),
{
    if s.len() == 0 {
        0
    } else {
        digits_value(s.drop_last(), radix) * radix + digit(s.last())
    }
}

/// The number that `s` stands for, where `s` is digits of the radix and the
/// number is no more than `limit`.
pub open spec fn number(s: Seq<u8>, radix: int, limit: int) -> Option<int> {
    if is_digits(s, radix) && digits_value(s, radix) <= limit {
        Some(digits_value(s, radix))
    } else {
        None
    }
}

/// `s` without a plus sign in front.
pub open spec fn after_plus(s: Seq<u8>) -> Seq<u8> {
    if s.len() > 0 && s[0] == 43 {
        s.skip(1)
    } else {
        s
    }
}

/// `s` without a leading `0x` or `0X`.
pub open spec fn after_hex_prefix(s: Seq<u8>) -> Seq<u8> {
    if s.len() >= 2 && s[0] == 48 && (s[1] == 120 || s[1] == 88) {
        s.skip(2)
    } else {
        s
    }
}

/// The unsigned number that the text `s` stands for: an optional plus sign
/// and then digits of the radix, nothing before and nothing after, with a
/// value that a `usize` holds.
pub open spec fn parse_usize(s: Seq<u8>, radix: int) -> Option<usize> {
    match number(after_plus(s), radix, usize::MAX as int) {
        Some(value) => Some(value as usize),
        None => None,
    }
}

/// The unsigned number that the hexadecimal text `s` stands for; a leading
/// `0x` or `0X` is left out.
pub open spec fn parse_hex(s: Seq<u8>) -> Option<usize> {
    parse_usize(after_hex_prefix(s), 16)
}

/// The signed number that the decimal text `s` stands for: an optional sign
/// and then digits, with a value that an `i64` holds.
pub open spec fn parse_i64(s: Seq<u8>) -> Option<i64> {
    if s.len() > 0 && s[0] == 45 {
        match number(s.skip(1), 10, 0x8000_0000_0000_0000) {
            Some(value) => Some((-value) as i64),
            None => None,
        }
    } else {
        match number(after_plus(s), 10, i64::MAX as int) {
            Some(value) => Some(value as i64),
            None => None,
        }
    }
}

/// The digits of a part of a text are worth no more than those of the whole.
pub proof fn lemma_digits_value_grows(s: Seq<u8>, radix: int, k: int)
    requires
        1 <= radix,
        0 <= k <= s.len(),
    ensures
        0 <= digits_value(s.take(k), radix) <= digits_value(s, radix),
    decreases s.len() - k,
{
    if k == s.len() {
        assert(s.take(k) =~= s);
        lemma_digits_value_positive(s, radix);
    } else {
        lemma_digits_value_grows(s.drop_last(), radix, k);
        assert(s.drop_last().take(k) =~= s.take(k));
        let most = digits_value(s.drop_last(), radix);
        assert(most * radix >= most) by (nonlinear_arith)
            requires
                most >= 0,
                radix >= 1,
        ;
    }
}

/// The value of digits is not negative.
pub proof fn lemma_digits_value_positive(s: Seq<u8>, radix: int)
    requires
        1 <= radix,
    ensures
        0 <= digits_value(s, radix),
    decreases s.len(),
{
    if s.len() > 0 {
        lemma_digits_value_positive(s.drop_last(), radix);
        let most = digits_value(s.drop_last(), radix);
        assert(most * radix >= 0) by (nonlinear_arith)
            requires
                most >= 0,
                radix >= 1,
        ;
    }
}

/// The decimal digits of a number are digits, begin with no sign, and stand
/// for that number.
pub proof fn lemma_decimal_digits(n: nat)
    ensures
        is_digits(decimal_digits(n), 10),
        48 <= decimal_digits(n)[0] <= 57,
        digits_value(decimal_digits(n), 10) == n,
    decreases n,
{
    if n < 10 {
        let s = decimal_digits(n);
        assert(s.drop_last() =~= Seq::<u8>::empty());
        assert(digits_value(s.drop_last(), 10) == 0);
    } else {
        lemma_decimal_digits(n / 10);
        let most = decimal_digits(n / 10);
        let s = decimal_digits(n);
        assert(s.drop_last() =~= most);
        assert(s[0] == most[0]);
    }
}

/// The decimal text of a number is read back as that number.
pub proof fn lemma_decimal_round_trip(i: i64)
    ensures
        parse_i64(signed_decimal(i as int)) == Some(i),
{
    if i < 0 {
        lemma_decimal_digits((-i) as nat);
        let text = signed_decimal(i as int);
        assert(text.skip(1) =~= decimal_digits((-i) as nat));
    } else {
        lemma_decimal_digits(i as nat);
    }
}

/// The value of a byte as a digit.
fn digit_of(byte: u8) -> (value: u64)
    ensures
        value == digit(byte),
{
    if 48 <= byte && byte <= 57 {
        (byte - 48) as u64
    } else if 97 <= byte && byte <= 122 {
        (byte - 87) as u64
    } else if 65 <= byte && byte <= 90 {
        (byte - 55) as u64
    } else {
        36
    }
}

/// Reads what follows place `from` of `text` as digits of the radix that
/// stand for a number up to `limit`.
pub fn digits_from(text: &[u8], from: usize, radix: u64, limit: u64) -> (value: Option<u64>)
    requires
        from <= text@.len(),
        2 <= radix <= 36,
    ensures
        match value {
            Some(v) => number(text@.skip(from as int), radix as int, limit as int) == Some(
                v as int,
            ),
            None => number(text@.skip(from as int), radix as int, limit as int) is None,
        },
{
    let ghost digits = text@.skip(from as int);
    if from >= text.len() {
        return None;
    }
    let mut total: u64 = 0;
    let mut i: usize = from;
    while i < text.len()
        invariant
            from <= i <= text@.len(),
            digits == text@.skip(from as int),
            2 <= radix <= 36,
            total == digits_value(digits.take(i - from), radix as int),
            total <= limit,
            forall|j: int| 0 <= j < i - from ==> digit(#[trigger] digits[j]) < radix,
        decreases text@.len() - i,
    {
        let d = digit_of(text[i]);
        proof {
            assert(digits[i - from] == text@[i as int]);
            assert(digits.take(i - from + 1).drop_last() =~= digits.take(i - from));
            lemma_digits_value_grows(digits, radix as int, i - from + 1);
        }
        if d >= radix {
            return None;
        }
        let next = match total.checked_mul(radix) {
            Some(shifted) => shifted.checked_add(d),
            None => None,
        };
        match next {
            Some(next) => {
                if next > limit {
                    return None;
                }
                total = next;
            },
            None => {
                return None;
            },
        }
        i += 1;
    }
    proof {
        assert(digits.take(i - from) =~= digits);
    }
    Some(total)
}

/// The unsigned number that a text stands for in the radix; see
/// [`parse_usize`].
pub fn usize_from_text(text: &[u8], radix: u64) -> (value: Option<usize>)
    requires
        2 <= radix <= 36,
    ensures
        value == parse_usize(text@, radix as int),
{
    let from: usize = if text.len() > 0 && text[0] == 43 {
        1
    } else {
        0
    };
    proof {
        assert(text@.skip(0) =~= text@);
    }
    match digits_from(text, from, radix, usize::MAX as u64) {
        Some(value) => Some(value as usize),
        None => None,
    }
}

/// The unsigned number that a hexadecimal text stands for; see
/// [`parse_hex`].
pub fn usize_from_hex(text: &[u8]) -> (value: Option<usize>)
    ensures
        value == parse_hex(text@),
{
    let len = text.len();
    if len >= 2 && text[0] == 48 && (text[1] == 120 || text[1] == 88) {
        usize_from_text(vstd::slice::slice_subrange(text, 2, len), 16)
    } else {
        usize_from_text(text, 16)
    }
}

/// The signed number that a decimal text stands for; see [`parse_i64`].
pub fn i64_from_text(text: &[u8]) -> (value: Option<i64>)
    ensures
        value == parse_i64(text@),
{
    proof {
        assert(text@.skip(0) =~= text@);
    }
    if text.len() > 0 && text[0] == 45 {
        match digits_from(text, 1, 10, 0x8000_0000_0000_0000) {
            Some(value) => Some((0 - (value as i128)) as i64),
            None => None,
        }
    } else {
        let from: usize = if text.len() > 0 && text[0] == 43 {
            1
        } else {
            0
        };
        match digits_from(text, from, 10, 0x7fff_ffff_ffff_ffff) {
            Some(value) => Some(value as i64),
            None => None,
        }
    }
}

/// The first place at or after `from` where no decimal digit stands.
pub open spec fn digits_end(s: Seq<u8>, from: int) -> int
    decreases s.len() - from,
{
    if 0 <= from < s.len() && 48 <= s[from] <= 57 {
        digits_end(s, from + 1)
    } else {
        from
    }
}

/// The place after the sign, where a plus or minus sign stands at `from`;
/// else `from`.
pub open spec fn after_sign(s: Seq<u8>, from: int) -> int {
    if 0 <= from < s.len() && (s[from] == 43 || s[from] == 45) {
        from + 1
    } else {
        from
    }
}

/// Whether an exponent begins at `from` and ends the text: `e` or `E`, an
/// optional sign and one digit or more.
pub open spec fn is_exponent(s: Seq<u8>, from: int) -> bool {
    &&& 0 <= from < s.len()
    &&& (s[from] == 101 || s[from] == 69)
    &&& after_sign(s, from + 1) < digits_end(s, after_sign(s, from + 1))
    &&& digits_end(s, after_sign(s, from + 1)) == s.len()
}

/// Whether `s` is a decimal number: an optional sign; digits with at most one
/// point before, between or after them, and one digit at the least; and an
/// optional exponent. Nothing stands before it and nothing after.
pub open spec fn is_decimal_number(s: Seq<u8>) -> bool {
    let whole = after_sign(s, 0);
    let point = digits_end(s, whole);
    if point < s.len() && s[point] == 46 {
        let end = digits_end(s, point + 1);
        end - whole >= 2 && (end == s.len() || is_exponent(s, end))
    } else {
        point - whole >= 1 && (point == s.len() || is_exponent(s, point))
    }
}

/// See [`digits_end`].
fn end_of_digits(text: &[u8], from: usize) -> (end: usize)
    requires
        from <= text@.len(),
    ensures
        end == digits_end(text@, from as int),
        from <= end <= text@.len(),
{
    let mut i: usize = from;
    while i < text.len() && 48 <= text[i] && text[i] <= 57
        invariant
            from <= i <= text@.len(),
            digits_end(text@, from as int) == digits_end(text@, i as int),
        decreases text@.len() - i,
    {
        i += 1;
    }
    i
}

/// See [`after_sign`].
fn skip_sign(text: &[u8], from: usize) -> (next: usize)
    requires
        from <= text@.len(),
    ensures
        next == after_sign(text@, from as int),
        from <= next <= text@.len(),
{
    if from < text.len() && (text[from] == 43 || text[from] == 45) {
        from + 1
    } else {
        from
    }
}

/// See [`is_exponent`].
fn exponent_at(text: &[u8], from: usize) -> (found: bool)
    requires
        from <= text@.len(),
    ensures
        found == is_exponent(text@, from as int),
{
    if from >= text.len() || (text[from] != 101 && text[from] != 69) {
        return false;
    }
    let digits = skip_sign(text, from + 1);
    let end = end_of_digits(text, digits);
    digits < end && end == text.len()
}

/// Whether a text is a decimal number; see [`is_decimal_number`].
pub fn decimal_number(text: &[u8]) -> (found: bool)
    ensures
        found == is_decimal_number(text@),
{
    let whole = skip_sign(text, 0);
    let point = end_of_digits(text, whole);
    if point < text.len() && text[point] == 46 {
        let end = end_of_digits(text, point + 1);
        end - whole >= 2 && (end == text.len() || exponent_at(text, end))
    } else {
        point - whole >= 1 && (point == text.len() || exponent_at(text, point))
    }
}

} // verus!
