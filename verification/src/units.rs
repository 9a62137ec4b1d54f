//! Fixed-point quantities. Lengths, times and speeds are held as whole
//! thousandths of their unit (microns, milliseconds, microns per second);
//! this module reads and writes them as decimal text.

use vstd::prelude::*;

verus! {

/// `c` is one of the ten decimal digits.
pub open spec fn is_digit(c: char) -> bool {
    '0' <= c <= '9'
}

/// The value of the decimal digit `c`.
pub open spec fn digit_value(c: char) -> nat {
    (c as int - '0' as int) as nat
}

/// The character that writes the digit `d`, for `d` below ten.
pub open spec fn digit_char(d: nat) -> char {
    ('0' as int + d) as char
}

/// The number that the digit string `s` writes; the empty string writes zero.
pub open spec fn digits_value(s: Seq<char>) -> nat
    decreases s.len(),
{
    if s.len() == 0 {
        0
    } else {
        digits_value(s.drop_last()) * 10 + digit_value(s.last())
    }
}

/// How many digits stand in `text` from offset `from` on, up to the first
/// character that is no digit.
pub open spec fn digit_run(text: Seq<char>, from: int) -> nat
    decreases text.len() - from,
{
    if 0 <= from < text.len() && is_digit(text[from]) {
        1 + digit_run(text, from + 1)
    } else {
        0
    }
}

/// The digit at place `i` of a fraction, or zero where the fraction is shorter.
pub open spec fn fraction_digit(frac: Seq<char>, i: int) -> nat {
    if 0 <= i < frac.len() {
        digit_value(frac[i])
    } else {
        0
    }
}

/// The first three places of a fraction, as a number of thousandths. Further
/// places are cut off.
pub open spec fn fraction_thousandths(frac: Seq<char>) -> nat {
    fraction_digit(frac, 0) * 100 + fraction_digit(frac, 1) * 10 + fraction_digit(frac, 2)
}

/// The number of thousandths that `text` writes in decimal notation, or `None`
/// where `text` is no decimal number.
///
/// A decimal number is a run of digits, optionally followed by a point and a
/// second run of digits, with at least one digit in all and nothing else:
/// `"12"`, `"0.05"`, `".5"` and `"7."` are numbers, `""`, `"."`, `"-1"` and
/// `"1e3"` are not.
pub open spec fn decimal_thousandths(text: Seq<char>) -> Option<nat> {
    let whole = digit_run(text, 0) as int;
    if whole == text.len() {
        if whole > 0 {
            Some(digits_value(text) * 1000)
        } else {
            None
        }
    } else if text[whole] == '.' && whole + 1 + digit_run(text, whole + 1) == text.len()
        && text.len() > 1 {
        Some(
            digits_value(text.take(whole)) * 1000 + fraction_thousandths(
                text.skip(whole + 1),
            ),
        )
    } else {
        None
    }
}

/// The decimal digits of `n`, most significant first, without leading zeros
/// (zero is written `"0"`).
pub open spec fn decimal_digits(n: nat) -> Seq<char>
    decreases n,
{
    if n < 10 {
        seq![digit_char(n)]
    } else {
        decimal_digits(n / 10).push(digit_char(n % 10))
    }
}

/// The places after the point of `r` thousandths, for `0 < r < 1000`, with
/// trailing zeros left off.
pub open spec fn fraction_digits(r: nat) -> Seq<char> {
    if r % 10 != 0 {
        seq![digit_char(r / 100), digit_char((r / 10) % 10), digit_char(r % 10)]
    } else if (r / 10) % 10 != 0 {
        seq![digit_char(r / 100), digit_char((r / 10) % 10)]
    } else {
        seq![digit_char(r / 100)]
    }
}

/// `n` thousandths written as a decimal number of units, as short as it can
/// be: `55000` is `"55"`, `50` is `"0.05"`, `1250` is `"1.25"`.
pub open spec fn thousandths_text(n: nat) -> Seq<char> {
    if n % 1000 == 0 {
        decimal_digits(n / 1000)
    } else {
        decimal_digits(n / 1000).push('.') + fraction_digits(n % 1000)
    }
}

/// Extending a digit string never lowers the number it writes.
pub proof fn lemma_digits_value_prefix(s: Seq<char>, k: int)
    requires
        0 <= k <= s.len(),
    ensures
        digits_value(s.take(k)) <= digits_value(s),
    decreases s.len() - k,
{
    if k == s.len() {
        assert(s.take(k) == s);
    } else {
        lemma_digits_value_prefix(s, k + 1);
        assert(s.take(k + 1).drop_last() == s.take(k));
    }
}

fn is_digit_char(c: char) -> (b: bool)
    ensures
        b == is_digit(c),
{
    '0' <= c && c <= '9'
}

fn value_of_digit(c: char) -> (d: u64)
    requires
        is_digit(c),
    ensures
        d == digit_value(c),
        d < 10,
{
    (c as u64) - ('0' as u64)
}

fn char_of_digit(d: u64) -> (c: char)
    requires
        d < 10,
    ensures
        c == digit_char(d as nat),
        is_digit(c),
        digit_value(c) == d,
{
    (('0' as u8) + (d as u8)) as char
}

/// Reads a decimal number as a whole number of thousandths, cutting off what
/// lies beyond the third place. `None` where `text` is no decimal number or
/// the result does not fit.
pub fn parse_thousandths(text: &[char]) -> (r: Option<u64>)
    ensures
        r == match decimal_thousandths(text@) {
            Some(v) => if v <= u64::MAX {
                Some(v as u64)
            } else {
                None
            },
            None => None,
        },
{
    let n = text.len();
    let mut acc: u64 = 0;
    let mut i: usize = 0;
    // the whole part
    while i < n && is_digit_char(text[i])
        invariant
            i <= n,
            n == text.len(),
            i + digit_run(text@, i as int) == digit_run(text@, 0),
            acc == digits_value(text@.take(i as int)),
            forall|k: int| 0 <= k < i ==> is_digit(text@[k]),
        decreases n - i,
    {
        let d = value_of_digit(text[i]);
        assert(text@.take(i + 1).drop_last() == text@.take(i as int));
        if acc > (u64::MAX - d) / 10 {
            proof {
                // the whole part alone is already too large
                let whole = digit_run(text@, 0) as int;
                lemma_digit_run_bound(text@, i as int);
                lemma_digits_value_prefix(text@.take(whole), i + 1);
                assert(text@.take(whole).take(i + 1) == text@.take(i + 1));
                assert(text@.take(text.len() as int) == text@);
            }
            return None;
        }
        acc = acc * 10 + d;
        i += 1;
    }
    let whole = i;
    assert(digit_run(text@, whole as int) == 0);
    if whole == n {
        assert(text@.take(n as int) == text@);
        if whole == 0 || acc > u64::MAX / 1000 {
            return None;
        }
        return Some(acc * 1000);
    }
    if text[whole] != '.' || n == 1 {
        return None;
    }
    // the places after the point
    let mut j: usize = whole + 1;
    while j < n && is_digit_char(text[j])
        invariant
            whole < j <= n,
            n == text.len(),
            j + digit_run(text@, j as int) == whole + 1 + digit_run(text@, whole + 1),
            forall|k: int| whole < k < j ==> is_digit(text@[k]),
        decreases n - j,
    {
        j += 1;
    }
    assert(digit_run(text@, j as int) == 0);
    if j != n {
        return None;
    }
    let ghost frac = text@.skip(whole + 1);
    let mut milli: u64 = 0;
    let places = n - whole - 1;
    if places > 0 {
        milli = milli + value_of_digit(text[whole + 1]) * 100;
    }
    if places > 1 {
        milli = milli + value_of_digit(text[whole + 2]) * 10;
    }
    if places > 2 {
        milli = milli + value_of_digit(text[whole + 3]);
    }
    assert(milli == fraction_thousandths(frac));
    if acc > (u64::MAX - milli) / 1000 {
        return None;
    }
    Some(acc * 1000 + milli)
}

/// The digits counted by `digit_run` lie inside the text.
pub proof fn lemma_digit_run_bound(text: Seq<char>, from: int)
    requires
        0 <= from <= text.len(),
    ensures
        from + digit_run(text, from) <= text.len(),
    decreases text.len() - from,
{
    if from < text.len() && is_digit(text[from]) {
        lemma_digit_run_bound(text, from + 1);
    }
}

/// The whole number that `text` writes: one or more digits and nothing
/// else.
pub open spec fn whole_number(text: Seq<char>) -> Option<nat> {
    if text.len() > 0 && digit_run(text, 0) == text.len() {
        Some(digits_value(text))
    } else {
        None
    }
}

/// Reads a whole number. `None` where `text` is none or the number does not
/// fit.
pub fn parse_whole(text: &[char]) -> (r: Option<u64>)
    ensures
        r == match whole_number(text@) {
            Some(v) => if v <= u64::MAX {
                Some(v as u64)
            } else {
                None
            },
            None => None,
        },
{
    let n = text.len();
    let mut acc: u64 = 0;
    let mut i: usize = 0;
    while i < n && is_digit_char(text[i])
        invariant
            i <= n,
            n == text.len(),
            i + digit_run(text@, i as int) == digit_run(text@, 0),
            acc == digits_value(text@.take(i as int)),
        decreases n - i,
    {
        let d = value_of_digit(text[i]);
        assert(text@.take(i + 1).drop_last() == text@.take(i as int));
        if acc > (u64::MAX - d) / 10 {
            proof {
                lemma_digits_value_prefix(text@, i + 1);
            }
            return None;
        }
        acc = acc * 10 + d;
        i += 1;
    }
    assert(digit_run(text@, i as int) == 0);
    if i != n || n == 0 {
        return None;
    }
    assert(text@.take(n as int) == text@);
    Some(acc)
}

/// Appends the decimal digits of `n` to `out`.
pub fn push_decimal(out: &mut Vec<char>, n: u64)
    ensures
        final(out)@ == old(out)@ + decimal_digits(n as nat),
    decreases n,
{
    if n >= 10 {
        push_decimal(out, n / 10);
    }
    out.push(char_of_digit(n % 10));
}

/// Writes `n` thousandths as a decimal number of units, as short as it can
/// be.
pub fn format_thousandths(n: u64) -> (out: Vec<char>)
    ensures
        out@ == thousandths_text(n as nat),
{
    let mut out: Vec<char> = Vec::new();
    push_decimal(&mut out, n / 1000);
    let r = n % 1000;
    if r != 0 {
        out.push('.');
        out.push(char_of_digit(r / 100));
        if r % 100 != 0 {
            out.push(char_of_digit((r / 10) % 10));
            if r % 10 != 0 {
                out.push(char_of_digit(r % 10));
            }
        }
    }
    out
}

/// The decimal digits of a number are digits, at least one, and write that
/// number.
pub proof fn lemma_decimal_digits(n: nat)
    ensures
        decimal_digits(n).len() >= 1,
        forall|i: int| 0 <= i < decimal_digits(n).len() ==> is_digit(#[trigger] decimal_digits(n)[i]),
        digits_value(decimal_digits(n)) == n,
    decreases n,
{
    if n < 10 {
        let s = decimal_digits(n);
        assert(s.drop_last().len() == 0);
        assert(digits_value(s.drop_last()) == 0);
    } else {
        lemma_decimal_digits(n / 10);
        let s = decimal_digits(n);
        assert(s.drop_last() == decimal_digits(n / 10));
    }
}

/// Where every character of `text` from `from` up to `to` is a digit, and
/// `to` is the end of the text or a character that is no digit, the run of
/// digits from `from` ends at `to`.
proof fn lemma_digit_run_to(text: Seq<char>, from: int, to: int)
    requires
        0 <= from <= to <= text.len(),
        forall|i: int| from <= i < to ==> is_digit(#[trigger] text[i]),
        to < text.len() ==> !is_digit(text[to]),
    ensures
        digit_run(text, from) == to - from,
    decreases to - from,
{
    if from < to {
        lemma_digit_run_to(text, from + 1, to);
    }
}

/// What is written reads back as the same number: the text that
/// `thousandths_text` gives for a number of thousandths is a decimal number,
/// and `decimal_thousandths` reads that number from it.
pub proof fn lemma_thousandths_round_trip(n: nat)
    ensures
        decimal_thousandths(thousandths_text(n)) == Some(n),
{
    let q = n / 1000;
    let r = n % 1000;
    let whole = decimal_digits(q);
    let text = thousandths_text(n);
    lemma_decimal_digits(q);
    if r == 0 {
        assert(text == whole);
        lemma_digit_run_to(text, 0, text.len() as int);
    } else {
        let places = fraction_digits(r);
        assert(text == whole.push('.') + places);
        let w = whole.len() as int;
        assert(text[w] == '.');
        assert forall|i: int| 0 <= i < w implies is_digit(#[trigger] text[i]) by {
            assert(text[i] == whole[i]);
        }
        lemma_digit_run_to(text, 0, w);
        assert forall|i: int| w + 1 <= i < text.len() implies is_digit(#[trigger] text[i]) by {
            assert(text[i] == places[i - w - 1]);
        }
        lemma_digit_run_to(text, w + 1, text.len() as int);
        assert(text.take(w) == whole);
        assert(text.skip(w + 1) == places);
        assert(fraction_thousandths(places) == r);
    }
}

} // verus!
