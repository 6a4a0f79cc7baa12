//! Exact parsing of the probe's decimal millisecond figures.
//!
//! The probe reports latencies as decimal numbers of milliseconds (for
//! example `12.28`). The library stores every duration as a whole number of
//! microseconds, so such a figure is read exactly — no floating point — as
//! `integer part * 1000` microseconds plus the first three fraction digits
//! weighted `100/10/1`. Fraction digits past the third are below one
//! microsecond and are dropped (the value is floored).

use vstd::prelude::*;

verus! {

/// A byte that is an ASCII decimal digit.
pub open spec fn is_digit(b: u8) -> bool {
    48 <= b <= 57
}

/// Number of leading ASCII digits of `s`.
pub open spec fn digit_prefix_len(s: Seq<u8>) -> int
    decreases s.len(),
{
    if s.len() == 0 || !is_digit(s[0]) {
        0
    } else {
        1 + digit_prefix_len(s.drop_first())
    }
}

/// The integer a sequence of ASCII digits denotes, most significant first.
pub open spec fn digits_val(s: Seq<u8>) -> int
    decreases s.len(),
{
    if s.len() == 0 {
        0
    } else {
        10 * digits_val(s.drop_last()) + (s.last() - 48)
    }
}

/// The `i`-th digit of a fraction, or 0 where the fraction is shorter.
pub open spec fn fraction_digit(f: Seq<u8>, i: int) -> int {
    if i < f.len() {
        f[i] - 48
    } else {
        0
    }
}

/// Microseconds contributed by the fraction digits of a millisecond figure:
/// the first three digits weigh 100, 10 and 1; later digits are below one
/// microsecond and do not count.
pub open spec fn fraction_micros(f: Seq<u8>) -> int {
    100 * fraction_digit(f, 0) + 10 * fraction_digit(f, 1) + fraction_digit(f, 2)
}

/// Most digits accepted before the decimal point. Twelve digits of
/// milliseconds keep the microsecond count well inside `i64`.
pub const MAX_INT_DIGITS: usize = 12;

/// The texts accepted as a millisecond figure: one to twelve ASCII digits,
/// optionally followed by a point and at least one further digit. No sign,
/// no exponent, nothing else.
pub open spec fn valid_ms_text(s: Seq<u8>) -> bool {
    let p = digit_prefix_len(s);
    &&& 1 <= p <= MAX_INT_DIGITS
    &&& (p == s.len() || (s[p] == 46 && p + 1 < s.len() && digit_prefix_len(s.skip(p + 1))
        == s.len() - p - 1))
}

/// The microsecond count a valid millisecond text denotes (floored at one
/// microsecond).
pub open spec fn ms_text_micros(s: Seq<u8>) -> int {
    let p = digit_prefix_len(s);
    1000 * digits_val(s.take(p)) + if p == s.len() {
        0
    } else {
        fraction_micros(s.skip(p + 1))
    }
}

/// Ten to the `k`-th power, to bound what a digit string can denote.
pub open spec fn pow10(k: nat) -> int
    decreases k,
{
    if k == 0 {
        1
    } else {
        10 * pow10((k - 1) as nat)
    }
}

proof fn lemma_pow10_pos(a: nat)
    ensures
        1 <= pow10(a),
    decreases a,
{
    if a > 0 {
        lemma_pow10_pos((a - 1) as nat);
    }
}

proof fn lemma_pow10_mono(a: nat, b: nat)
    requires
        a <= b,
    ensures
        pow10(a) <= pow10(b),
        1 <= pow10(a),
    decreases b,
{
    lemma_pow10_pos(a);
    if a < b {
        lemma_pow10_mono(a, (b - 1) as nat);
        lemma_pow10_pos((b - 1) as nat);
    }
}

proof fn lemma_pow10_values()
    ensures
        pow10(11) == 100_000_000_000,
        pow10(12) == 1_000_000_000_000,
{
    reveal_with_fuel(pow10, 13);
}

/// Most digits accepted in a whole-number figure. Eighteen digits keep the
/// value well inside `i64`.
pub const MAX_I64_DIGITS: usize = 18;

/// The texts accepted as a whole-number figure: an optional minus, then one
/// to eighteen ASCII digits, nothing else.
pub open spec fn valid_int_text(s: Seq<u8>) -> bool {
    if s.len() > 0 && s[0] == 45 {
        &&& 1 <= s.len() - 1 <= MAX_I64_DIGITS
        &&& digit_prefix_len(s.drop_first()) == s.len() - 1
    } else {
        &&& 1 <= s.len() <= MAX_I64_DIGITS
        &&& digit_prefix_len(s) == s.len()
    }
}

/// The integer a whole-number text denotes.
pub open spec fn int_text_val(s: Seq<u8>) -> int {
    if s.len() > 0 && s[0] == 45 {
        -digits_val(s.drop_first())
    } else {
        digits_val(s)
    }
}

proof fn lemma_pow10_18()
    ensures
        pow10(18) == 1_000_000_000_000_000_000,
{
    reveal_with_fuel(pow10, 19);
}

/// Scanning: if the first `i` bytes are digits and byte `i` (if any) is not,
/// then `i` is exactly the digit prefix length.
proof fn lemma_digit_prefix_len_is(s: Seq<u8>, i: int)
    requires
        0 <= i <= s.len(),
        forall|j: int| 0 <= j < i ==> is_digit(s[j]),
        i == s.len() || !is_digit(s[i]),
    ensures
        digit_prefix_len(s) == i,
    decreases i,
{
    if i == 0 {
    } else {
        assert(is_digit(s[0]));
        assert forall|j: int| 0 <= j < i - 1 implies is_digit(s.drop_first()[j]) by {
            assert(s.drop_first()[j] == s[j + 1]);
        }
        if i < s.len() {
            assert(s.drop_first()[i - 1] == s[i]);
        }
        lemma_digit_prefix_len_is(s.drop_first(), i - 1);
    }
}

proof fn lemma_digit_prefix_len_nonneg(s: Seq<u8>)
    ensures
        digit_prefix_len(s) >= 0,
    decreases s.len(),
{
    if !(s.len() == 0 || !is_digit(s[0])) {
        lemma_digit_prefix_len_nonneg(s.drop_first());
    }
}

/// Scanning, lower half: if the first `i` bytes are digits, the digit prefix
/// is at least `i` long.
proof fn lemma_digit_prefix_len_at_least(s: Seq<u8>, i: int)
    requires
        0 <= i <= s.len(),
        forall|j: int| 0 <= j < i ==> is_digit(s[j]),
    ensures
        digit_prefix_len(s) >= i,
    decreases i,
{
    lemma_digit_prefix_len_nonneg(s);
    if i > 0 {
        assert(is_digit(s[0]));
        assert forall|j: int| 0 <= j < i - 1 implies is_digit(s.drop_first()[j]) by {
            assert(s.drop_first()[j] == s[j + 1]);
        }
        lemma_digit_prefix_len_at_least(s.drop_first(), i - 1);
        assert(digit_prefix_len(s) == 1 + digit_prefix_len(s.drop_first()));
    }
}

/// Reading one more digit multiplies the value by ten and adds the digit.
proof fn lemma_digits_val_step(s: Seq<u8>, k: int)
    requires
        0 <= k < s.len(),
    ensures
        digits_val(s.take(k + 1)) == 10 * digits_val(s.take(k)) + (s[k] - 48),
{
    assert(s.take(k + 1).drop_last() =~= s.take(k));
    assert(s.take(k + 1).last() == s[k]);
}

/// A string of `len` digits denotes less than ten to the `len`.
proof fn lemma_digits_val_bound(s: Seq<u8>)
    requires
        forall|j: int| 0 <= j < s.len() ==> is_digit(s[j]),
    ensures
        0 <= digits_val(s) < pow10(s.len()),
    decreases s.len(),
{
    lemma_pow10_pos(s.len());
    if s.len() > 0 {
        assert forall|j: int| 0 <= j < s.drop_last().len() implies is_digit(s.drop_last()[j]) by {
            assert(s.drop_last()[j] == s[j]);
        }
        lemma_digits_val_bound(s.drop_last());
        assert(is_digit(s.last()));
        assert(pow10(s.len()) == 10 * pow10((s.len() - 1) as nat));
    }
}

/// Reads a decimal millisecond figure as an exact count of microseconds.
///
/// Accepts exactly the texts of `valid_ms_text` and returns exactly
/// `ms_text_micros` of them; everything else (sign, exponent, empty or
/// overlong integer part, trailing point) is refused with `None`.
pub fn parse_millis_to_micros(text: &[u8]) -> (r: Option<i64>)
    ensures
        r is Some <==> valid_ms_text(text@),
        r matches Some(v) ==> v as int == ms_text_micros(text@),
        r matches Some(v) ==> 0 <= v <= 1_000_000_000_000_999,
{
    let n = text.len();
    // Scan the digits before the point.
    let mut p: usize = 0;
    while p < n && 48 <= text[p] && text[p] <= 57
        invariant
            0 <= p <= n,
            p <= MAX_INT_DIGITS,
            n == text@.len(),
            forall|j: int| 0 <= j < p ==> is_digit(text@[j]),
        decreases n - p,
    {
        p = p + 1;
        if p > MAX_INT_DIGITS {
            proof {
                lemma_digit_prefix_len_at_least(text@, p as int);
            }
            return None;
        }
    }
    proof {
        lemma_digit_prefix_len_is(text@, p as int);
    }
    if p == 0 {
        return None;
    }
    // The digits before the point, by Horner's rule.
    let mut int_val: i64 = 0;
    let mut k: usize = 0;
    while k < p
        invariant
            0 <= k <= p <= n,
            p <= MAX_INT_DIGITS,
            n == text@.len(),
            forall|j: int| 0 <= j < p ==> is_digit(text@[j]),
            int_val == digits_val(text@.take(k as int)),
            0 <= int_val < pow10(k as nat),
        decreases p - k,
    {
        proof {
            lemma_digits_val_step(text@, k as int);
            lemma_pow10_mono((k + 1) as nat, MAX_INT_DIGITS as nat);
            lemma_pow10_values();
            assert(pow10((k + 1) as nat) == 10 * pow10(k as nat));
        }
        int_val = 10 * int_val + (text[k] - 48) as i64;
        k = k + 1;
    }
    proof {
        lemma_pow10_mono(p as nat, MAX_INT_DIGITS as nat);
        lemma_pow10_values();
    }
    if p == n {
        proof {
            assert(text@.take(p as int) =~= text@);
        }
        return Some(1000 * int_val);
    }
    // A fraction must be a point followed by at least one digit.
    if text[p] != 46 || p + 1 == n {
        return None;
    }
    // Every byte after the point must be a digit.
    let mut j: usize = p + 1;
    while j < n
        invariant
            p + 1 <= j <= n,
            p + 2 <= n,
            1 <= p <= MAX_INT_DIGITS,
            n == text@.len(),
            digit_prefix_len(text@) == p as int,
            text@[p as int] == 46,
            forall|i: int| p + 1 <= i < j ==> is_digit(text@[i]),
        decreases n - j,
    {
        if text[j] < 48 || text[j] > 57 {
            proof {
                let s = text@;
                assert forall|i2: int| 0 <= i2 < j - p - 1 implies is_digit(#[trigger] s.skip(p as int + 1)[i2]) by {
                    assert(s.skip(p as int + 1)[i2] == s[p + 1 + i2]);
                }
                assert(s.skip(p as int + 1)[j - p - 1] == s[j as int]);
                lemma_digit_prefix_len_is(s.skip(p as int + 1), j - p - 1);
            }
            return None;
        }
        j = j + 1;
    }
    proof {
        let s = text@;
        assert forall|i2: int| 0 <= i2 < n - p - 1 implies is_digit(#[trigger] s.skip(p as int + 1)[i2]) by {
            assert(s.skip(p as int + 1)[i2] == s[p + 1 + i2]);
        }
        lemma_digit_prefix_len_is(s.skip(p as int + 1), n - p - 1);
    }
    // The first three fraction digits, in hundreds, tens and units of a
    // microsecond; anything further is below one microsecond.
    let f0 = (text[p + 1] - 48) as i64;
    let f1 = if p + 2 < n {
        (text[p + 2] - 48) as i64
    } else {
        0
    };
    let f2 = if p + 3 < n {
        (text[p + 3] - 48) as i64
    } else {
        0
    };
    let frac = 100 * f0 + 10 * f1 + f2;
    Some(1000 * int_val + frac)
}

/// Reads a whole-number figure as an `i64`.
///
/// Accepts exactly the texts of `valid_int_text` and returns exactly
/// `int_text_val` of them; everything else (a fraction point, an exponent,
/// more than eighteen digits, a lone minus, empty text) is refused with
/// `None`.
pub fn parse_int_text(text: &[u8]) -> (r: Option<i64>)
    ensures
        r is Some <==> valid_int_text(text@),
        r matches Some(v) ==> v as int == int_text_val(text@),
{
    let n = text.len();
    if n == 0 {
        return None;
    }
    let neg = text[0] == 45;
    let start: usize = if neg {
        1
    } else {
        0
    };
    if n - start < 1 || n - start > MAX_I64_DIGITS {
        return None;
    }
    let ghost su = text@.skip(start as int);
    proof {
        if start == 0 {
            assert(su =~= text@);
        } else {
            assert(su =~= text@.drop_first());
        }
    }
    // Every byte after the sign must be a digit.
    let mut j: usize = start;
    while j < n
        invariant
            start <= j <= n,
            start <= 1,
            n == text@.len(),
            n - start >= 1,
            n - start <= MAX_I64_DIGITS,
            (start == 1) == (text@[0] == 45),
            su == text@.skip(start as int),
            forall|i: int| start <= i < j ==> is_digit(text@[i]),
        decreases n - j,
    {
        if text[j] < 48 || text[j] > 57 {
            proof {
                assert forall|i2: int| 0 <= i2 < j - start implies is_digit(
                    #[trigger] su[i2],
                ) by {
                    assert(su[i2] == text@[start + i2]);
                }
                assert(su[j - start] == text@[j as int]);
                lemma_digit_prefix_len_is(su, j - start);
                if start == 1 {
                    assert(text@.drop_first() =~= su);
                } else {
                    assert(text@ =~= su);
                }
            }
            return None;
        }
        j = j + 1;
    }
    proof {
        assert forall|i2: int| 0 <= i2 < n - start implies is_digit(#[trigger] su[i2]) by {
            assert(su[i2] == text@[start + i2]);
        }
        lemma_digit_prefix_len_is(su, n - start);
        if start == 1 {
            assert(text@.drop_first() =~= su);
        }
    }
    // The digits, by Horner's rule.
    let m = n - start;
    let mut acc: i64 = 0;
    let mut k: usize = 0;
    while k < m
        invariant
            0 <= k <= m,
            m == n - start,
            start <= 1,
            m <= MAX_I64_DIGITS,
            n == text@.len(),
            su == text@.skip(start as int),
            su.len() == m,
            forall|i: int| 0 <= i < m ==> is_digit(su[i]),
            acc == digits_val(su.take(k as int)),
            0 <= acc < pow10(k as nat),
        decreases m - k,
    {
        proof {
            lemma_digits_val_step(su, k as int);
            lemma_pow10_mono((k + 1) as nat, MAX_I64_DIGITS as nat);
            lemma_pow10_18();
            assert(pow10((k + 1) as nat) == 10 * pow10(k as nat));
            assert(su[k as int] == text@[start + k]);
        }
        acc = 10 * acc + (text[start + k] - 48) as i64;
        k = k + 1;
    }
    proof {
        assert(su.take(m as int) =~= su);
        if start == 1 {
            assert(text@.drop_first() =~= su);
        }
        lemma_pow10_mono(m as nat, MAX_I64_DIGITS as nat);
        lemma_pow10_18();
    }
    if neg {
        Some(-acc)
    } else {
        Some(acc)
    }
}

} // verus!

