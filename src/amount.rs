//! Exact decimal amounts read from currency cells.

use vstd::prelude::*;
use vstd::string::*;

verus! {

/// The largest number of digits an amount may have.
pub const MAX_AMOUNT_DIGITS: usize = 18;

/// A decimal amount: `mantissa` divided by ten to the power `scale`.
#[derive(Debug, Clone, Copy, PartialEq, Eq, Structural)]
pub struct Amount {
    pub mantissa: i64,
    pub scale: u32,
}

impl Amount {
    /// The amount zero.
    pub fn zero() -> (r: Amount)
        ensures
            r == (Amount { mantissa: 0, scale: 0 }),
    {
        Amount { mantissa: 0, scale: 0 }
    }
}

pub open spec fn is_digit(c: char) -> bool {
    '0' <= c && c <= '9'
}

pub open spec fn all_digits(s: Seq<char>) -> bool {
    forall|i: int| 0 <= i < s.len() ==> is_digit(#[trigger] s[i])
}

pub open spec fn digit_value(c: char) -> int {
    c as int - '0' as int
}

/// The number that a run of decimal digits spells.
pub open spec fn digits_value(s: Seq<char>) -> int
    decreases s.len(),
{
    if s.len() == 0 {
        0
    } else {
        digits_value(s.drop_last()) * 10 + digit_value(s.last())
    }
}

pub open spec fn pow10(n: nat) -> int
    decreases n,
{
    if n == 0 {
        1
    } else {
        10 * pow10((n - 1) as nat)
    }
}

/// Whether the text starts with a sign.
pub open spec fn has_sign(s: Seq<char>) -> bool {
    s.len() > 0 && (s[0] == '-' || s[0] == '+')
}

/// The text after its sign, if any.
pub open spec fn unsigned_part(s: Seq<char>) -> Seq<char> {
    if has_sign(s) {
        s.drop_first()
    } else {
        s
    }
}

/// The position of the first `.`, or the length when there is none.
pub open spec fn first_dot(s: Seq<char>) -> int
    decreases s.len(),
{
    if s.len() == 0 {
        0
    } else if s[0] == '.' {
        0
    } else {
        1 + first_dot(s.drop_first())
    }
}

/// The digits before the point.
pub open spec fn whole_part(body: Seq<char>) -> Seq<char> {
    body.take(first_dot(body))
}

/// The digits after the point; none when there is no point.
pub open spec fn fraction_part(body: Seq<char>) -> Seq<char> {
    if first_dot(body) < body.len() {
        body.skip(first_dot(body) + 1)
    } else {
        Seq::empty()
    }
}

/// The amount a normalized cell denotes: an optional sign, digits, and an
/// optional point followed by more digits, with at least one and at most
/// `MAX_AMOUNT_DIGITS` digits in all. Anything else denotes no amount: an
/// exponent (`1e3`), `inf`, `NaN`, or more digits than an `i64` mantissa
/// holds exactly are rejected, where a float parser would accept them.
pub open spec fn amount_of(s: Seq<char>) -> Option<Amount> {
    let body = unsigned_part(s);
    let whole = whole_part(body);
    let frac = fraction_part(body);
    let digits = whole + frac;
    if all_digits(whole) && all_digits(frac) && 1 <= digits.len() <= MAX_AMOUNT_DIGITS {
        let magnitude = digits_value(digits);
        Some(
            Amount {
                mantissa: (if s[0] == '-' {
                    -magnitude
                } else {
                    magnitude
                }) as i64,
                scale: frac.len() as u32,
            },
        )
    } else {
        None
    }
}

proof fn lemma_first_dot(s: Seq<char>, k: int)
    requires
        0 <= k <= s.len(),
        forall|j: int| 0 <= j < k ==> s[j] != '.',
        k == s.len() || s[k] == '.',
    ensures
        first_dot(s) == k,
    decreases k,
{
    if k > 0 {
        lemma_first_dot(s.drop_first(), k - 1);
    }
}

proof fn lemma_pow10_bound(n: nat)
    requires
        n <= 18,
    ensures
        1 <= pow10(n) <= pow10(18),
        pow10(18) == 1000000000000000000,
    decreases 18 - n,
{
    reveal_with_fuel(pow10, 19);
    if n < 18 {
        lemma_pow10_bound(n + 1);
    }
}

proof fn lemma_digits_value_bound(s: Seq<char>)
    requires
        all_digits(s),
    ensures
        0 <= digits_value(s) < pow10(s.len()),
    decreases s.len(),
{
    if s.len() > 0 {
        let t = s.drop_last();
        assert(all_digits(t)) by {
            assert forall|i: int| 0 <= i < t.len() implies is_digit(#[trigger] t[i]) by {
                assert(t[i] == s[i]);
            }
        }
        lemma_digits_value_bound(t);
        assert(is_digit(s[s.len() - 1]));
    }
}

/// Appends one digit to a running value.
fn step_digit(value: i64, c: char, Ghost(seen): Ghost<Seq<char>>) -> (r: i64)
    requires
        is_digit(c),
        all_digits(seen),
        value == digits_value(seen),
        seen.len() < MAX_AMOUNT_DIGITS,
    ensures
        r == digits_value(seen.push(c)),
        all_digits(seen.push(c)),
        0 <= r,
{
    proof {
        lemma_digits_value_bound(seen);
        lemma_pow10_bound(seen.len());
        lemma_pow10_bound((seen.len() + 1) as nat);
        assert(seen.push(c).drop_last() =~= seen);
        assert(all_digits(seen.push(c))) by {
            assert forall|i: int| 0 <= i < seen.push(c).len() implies is_digit(
                #[trigger] seen.push(c)[i],
            ) by {
                if i < seen.len() {
                    assert(seen.push(c)[i] == seen[i]);
                }
            }
        }
        lemma_digits_value_bound(seen.push(c));
    }
    value * 10 + (c as u32 - '0' as u32) as i64
}

/// Reads an amount from a normalized cell; see `amount_of`.
pub fn parse_amount(text: &str) -> (r: Option<Amount>)
    ensures
        r == amount_of(text@),
{
    let ghost s = text@;
    let n = text.unicode_len();
    let mut start: usize = 0;
    let mut negative = false;
    if n > 0 {
        let c0 = text.get_char(0);
        if c0 == '-' || c0 == '+' {
            start = 1;
            negative = c0 == '-';
        }
    }
    assert(negative == (s.len() > 0 && s[0] == '-'));
    assert(start == 1 <==> has_sign(s));
    let ghost body = unsigned_part(s);
    assert(body =~= s.skip(start as int));
    let mut k: usize = start;
    while k < n && text.get_char(k) != '.'
        invariant
            s == text@,
            n == s.len(),
            start <= k <= n,
            forall|j: int| start <= j < k ==> s[j] != '.',
        decreases n - k,
    {
        k += 1;
    }
    proof {
        lemma_first_dot(body, k - start);
    }
    let ghost whole = whole_part(body);
    let ghost frac = fraction_part(body);
    assert(whole =~= s.subrange(start as int, k as int));
    let frac_len: usize = if k < n {
        n - k - 1
    } else {
        0
    };
    assert(frac.len() == frac_len);
    let count = (k - start) + frac_len;
    if count < 1 || count > MAX_AMOUNT_DIGITS {
        return None;
    }
    let mut mantissa: i64 = 0;
    let mut j: usize = start;
    while j < k
        invariant
            s == text@,
            body == unsigned_part(s),
            whole == whole_part(body),
            frac == fraction_part(body),
            frac.len() == frac_len,
            negative == (s.len() > 0 && s[0] == '-'),
            0 <= mantissa,
            n == s.len(),
            start <= j <= k <= n,
            k - start <= MAX_AMOUNT_DIGITS,
            all_digits(s.subrange(start as int, j as int)),
            mantissa == digits_value(s.subrange(start as int, j as int)),
            whole =~= s.subrange(start as int, k as int),
        decreases k - j,
    {
        let c = text.get_char(j);
        if !(c >= '0' && c <= '9') {
            assert(whole[j - start] == c);
            assert(!all_digits(whole));
            return None;
        }
        let ghost seen = s.subrange(start as int, j as int);
        mantissa = step_digit(mantissa, c, Ghost(seen));
        assert(seen.push(c) =~= s.subrange(start as int, j + 1));
        j += 1;
    }
    if k < n {
        let mut j: usize = k + 1;
        assert(frac =~= s.subrange(k + 1, n as int));
        assert(whole + s.subrange(k + 1, k + 1) =~= whole);
        while j < n
            invariant
                s == text@,
                body == unsigned_part(s),
                whole == whole_part(body),
                frac == fraction_part(body),
                frac.len() == frac_len,
                negative == (s.len() > 0 && s[0] == '-'),
                0 <= mantissa,
                n == s.len(),
                k + 1 <= j <= n,
                k - start + n - k - 1 <= MAX_AMOUNT_DIGITS,
                all_digits(whole),
                all_digits(whole + s.subrange(k + 1, j as int)),
                mantissa == digits_value(whole + s.subrange(k + 1, j as int)),
                frac =~= s.subrange(k + 1, n as int),
                whole.len() == k - start,
            decreases n - j,
        {
            let c = text.get_char(j);
            if !(c >= '0' && c <= '9') {
                assert(frac[j - k - 1] == c);
                assert(!all_digits(frac));
                return None;
            }
            let ghost seen = whole + s.subrange(k + 1, j as int);
            mantissa = step_digit(mantissa, c, Ghost(seen));
            assert(seen.push(c) =~= whole + s.subrange(k + 1, j + 1));
            j += 1;
        }
        assert(whole + s.subrange(k + 1, n as int) =~= whole + frac);
    } else {
        assert(whole + frac =~= whole);
    }
    assert(all_digits(frac)) by {
        assert forall|i: int| 0 <= i < frac.len() implies is_digit(#[trigger] frac[i]) by {
            assert((whole + frac)[whole.len() + i] == frac[i]);
        }
    }
    let value = if negative {
        -mantissa
    } else {
        mantissa
    };
    Some(Amount { mantissa: value, scale: frac_len as u32 })
}

} // verus!
