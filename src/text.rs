//! Small, fully specified text transforms shared by the rest of the crate.

use vstd::prelude::*;
use vstd::string::*;

verus! {

/// The lowercase form of `s`, by Unicode's case mapping.
pub uninterp spec fn lower_of(s: Seq<char>) -> Seq<char>;

/// Whether `c` has Unicode's White_Space property, as `char::is_whitespace` says.
pub open spec fn is_white_space(c: char) -> bool {
    let n = c as int;
    (0x9 <= n <= 0xd) || n == 0x20 || n == 0x85 || n == 0xa0 || n == 0x1680 || (0x2000 <= n
        <= 0x200a) || n == 0x2028 || n == 0x2029 || n == 0x202f || n == 0x205f || n == 0x3000
}

/// `s` without its leading whitespace.
pub open spec fn trimmed_start(s: Seq<char>) -> Seq<char>
    decreases s.len(),
{
    if s.len() > 0 && is_white_space(s[0]) {
        trimmed_start(s.drop_first())
    } else {
        s
    }
}

/// `s` without its trailing whitespace.
pub open spec fn trimmed_end(s: Seq<char>) -> Seq<char>
    decreases s.len(),
{
    if s.len() > 0 && is_white_space(s.last()) {
        trimmed_end(s.drop_last())
    } else {
        s
    }
}

/// `s` without its leading and trailing whitespace.
pub open spec fn trimmed_of(s: Seq<char>) -> Seq<char> {
    trimmed_end(trimmed_start(s))
}

/// Relies on `str::to_lowercase`: the result depends on the characters alone.
#[verifier::external_body]
pub(crate) fn to_lowercase(s: &str) -> (r: String)
    ensures
        r@ == lower_of(s@),
{
    s.to_lowercase()
}

/// Relies on `str::trim`, which cuts off leading and trailing characters for
/// which `char::is_whitespace` (Unicode's White_Space) holds.
#[verifier::external_body]
pub(crate) fn trim<'a>(s: &'a str) -> (r: &'a str)
    ensures
        r@ == trimmed_of(s@),
{
    s.trim()
}

/// `a` followed by `b`, as a new string.
pub(crate) fn joined(a: &str, b: &str) -> (r: String)
    ensures
        r@ == a@ + b@,
{
    let mut s = String::from_str(a);
    s.append(b);
    s
}

/// The characters that a currency cell may carry besides the number itself.
pub open spec fn is_currency_mark(c: char) -> bool {
    c == '$' || c == ','
}

/// A cell with every currency symbol and thousands separator removed.
pub open spec fn strip_currency(s: Seq<char>) -> Seq<char>
    decreases s.len(),
{
    if s.len() == 0 {
        s
    } else if is_currency_mark(s.last()) {
        strip_currency(s.drop_last())
    } else {
        strip_currency(s.drop_last()).push(s.last())
    }
}

/// Removes every `$` and `,` from a price, leaving the rest in order.
pub fn normalize_price(price: &str) -> (r: String)
    ensures
        r@ == strip_currency(price@),
{
    let n = price.unicode_len();
    let mut out = String::new();
    let mut i: usize = 0;
    while i < n
        invariant
            n == price@.len(),
            0 <= i <= n,
            out@ == strip_currency(price@.take(i as int)),
        decreases n - i,
    {
        let c = price.get_char(i);
        if c != '$' && c != ',' {
            let piece = price.substring_char(i, i + 1);
            out.append(piece);
            assert(piece@ =~= seq![c]);
            assert(out@ =~= strip_currency(price@.take(i as int)).push(c));
        }
        assert(price@.take(i + 1).drop_last() =~= price@.take(i as int));
        i += 1;
    }
    assert(price@.take(n as int) =~= price@);
    out
}

/// Normalizing a price twice gives what normalizing it once gives.
pub proof fn lemma_normalize_price_idempotent(s: Seq<char>)
    ensures
        strip_currency(strip_currency(s)) == strip_currency(s),
    decreases s.len(),
{
    if s.len() > 0 {
        lemma_normalize_price_idempotent(s.drop_last());
        if !is_currency_mark(s.last()) {
            let r = strip_currency(s.drop_last());
            assert(r.push(s.last()).drop_last() =~= r);
        }
    }
}

/// A price that holds no `$` and no `,` is already normalized.
pub proof fn lemma_normalize_price_keeps_plain(s: Seq<char>)
    requires
        forall|i: int| 0 <= i < s.len() ==> !is_currency_mark(#[trigger] s[i]),
    ensures
        strip_currency(s) == s,
    decreases s.len(),
{
    if s.len() > 0 {
        lemma_normalize_price_keeps_plain(s.drop_last());
        assert(s.drop_last().push(s.last()) =~= s);
    }
}

/// The decimal digit characters, by value.
pub open spec fn digit_chars() -> Seq<char> {
    seq!['0', '1', '2', '3', '4', '5', '6', '7', '8', '9']
}

/// The decimal digit character for `d`, which is below ten.
pub open spec fn digit_char(d: nat) -> char {
    digit_chars()[d as int]
}

/// The decimal representation of a natural number, without leading zeros.
pub open spec fn unsigned_decimal(n: nat) -> Seq<char>
    decreases n,
{
    if n < 10 {
        seq![digit_char(n)]
    } else {
        unsigned_decimal(n / 10).push(digit_char(n % 10))
    }
}

/// The decimal representation of an integer, with a leading `-` when negative.
pub open spec fn decimal(n: int) -> Seq<char> {
    if n < 0 {
        seq!['-'] + unsigned_decimal((-n) as nat)
    } else {
        unsigned_decimal(n as nat)
    }
}

fn push_unsigned_decimal(out: &mut String, n: u128)
    ensures
        final(out)@ == old(out)@ + unsigned_decimal(n as nat),
    decreases n,
{
    if n >= 10 {
        push_unsigned_decimal(out, n / 10);
    }
    let d: usize = (n % 10) as usize;
    let table = "0123456789";
    proof {
        reveal_strlit("0123456789");
    }
    assert(table@ =~= digit_chars());
    let piece = table.substring_char(d, d + 1);
    assert(piece@ =~= seq![digit_char(d as nat)]);
    out.append(piece);
    assert(out@ =~= old(out)@ + unsigned_decimal(n as nat));
}

/// Renders an integer in decimal.
pub fn decimal_text(n: i128) -> (r: String)
    ensures
        r@ == decimal(n as int),
{
    let mut out = String::new();
    if n < 0 {
        out.append("-");
        proof {
            reveal_strlit("-");
        }
        let magnitude: u128 = ((-(n + 1)) as u128) + 1;
        push_unsigned_decimal(&mut out, magnitude);
    } else {
        push_unsigned_decimal(&mut out, n as u128);
    }
    out
}

} // verus!
