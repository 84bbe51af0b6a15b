//! Token amounts written as decimals with thousands separators.
use crate::strings::{decimal, decimal_string, push_char, push_str};
use num_format::{Locale, ToFormattedString};
use vstd::prelude::*;

verus! {

/// `d` with a comma before each group of three digits, counted from the right.
pub open spec fn group_thousands(d: Seq<char>) -> Seq<char>
    decreases d.len(),
{
    if d.len() <= 3 {
        d
    } else {
        group_thousands(d.subrange(0, d.len() - 3)) + ","@ + d.subrange(d.len() - 3, d.len() as int)
    }
}

/// `n` with its last `k` decimal digits removed.
pub open spec fn drop_digits(n: nat, k: nat) -> nat
    decreases k,
{
    if k == 0 {
        n
    } else {
        drop_digits(n / 10, (k - 1) as nat)
    }
}

/// The decimal digits of `value`, with zeros in front so that there are at least
/// `decimals + 1` of them.
pub open spec fn padded_digits(value: nat, decimals: nat) -> Seq<char> {
    let d = decimal(value);
    if d.len() < decimals + 1 {
        Seq::new((decimals + 1 - d.len()) as nat, |i: int| '0') + d
    } else {
        d
    }
}

/// `value` read as an amount with `decimals` decimal places, written with its integer part
/// grouped by thousands, a point, and the first `decimal_points` decimal places.
pub open spec fn format_decimal_spec(value: nat, decimals: nat, decimal_points: nat) -> Seq<char> {
    let p = padded_digits(value, decimals);
    let start = p.len() - decimals;
    group_thousands(decimal(drop_digits(value, decimals))) + "."@ + p.subrange(start, start + decimal_points)
}

/// `u128::to_formatted_string(&Locale::en)`: the decimal digits of `n`, grouped by three
/// from the right with `,`.
#[verifier::external_body]
fn en_formatted(n: u128) -> (s: String)
    ensures
        s@ == group_thousands(decimal(n as nat)),
{
    n.to_formatted_string(&Locale::en)
}

/// `Locale::en.decimal()`: the decimal separator of English, `.`.
#[verifier::external_body]
fn en_decimal_separator() -> (s: &'static str)
    ensures
        s@ == "."@,
{
    Locale::en.decimal()
}

/// The decimal representation of a number is never empty.
pub proof fn lemma_decimal_len(n: nat)
    ensures
        decimal(n).len() >= 1,
        decimal(n).len() <= n + 1,
    decreases n,
{
    if n >= 10 {
        lemma_decimal_len(n / 10);
    }
}

/// Formats `value`, an amount in the smallest unit of a token with `decimals` decimal
/// places, with thousands separators and `decimal_points` decimal places (cut, not
/// rounded).
pub fn format_decimal(value: u128, decimals: usize, decimal_points: usize) -> (s: String)
    requires
        decimals < usize::MAX,
        decimal_points <= decimals,
    ensures
        s@ == format_decimal_spec(value as nat, decimals as nat, decimal_points as nat),
{
    let digits = decimal_string(value);
    proof {
        lemma_decimal_len(value as nat);
    }
    let dlen = digits.as_str().unicode_len();
    let mut padded = String::new();
    if dlen < decimals + 1 {
        let zeros = decimals + 1 - dlen;
        let mut i: usize = 0;
        while i < zeros
            invariant
                i <= zeros,
                padded@ == Seq::new(i as nat, |j: int| '0'),
            decreases zeros - i,
        {
            push_char(&mut padded, '0');
            assert(padded@ =~= Seq::new((i + 1) as nat, |j: int| '0'));
            i = i + 1;
        }
    }
    push_str(&mut padded, digits.as_str());
    assert(padded@ =~= padded_digits(value as nat, decimals as nat));
    let plen = padded.as_str().unicode_len();
    let start = plen - decimals;
    let fraction = padded.as_str().substring_char(start, start + decimal_points);
    let mut integer = value;
    let mut k: usize = 0;
    while k < decimals
        invariant
            k <= decimals,
            drop_digits(value as nat, decimals as nat) == drop_digits(integer as nat, (decimals - k) as nat),
        decreases decimals - k,
    {
        integer = integer / 10;
        k = k + 1;
    }
    let mut s = en_formatted(integer);
    push_str(&mut s, en_decimal_separator());
    push_str(&mut s, fraction);
    s
}

} // verus!
