//! Rendering of amounts held in minor units (kopecks) as text.

use vstd::prelude::*;
use crate::text::{
    decimal, digit, digit_char, grouped, grouped_prefix, lemma_grouped_prefix_full, nbsp,
    push_char, push_decimal,
};

verus! {

/// The rouble sign, the default currency symbol.
pub open spec fn rouble_sign() -> char {
    '\u{20BD}'
}

pub open spec fn abs_int(v: int) -> int {
    if v < 0 {
        -v
    } else {
        v
    }
}

/// Two-digit, zero-padded rendering of a value below 100.
pub open spec fn two_digits(k: int) -> Seq<char> {
    seq![digit_char(k / 10), digit_char(k % 10)]
}

/// The text of an amount in minor units: an optional minus sign, the whole units
/// grouped by three with non-breaking spaces, a decimal comma, two minor digits,
/// a non-breaking space and the currency symbol ("-1 234,56 ₽").
pub open spec fn money_text(minor: int, symbol: Seq<char>) -> Seq<char> {
    let a = abs_int(minor);
    (if minor < 0 {
        seq!['-']
    } else {
        seq![]
    }) + grouped(decimal((a / 100) as nat)) + seq![','] + two_digits(a % 100) + seq![nbsp()]
        + symbol
}

/// Groups the decimal digits of `n` by three with non-breaking spaces.
pub fn group_thousands(n: u64) -> (out: String)
    ensures
        out@ == grouped(decimal(n as nat)),
{
    let mut s = String::new();
    push_decimal(&mut s, n);
    let ghost digits = s@;
    assert(digits =~= decimal(n as nat));
    let len = s.unicode_len();
    let mut out = String::new();
    let mut i: usize = 0;
    while i < len
        invariant
            len == digits.len(),
            s@ == digits,
            i <= len,
            out@ == grouped_prefix(digits, i as nat),
        decreases len - i,
    {
        let rem = len - i;
        if i > 0 && rem % 3 == 0 {
            push_char(&mut out, '\u{00A0}');
        }
        let c = s.as_str().get_char(i);
        push_char(&mut out, c);
        i = i + 1;
    }
    proof {
        lemma_grouped_prefix_full(digits);
    }
    out
}

/// Formats an amount in minor units with the rouble sign.
pub fn format_minor(minor: i64) -> (s: String)
    ensures
        s@ == money_text(minor as int, seq![rouble_sign()]),
{
    let sym = "\u{20BD}";
    proof {
        reveal_strlit("\u{20BD}");
    }
    format_minor_with_symbol(minor, sym)
}

/// Formats an amount in minor units with the given currency symbol.
pub fn format_minor_with_symbol(minor: i64, symbol: &str) -> (s: String)
    ensures
        s@ == money_text(minor as int, symbol@),
{
    let abs: u64 = if minor < 0 {
        (0i128 - minor as i128) as u64
    } else {
        minor as u64
    };
    let rub = abs / 100;
    let kop = abs % 100;
    let mut out = String::new();
    if minor < 0 {
        push_char(&mut out, '-');
    }
    let g = group_thousands(rub);
    out.append(g.as_str());
    push_char(&mut out, ',');
    push_char(&mut out, digit(kop / 10));
    push_char(&mut out, digit(kop % 10));
    push_char(&mut out, '\u{00A0}');
    out.append(symbol);
    proof {
        assert(abs as int == abs_int(minor as int));
        assert(out@ =~= money_text(minor as int, symbol@));
    }
    out
}

} // verus!
