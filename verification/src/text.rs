//! Character-level helpers shared by the formatting and parsing code.

use vstd::prelude::*;

verus! {

/// The non-breaking space used as thousands separator and before the currency symbol.
pub open spec fn nbsp() -> char {
    '\u{00A0}'
}

/// Appends one character to a string (`String::push`).
#[verifier::external_body]
pub(crate) fn push_char(s: &mut String, c: char)
    ensures
        final(s)@ == old(s)@.push(c),
{
    s.push(c);
}

/// The ASCII character of a decimal digit.
pub open spec fn digit_char(d: int) -> char {
    if d == 0 {
        '0'
    } else if d == 1 {
        '1'
    } else if d == 2 {
        '2'
    } else if d == 3 {
        '3'
    } else if d == 4 {
        '4'
    } else if d == 5 {
        '5'
    } else if d == 6 {
        '6'
    } else if d == 7 {
        '7'
    } else if d == 8 {
        '8'
    } else {
        '9'
    }
}

/// Decimal rendering of a natural number, without leading zeros.
pub open spec fn decimal(n: nat) -> Seq<char>
    decreases n,
{
    if n < 10 {
        seq![digit_char(n as int)]
    } else {
        decimal(n / 10).push(digit_char((n % 10) as int))
    }
}

/// Decimal rendering of an integer: a minus sign before negative values.
pub open spec fn int_decimal(n: int) -> Seq<char> {
    if n < 0 {
        seq!['-'] + decimal((-n) as nat)
    } else {
        decimal(n as nat)
    }
}

pub fn digit(d: u64) -> (c: char)
    requires
        d < 10,
    ensures
        c == digit_char(d as int),
{
    if d == 0 {
        '0'
    } else if d == 1 {
        '1'
    } else if d == 2 {
        '2'
    } else if d == 3 {
        '3'
    } else if d == 4 {
        '4'
    } else if d == 5 {
        '5'
    } else if d == 6 {
        '6'
    } else if d == 7 {
        '7'
    } else if d == 8 {
        '8'
    } else {
        '9'
    }
}

/// Appends the decimal rendering of `n` to `out`.
pub fn push_decimal(out: &mut String, n: u64)
    ensures
        final(out)@ == old(out)@ + decimal(n as nat),
{
    let mut m: u64 = n;
    let mut rev: Vec<char> = Vec::new();
    while m >= 10
        invariant
            decimal(n as nat) == decimal(m as nat) + rev@.reverse(),
        decreases m,
    {
        let d = digit(m % 10);
        proof {
            assert(rev@.push(d).reverse() =~= seq![d] + rev@.reverse());
            assert(decimal(m as nat) == decimal((m / 10) as nat).push(d));
            assert(decimal((m / 10) as nat).push(d) + rev@.reverse() =~= decimal((m / 10) as nat) + (
            seq![d] + rev@.reverse()));
        }
        rev.push(d);
        m = m / 10;
    }
    let ghost start = out@;
    push_char(out, digit(m));
    let mut j: usize = rev.len();
    while j > 0
        invariant
            j <= rev@.len(),
            decimal(n as nat) == decimal(m as nat) + rev@.reverse(),
            decimal(m as nat) == seq![digit_char(m as int)],
            out@ == start + decimal(m as nat) + rev@.reverse().take(rev@.len() - j),
        decreases j,
    {
        j = j - 1;
        let c = rev[j];
        proof {
            assert(rev@.reverse().take(rev@.len() - j) =~= rev@.reverse().take(rev@.len() - j - 1).push(c));
        }
        push_char(out, c);
    }
    proof {
        assert(rev@.reverse().take(rev@.len() as int) =~= rev@.reverse());
        assert(out@ =~= start + decimal(n as nat));
    }
}

/// Decimal rendering of a signed integer (`i64::to_string`).
pub fn i64_to_string(n: i64) -> (s: String)
    ensures
        s@ == int_decimal(n as int),
{
    let mut s = String::new();
    if n < 0 {
        push_char(&mut s, '-');
        let a: u64 = (0i128 - n as i128) as u64;
        push_decimal(&mut s, a);
    } else {
        push_decimal(&mut s, n as u64);
    }
    proof {
        assert(s@ =~= int_decimal(n as int));
    }
    s
}


/// Inserts a non-breaking space between every group of three characters,
/// counting from the right: "1234567" becomes "1 234 567".
pub open spec fn grouped(s: Seq<char>) -> Seq<char>
    decreases s.len(),
{
    if s.len() <= 3 {
        s
    } else {
        grouped(s.subrange(0, s.len() - 3)) + seq![nbsp()] + s.subrange(
            s.len() - 3,
            s.len() as int,
        )
    }
}

/// The first `i` characters of `s` written left to right, with a separator
/// before each position whose distance from the end is a positive multiple of three.
pub open spec fn grouped_prefix(s: Seq<char>, i: nat) -> Seq<char>
    decreases i,
{
    if i == 0 {
        seq![]
    } else {
        let prev = grouped_prefix(s, (i - 1) as nat);
        let with_sep = if i - 1 > 0 && (s.len() - (i - 1)) % 3 == 0 {
            prev.push(nbsp())
        } else {
            prev
        };
        with_sep.push(s[i - 1])
    }
}

proof fn lemma_grouped_prefix_drop3(s: Seq<char>, i: nat)
    requires
        s.len() > 3,
        i <= s.len() - 3,
    ensures
        grouped_prefix(s, i) == grouped_prefix(s.subrange(0, s.len() - 3), i),
    decreases i,
{
    if i > 0 {
        lemma_grouped_prefix_drop3(s, (i - 1) as nat);
    }
}

proof fn lemma_grouped_prefix_short(s: Seq<char>, i: nat)
    requires
        s.len() <= 3,
        i <= s.len(),
    ensures
        grouped_prefix(s, i) == s.take(i as int),
    decreases i,
{
    if i > 0 {
        lemma_grouped_prefix_short(s, (i - 1) as nat);
        assert(s.take(i as int) =~= s.take(i - 1).push(s[i - 1]));
    }
}

/// Left-to-right grouping of the whole sequence is the right-to-left grouping.
pub proof fn lemma_grouped_prefix_full(s: Seq<char>)
    ensures
        grouped_prefix(s, s.len()) == grouped(s),
    decreases s.len(),
{
    if s.len() <= 3 {
        lemma_grouped_prefix_short(s, s.len());
        assert(s.take(s.len() as int) =~= s);
    } else {
        let n = s.len();
        let t = s.subrange(0, n - 3);
        lemma_grouped_prefix_drop3(s, (n - 3) as nat);
        lemma_grouped_prefix_full(t);
        assert(t.len() == n - 3);
        let g = grouped_prefix(s, (n - 3) as nat);
        assert(grouped_prefix(s, (n - 2) as nat) == g.push(nbsp()).push(s[n - 3]));
        assert(grouped_prefix(s, (n - 1) as nat) == g.push(nbsp()).push(s[n - 3]).push(s[n - 2]));
        assert(grouped_prefix(s, n) == g.push(nbsp()).push(s[n - 3]).push(s[n - 2]).push(
            s[n - 1],
        ));
        assert(g.push(nbsp()).push(s[n - 3]).push(s[n - 2]).push(s[n - 1]) =~= g + seq![nbsp()]
            + s.subrange(n - 3, n as int));
    }
}


/// The text with its non-breaking spaces left out.
pub open spec fn without_nbsp(s: Seq<char>) -> Seq<char>
    decreases s.len(),
{
    if s.len() == 0 {
        s
    } else if s.last() == nbsp() {
        without_nbsp(s.drop_last())
    } else {
        without_nbsp(s.drop_last()).push(s.last())
    }
}

pub proof fn lemma_without_nbsp_add(a: Seq<char>, b: Seq<char>)
    ensures
        without_nbsp(a + b) == without_nbsp(a) + without_nbsp(b),
    decreases b.len(),
{
    if b.len() == 0 {
        assert(a + b =~= a);
        assert(without_nbsp(a) + without_nbsp(b) =~= without_nbsp(a));
    } else {
        assert((a + b).drop_last() =~= a + b.drop_last());
        lemma_without_nbsp_add(a, b.drop_last());
        if b.last() != nbsp() {
            assert(without_nbsp(a) + without_nbsp(b.drop_last()).push(b.last()) =~= (without_nbsp(
                a,
            ) + without_nbsp(b.drop_last())).push(b.last()));
        }
    }
}

pub proof fn lemma_without_nbsp_plain(s: Seq<char>)
    requires
        forall|i: int| 0 <= i < s.len() ==> s[i] != nbsp(),
    ensures
        without_nbsp(s) == s,
    decreases s.len(),
{
    if s.len() > 0 {
        lemma_without_nbsp_plain(s.drop_last());
        assert(s.drop_last().push(s.last()) =~= s);
    }
}

/// A text of separators only leaves nothing.
pub proof fn lemma_without_nbsp_spaces(s: Seq<char>)
    requires
        forall|i: int| 0 <= i < s.len() ==> s[i] == nbsp(),
    ensures
        without_nbsp(s) == Seq::<char>::empty(),
    decreases s.len(),
{
    if s.len() > 0 {
        lemma_without_nbsp_spaces(s.drop_last());
    }
}

/// Every character of a decimal rendering is an ASCII digit.
pub proof fn lemma_decimal_digits(n: nat)
    ensures
        forall|i: int| 0 <= i < decimal(n).len() ==> is_ascii_digit(#[trigger] decimal(n)[i]),
    decreases n,
{
    if n < 10 {
        lemma_digit_char_value(n as int);
    } else {
        lemma_decimal_digits(n / 10);
        lemma_digit_char_value((n % 10) as int);
        let prev = decimal(n / 10);
        assert forall|i: int| 0 <= i < decimal(n).len() implies is_ascii_digit(
            #[trigger] decimal(n)[i],
        ) by {
            if i < prev.len() {
                assert(decimal(n)[i] == prev[i]);
            }
        }
    }
}

/// Grouping only inserts separators: leaving them out of the grouped text
/// gives back a text that had none.
pub proof fn lemma_grouped_without_nbsp(s: Seq<char>)
    requires
        forall|i: int| 0 <= i < s.len() ==> s[i] != nbsp(),
    ensures
        without_nbsp(grouped(s)) == s,
    decreases s.len(),
{
    if s.len() <= 3 {
        lemma_without_nbsp_plain(s);
    } else {
        let head = s.subrange(0, s.len() - 3);
        let tail = s.subrange(s.len() - 3, s.len() as int);
        lemma_grouped_without_nbsp(head);
        lemma_without_nbsp_add(grouped(head) + seq![nbsp()], tail);
        lemma_without_nbsp_add(grouped(head), seq![nbsp()]);
        assert(without_nbsp(seq![nbsp()]) =~= Seq::<char>::empty()) by {
            let one = seq![nbsp()];
            assert(one.drop_last() =~= Seq::<char>::empty());
            assert(one.last() == nbsp());
            assert(without_nbsp(one) == without_nbsp(one.drop_last()));
        }
        lemma_without_nbsp_plain(tail);
        assert(head + tail =~= s);
    }
}

/// Character-wise equality of two string slices.
pub fn str_eq(a: &str, b: &str) -> (r: bool)
    ensures
        r == (a@ == b@),
{
    let n = a.unicode_len();
    if n != b.unicode_len() {
        return false;
    }
    let mut i: usize = 0;
    while i < n
        invariant
            n == a@.len(),
            n == b@.len(),
            i <= n,
            forall|k: int| 0 <= k < i ==> a@[k] == b@[k],
        decreases n - i,
    {
        if a.get_char(i) != b.get_char(i) {
            return false;
        }
        i = i + 1;
    }
    assert(a@ =~= b@);
    true
}

/// A string holding the characters of `s`.
pub fn owned(s: &str) -> (r: String)
    ensures
        r@ == s@,
{
    String::from_str(s)
}

/// `prefix` followed by `rest`.
pub fn concat_str(prefix: &str, rest: &str) -> (r: String)
    ensures
        r@ == prefix@ + rest@,
{
    let mut r = String::from_str(prefix);
    r.append(rest);
    r
}

/// The views of an optional string.
pub open spec fn opt_view(o: Option<String>) -> Option<Seq<char>> {
    match o {
        Some(s) => Some(s@),
        None => None,
    }
}

/// Why a decimal integer could not be read (the kinds of `ParseIntError`).
#[derive(Debug, Clone, Copy, PartialEq, Eq, Structural)]
pub enum IntParseError {
    Empty,
    InvalidDigit,
    PosOverflow,
    NegOverflow,
}

/// The message `ParseIntError` displays for each kind.
pub open spec fn int_parse_error_text(e: IntParseError) -> Seq<char> {
    match e {
        IntParseError::Empty => "cannot parse integer from empty string"@,
        IntParseError::InvalidDigit => "invalid digit found in string"@,
        IntParseError::PosOverflow => "number too large to fit in target type"@,
        IntParseError::NegOverflow => "number too small to fit in target type"@,
    }
}

pub fn int_parse_error_message(e: IntParseError) -> (m: String)
    ensures
        m@ == int_parse_error_text(e),
{
    match e {
        IntParseError::Empty => owned("cannot parse integer from empty string"),
        IntParseError::InvalidDigit => owned("invalid digit found in string"),
        IntParseError::PosOverflow => owned("number too large to fit in target type"),
        IntParseError::NegOverflow => owned("number too small to fit in target type"),
    }
}

pub open spec fn is_ascii_digit(c: char) -> bool {
    '0' <= c && c <= '9'
}

pub open spec fn digit_value(c: char) -> int {
    c as int - '0' as int
}

/// Reads a run of digits left to right into a value that must stay within
/// `lo..=hi`, subtracting digits when `neg` holds. The first character that is
/// not a digit, or the first digit that leaves the range, decides the error.
pub open spec fn digits_fold(s: Seq<char>, neg: bool, lo: int, hi: int) -> Result<
    int,
    IntParseError,
>
    decreases s.len(),
{
    if s.len() == 0 {
        Ok(0)
    } else {
        match digits_fold(s.drop_last(), neg, lo, hi) {
            Err(e) => Err(e),
            Ok(v) => {
                let c = s.last();
                if !is_ascii_digit(c) {
                    Err(IntParseError::InvalidDigit)
                } else {
                    let next = if neg {
                        v * 10 - digit_value(c)
                    } else {
                        v * 10 + digit_value(c)
                    };
                    if next < lo {
                        Err(IntParseError::NegOverflow)
                    } else if next > hi {
                        Err(IntParseError::PosOverflow)
                    } else {
                        Ok(next)
                    }
                }
            },
        }
    }
}

/// Reading a decimal integer in `lo..=hi` the way `str::parse` reads one: an
/// optional `+` or `-` sign followed by at least one ASCII digit.
pub open spec fn parse_int(s: Seq<char>, lo: int, hi: int) -> Result<int, IntParseError> {
    if s.len() == 0 {
        Err(IntParseError::Empty)
    } else if (s[0] == '+' || s[0] == '-') && s.len() == 1 {
        Err(IntParseError::InvalidDigit)
    } else if s[0] == '+' {
        digits_fold(s.skip(1), false, lo, hi)
    } else if s[0] == '-' {
        digits_fold(s.skip(1), true, lo, hi)
    } else {
        digits_fold(s, false, lo, hi)
    }
}

fn char_digit(c: char) -> (r: Option<i128>)
    ensures
        is_ascii_digit(c) ==> r == Some(digit_value(c) as i128),
        !is_ascii_digit(c) ==> r is None,
{
    if '0' <= c && c <= '9' {
        Some((c as u32 - '0' as u32) as i128)
    } else {
        None
    }
}

fn parse_digits(s: &str, start: usize, neg: bool, lo: i64, hi: i64) -> (r: Result<i64, IntParseError>)
    requires
        lo <= 0 <= hi,
        start <= s@.len(),
    ensures
        match r {
            Ok(v) => digits_fold(s@.skip(start as int), neg, lo as int, hi as int) == Ok::<int, IntParseError>(v as int),
            Err(e) => digits_fold(s@.skip(start as int), neg, lo as int, hi as int) == Err::<int, IntParseError>(e),
        },
{
    let n = s.unicode_len();
    let mut acc: i128 = 0;
    let mut i: usize = start;
    assert(s@.subrange(start as int, start as int) =~= Seq::<char>::empty());
    while i < n
        invariant
            n == s@.len(),
            start <= i <= n,
            lo <= 0 <= hi,
            lo <= acc <= hi,
            digits_fold(s@.subrange(start as int, i as int), neg, lo as int, hi as int) == Ok::<int, IntParseError>(acc as int),
        decreases n - i,
    {
        let c = s.get_char(i);
        let ghost pre = s@.subrange(start as int, i as int);
        assert(s@.subrange(start as int, i + 1).drop_last() =~= pre);
        assert(s@.subrange(start as int, i + 1).last() == c);
        match char_digit(c) {
            None => {
                proof {
                    assert(s@.skip(start as int).take((i + 1 - start) as int) =~= s@.subrange(start as int, i + 1));
                    lemma_digits_fold_prefix_err(s@.skip(start as int), (i + 1 - start) as nat, neg, lo as int, hi as int);
                }
                return Err(IntParseError::InvalidDigit);
            },
            Some(d) => {
                let next: i128 = if neg {
                    acc * 10 - d
                } else {
                    acc * 10 + d
                };
                if next < lo as i128 {
                    proof {
                        assert(s@.skip(start as int).take((i + 1 - start) as int) =~= s@.subrange(start as int, i + 1));
                        lemma_digits_fold_prefix_err(s@.skip(start as int), (i + 1 - start) as nat, neg, lo as int, hi as int);
                    }
                    return Err(IntParseError::NegOverflow);
                }
                if next > hi as i128 {
                    proof {
                        assert(s@.skip(start as int).take((i + 1 - start) as int) =~= s@.subrange(start as int, i + 1));
                        lemma_digits_fold_prefix_err(s@.skip(start as int), (i + 1 - start) as nat, neg, lo as int, hi as int);
                    }
                    return Err(IntParseError::PosOverflow);
                }
                acc = next;
            },
        }
        i = i + 1;
    }
    assert(s@.subrange(start as int, n as int) =~= s@.skip(start as int));
    Ok(acc as i64)
}

/// An error in a prefix is the error of the whole run.
proof fn lemma_digits_fold_prefix_err(s: Seq<char>, k: nat, neg: bool, lo: int, hi: int)
    requires
        k <= s.len(),
        digits_fold(s.take(k as int), neg, lo, hi) is Err,
    ensures
        digits_fold(s, neg, lo, hi) == digits_fold(s.take(k as int), neg, lo, hi),
    decreases s.len() - k,
{
    if k < s.len() {
        assert(s.take(k + 1 as int).drop_last() =~= s.take(k as int));
        lemma_digits_fold_prefix_err(s, k + 1, neg, lo, hi);
    } else {
        assert(s.take(k as int) =~= s);
    }
}

/// Reads a decimal integer within `lo..=hi` (`str::parse` for an integer type
/// with that range).
pub fn parse_int_in(s: &str, lo: i64, hi: i64) -> (r: Result<i64, IntParseError>)
    requires
        lo <= 0 <= hi,
    ensures
        match r {
            Ok(v) => parse_int(s@, lo as int, hi as int) == Ok::<int, IntParseError>(v as int),
            Err(e) => parse_int(s@, lo as int, hi as int) == Err::<int, IntParseError>(e),
        },
{
    let n = s.unicode_len();
    if n == 0 {
        return Err(IntParseError::Empty);
    }
    let c0 = s.get_char(0);
    if (c0 == '+' || c0 == '-') && n == 1 {
        return Err(IntParseError::InvalidDigit);
    }
    if c0 == '+' {
        parse_digits(s, 1, false, lo, hi)
    } else if c0 == '-' {
        parse_digits(s, 1, true, lo, hi)
    } else {
        assert(s@.skip(0) =~= s@);
        parse_digits(s, 0, false, lo, hi)
    }
}

pub proof fn lemma_digit_char_value(d: int)
    requires
        0 <= d < 10,
    ensures
        is_ascii_digit(digit_char(d)),
        digit_value(digit_char(d)) == d,
{
}

proof fn lemma_decimal_fold(m: nat, neg: bool, lo: int, hi: int)
    requires
        lo <= 0 <= hi,
        !neg ==> m <= hi,
        neg ==> -m >= lo,
    ensures
        digits_fold(decimal(m), neg, lo, hi) == Ok::<int, IntParseError>(if neg { -m } else { m as int }),
        decimal(m).len() >= 1,
        is_ascii_digit(decimal(m)[0]),
    decreases m,
{
    reveal_with_fuel(digits_fold, 2);
    if m < 10 {
        lemma_digit_char_value(m as int);
        let s = decimal(m);
        assert(s.drop_last() =~= Seq::<char>::empty());
    } else {
        lemma_decimal_fold(m / 10, neg, lo, hi);
        lemma_digit_char_value((m % 10) as int);
        let s = decimal(m);
        assert(s.drop_last() == decimal(m / 10));
    }
}

/// Reading back the decimal text of a value in range gives the value.
pub proof fn lemma_parse_int_decimal(n: int, lo: int, hi: int)
    requires
        lo <= 0 <= hi,
        lo <= n <= hi,
    ensures
        parse_int(int_decimal(n), lo, hi) == Ok::<int, IntParseError>(n),
{
    if n < 0 {
        let m = (-n) as nat;
        lemma_decimal_fold(m, true, lo, hi);
        let s = int_decimal(n);
        assert(s.skip(1) =~= decimal(m));
        assert(s[0] == '-');
    } else {
        lemma_decimal_fold(n as nat, false, lo, hi);
        let s = int_decimal(n);
        lemma_digit_char_value(0);
        assert(s[0] != '+' && s[0] != '-');
    }
}


/// The characters with the Unicode `White_Space` property, which is what
/// `char::is_whitespace` tests.
pub open spec fn is_space(c: char) -> bool {
    ('\u{0009}' <= c && c <= '\u{000D}') || c == '\u{0020}' || c == '\u{0085}' || c == '\u{00A0}'
        || c == '\u{1680}' || ('\u{2000}' <= c && c <= '\u{200A}') || c == '\u{2028}' || c
        == '\u{2029}' || c == '\u{202F}' || c == '\u{205F}' || c == '\u{3000}'
}

pub fn is_whitespace(c: char) -> (r: bool)
    ensures
        r == is_space(c),
{
    ('\u{0009}' <= c && c <= '\u{000D}') || c == '\u{0020}' || c == '\u{0085}' || c == '\u{00A0}'
        || c == '\u{1680}' || ('\u{2000}' <= c && c <= '\u{200A}') || c == '\u{2028}' || c
        == '\u{2029}' || c == '\u{202F}' || c == '\u{205F}' || c == '\u{3000}'
}

/// `s` without its leading whitespace.
pub open spec fn trim_start(s: Seq<char>) -> Seq<char>
    decreases s.len(),
{
    if s.len() > 0 && is_space(s[0]) {
        trim_start(s.drop_first())
    } else {
        s
    }
}

/// `s` without its trailing whitespace.
pub open spec fn trim_end(s: Seq<char>) -> Seq<char>
    decreases s.len(),
{
    if s.len() > 0 && is_space(s.last()) {
        trim_end(s.drop_last())
    } else {
        s
    }
}

/// `s` without leading and trailing whitespace (`str::trim`).
pub open spec fn trimmed(s: Seq<char>) -> Seq<char> {
    trim_end(trim_start(s))
}

/// Trims `s` and returns the result as a new string (`s.trim().to_string()`).
pub fn trim(s: &str) -> (r: String)
    ensures
        r@ == trimmed(s@),
{
    let n = s.unicode_len();
    let mut i: usize = 0;
    assert(s@.skip(0) =~= s@);
    while i < n && is_whitespace(s.get_char(i))
        invariant
            n == s@.len(),
            i <= n,
            trim_start(s@.skip(i as int)) == trim_start(s@),
        decreases n - i,
    {
        assert(s@.skip(i as int).drop_first() =~= s@.skip(i + 1));
        i = i + 1;
    }
    let ghost t = s@.skip(i as int);
    assert(trim_start(t) == t);
    let mut j: usize = n;
    assert(t.take((n - i) as int) =~= t);
    while j > i && is_whitespace(s.get_char(j - 1))
        invariant
            n == s@.len(),
            i <= j <= n,
            t == s@.skip(i as int),
            trim_end(t.take(j - i)) == trim_end(t),
        decreases j,
    {
        assert(t.take(j - i).drop_last() =~= t.take(j - 1 - i));
        j = j - 1;
    }
    assert(trim_end(t.take(j - i)) == t.take(j - i));
    let r = s.substring_char(i, j);
    assert(r@ =~= t.take(j - i));
    String::from_str(r)
}

/// The trimmed text of an optional string, dropped when nothing is left
/// (`o.map(|s| s.trim().to_string()).filter(|s| !s.is_empty())`).
pub open spec fn trimmed_nonempty(o: Option<Seq<char>>) -> Option<Seq<char>> {
    match o {
        Some(s) => if trimmed(s).len() > 0 {
            Some(trimmed(s))
        } else {
            None
        },
        None => None,
    }
}

pub fn trim_nonempty(o: &Option<String>) -> (r: Option<String>)
    ensures
        opt_view(r) == trimmed_nonempty(opt_view(*o)),
{
    match o {
        Some(s) => {
            let t = trim(s.as_str());
            if t.as_str().unicode_len() > 0 {
                Some(t)
            } else {
                None
            }
        },
        None => None,
    }
}

} // verus!
