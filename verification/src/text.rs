//! Plain-text helpers: character classes, decimal rendering, and string
//! comparison, each specified over the `Seq<char>` view of the text.

use vstd::prelude::*;
use vstd::string::*;

verus! {

// ---------------------------------------------------------------------------
// Character classes
// ---------------------------------------------------------------------------

/// A whitespace character as it occurs around the short values this library
/// reads: blanks, tabs and line ends.
pub open spec fn is_ws_char(c: char) -> bool {
    c == ' ' || c == '\n' || c == '\t' || c == '\r'
}

pub open spec fn is_digit_char(c: char) -> bool {
    c == '0' || c == '1' || c == '2' || c == '3' || c == '4' || c == '5' || c == '6' || c == '7'
        || c == '8' || c == '9'
}

/// The numeric value of a decimal digit character.
pub open spec fn digit_val(c: char) -> int
    recommends
        is_digit_char(c),
{
    if c == '0' {
        0
    } else if c == '1' {
        1
    } else if c == '2' {
        2
    } else if c == '3' {
        3
    } else if c == '4' {
        4
    } else if c == '5' {
        5
    } else if c == '6' {
        6
    } else if c == '7' {
        7
    } else if c == '8' {
        8
    } else {
        9
    }
}

fn is_ws(c: char) -> (r: bool)
    ensures
        r == is_ws_char(c),
{
    c == ' ' || c == '\n' || c == '\t' || c == '\r'
}

fn digit_of(c: char) -> (r: Option<u64>)
    ensures
        r is Some <==> is_digit_char(c),
        r matches Some(d) ==> d as int == digit_val(c) && d <= 9,
{
    match c {
        '0' => Some(0u64),
        '1' => Some(1u64),
        '2' => Some(2u64),
        '3' => Some(3u64),
        '4' => Some(4u64),
        '5' => Some(5u64),
        '6' => Some(6u64),
        '7' => Some(7u64),
        '8' => Some(8u64),
        '9' => Some(9u64),
        _ => None,
    }
}

// ---------------------------------------------------------------------------
// Decimal rendering
// ---------------------------------------------------------------------------

/// The single character that renders a decimal digit.
pub open spec fn dec_digit(d: int) -> Seq<char>
    recommends
        0 <= d <= 9,
{
    if d == 0 {
        "0"@
    } else if d == 1 {
        "1"@
    } else if d == 2 {
        "2"@
    } else if d == 3 {
        "3"@
    } else if d == 4 {
        "4"@
    } else if d == 5 {
        "5"@
    } else if d == 6 {
        "6"@
    } else if d == 7 {
        "7"@
    } else if d == 8 {
        "8"@
    } else {
        "9"@
    }
}

/// The decimal rendering of a nonnegative integer, without padding.
pub open spec fn spec_dec(n: int) -> Seq<char>
    recommends
        n >= 0,
    decreases n,
{
    if n < 10 {
        dec_digit(n)
    } else {
        spec_dec(n / 10) + dec_digit(n % 10)
    }
}

/// The decimal rendering of an integer below one hundred, zero-padded to two
/// digits.
pub open spec fn spec_two_dec(n: int) -> Seq<char>
    recommends
        0 <= n < 100,
{
    if n < 10 {
        "0"@ + spec_dec(n)
    } else {
        spec_dec(n)
    }
}

fn push_digit(s: &mut String, d: u64)
    requires
        d <= 9,
    ensures
        final(s)@ == old(s)@ + dec_digit(d as int),
{
    match d {
        0 => s.append("0"),
        1 => s.append("1"),
        2 => s.append("2"),
        3 => s.append("3"),
        4 => s.append("4"),
        5 => s.append("5"),
        6 => s.append("6"),
        7 => s.append("7"),
        8 => s.append("8"),
        _ => s.append("9"),
    }
}

/// Renders `n` in decimal.
pub fn u64_to_string(n: u64) -> (s: String)
    ensures
        s@ == spec_dec(n as int),
    decreases n,
{
    if n < 10 {
        let mut s = String::new();
        push_digit(&mut s, n);
        proof {
            assert(Seq::<char>::empty() + dec_digit(n as int) =~= dec_digit(n as int));
        }
        s
    } else {
        let mut s = u64_to_string(n / 10);
        push_digit(&mut s, n % 10);
        s
    }
}

/// Renders `n` in decimal, zero-padded to two digits.
pub fn two_digits(n: u64) -> (s: String)
    requires
        n < 100,
    ensures
        s@ == spec_two_dec(n as int),
{
    if n < 10 {
        let mut s = String::from_str("0");
        push_digit(&mut s, n);
        s
    } else {
        u64_to_string(n)
    }
}

// ---------------------------------------------------------------------------
// String comparison
// ---------------------------------------------------------------------------

/// Character-for-character equality of two string slices.
pub fn str_eq(a: &str, b: &str) -> (r: bool)
    ensures
        r == (a@ == b@),
{
    let alen = a.unicode_len();
    let blen = b.unicode_len();
    if alen != blen {
        return false;
    }
    let mut i: usize = 0;
    while i < alen
        invariant
            i <= alen,
            alen == a@.len(),
            alen == b@.len(),
            forall|j: int| 0 <= j < i ==> a@[j] == b@[j],
        decreases alen - i,
    {
        if a.get_char(i) != b.get_char(i) {
            return false;
        }
        i += 1;
    }
    proof {
        assert(a@ =~= b@);
    }
    true
}

// ---------------------------------------------------------------------------
// Trimming
// ---------------------------------------------------------------------------

/// `s` without its trailing whitespace.
pub open spec fn spec_trim_end(s: Seq<char>) -> Seq<char>
    decreases s.len(),
{
    if s.len() > 0 && is_ws_char(s.last()) {
        spec_trim_end(s.drop_last())
    } else {
        s
    }
}

/// `s` without its leading whitespace.
pub open spec fn spec_trim_start(s: Seq<char>) -> Seq<char>
    decreases s.len(),
{
    if s.len() > 0 && is_ws_char(s.first()) {
        spec_trim_start(s.drop_first())
    } else {
        s
    }
}

/// `s` without leading and trailing whitespace.
pub open spec fn spec_trim(s: Seq<char>) -> Seq<char> {
    spec_trim_start(spec_trim_end(s))
}

proof fn lemma_trim_end_at(s: Seq<char>, b: int)
    requires
        0 <= b <= s.len(),
        forall|i: int| b <= i < s.len() ==> is_ws_char(s[i]),
        b > 0 ==> !is_ws_char(s[b - 1]),
    ensures
        spec_trim_end(s) == s.subrange(0, b),
    decreases s.len(),
{
    if s.len() == b {
        assert(s.subrange(0, b) =~= s);
    } else {
        lemma_trim_end_at(s.drop_last(), b);
        assert(s.drop_last().subrange(0, b) =~= s.subrange(0, b));
    }
}

proof fn lemma_trim_start_at(s: Seq<char>, a: int)
    requires
        0 <= a <= s.len(),
        forall|i: int| 0 <= i < a ==> is_ws_char(s[i]),
        a < s.len() ==> !is_ws_char(s[a]),
    ensures
        spec_trim_start(s) == s.subrange(a, s.len() as int),
    decreases a,
{
    if a == 0 {
        assert(s.subrange(0, s.len() as int) =~= s);
    } else {
        lemma_trim_start_at(s.drop_first(), a - 1);
        assert(s.drop_first().subrange(a - 1, s.drop_first().len() as int) =~= s.subrange(
            a,
            s.len() as int,
        ));
    }
}

/// Index bounds of the trimmed middle of `s`.
fn trim_bounds(s: &str) -> (r: (usize, usize))
    ensures
        r.0 <= r.1 && r.1 <= s@.len(),
        spec_trim(s@) == s@.subrange(r.0 as int, r.1 as int),
{
    let n = s.unicode_len();
    let mut b: usize = n;
    while b > 0 && is_ws(s.get_char(b - 1))
        invariant
            b <= n,
            n == s@.len(),
            forall|i: int| b <= i < n ==> is_ws_char(s@[i]),
        decreases b,
    {
        b -= 1;
    }
    proof {
        lemma_trim_end_at(s@, b as int);
    }
    let mut a: usize = 0;
    while a < b && is_ws(s.get_char(a))
        invariant
            a <= b,
            b <= n,
            n == s@.len(),
            forall|i: int| 0 <= i < a ==> is_ws_char(s@[i]),
        decreases b - a,
    {
        a += 1;
    }
    proof {
        let t = spec_trim_end(s@);
        lemma_trim_start_at(t, a as int);
        assert(t.subrange(a as int, t.len() as int) =~= s@.subrange(a as int, b as int));
    }
    (a, b)
}

// ---------------------------------------------------------------------------
// Parsing small decimal numbers
// ---------------------------------------------------------------------------

pub open spec fn all_digits(s: Seq<char>) -> bool {
    forall|i: int| 0 <= i < s.len() ==> is_digit_char(s[i])
}

/// The numeric value of a string of decimal digits.
pub open spec fn digits_val(s: Seq<char>) -> int
    recommends
        all_digits(s),
    decreases s.len(),
{
    if s.len() == 0 {
        0
    } else {
        digits_val(s.drop_last()) * 10 + digit_val(s.last())
    }
}

pub open spec fn pow10(n: nat) -> int
    decreases n,
{
    if n == 0 {
        1
    } else {
        10 * pow10((n - 1) as nat)
    }
}

pub proof fn lemma_digits_val_bound(s: Seq<char>)
    requires
        all_digits(s),
    ensures
        0 <= digits_val(s) < pow10(s.len()),
    decreases s.len(),
{
    if s.len() > 0 {
        lemma_digits_val_bound(s.drop_last());
    }
}

/// Parses `s[from..to]` as one to three decimal digits.
fn parse_digits_range(s: &str, from: usize, to: usize) -> (r: Option<u64>)
    requires
        from <= to <= s@.len(),
    ensures
        r is Some <==> {
            let t = s@.subrange(from as int, to as int);
            1 <= t.len() <= 3 && all_digits(t)
        },
        r matches Some(v) ==> v as int == digits_val(s@.subrange(from as int, to as int)),
{
    let len = to - from;
    if len < 1 || len > 3 {
        return None;
    }
    let mut v: u64 = 0;
    let mut i = from;
    while i < to
        invariant
            from <= i <= to,
            to <= s@.len(),
            to - from <= 3,
            all_digits(s@.subrange(from as int, i as int)),
            v as int == digits_val(s@.subrange(from as int, i as int)),
        decreases to - i,
    {
        match digit_of(s.get_char(i)) {
            None => {
                proof {
                    let t = s@.subrange(from as int, to as int);
                    assert(!is_digit_char(t[i - from]));
                }
                return None;
            },
            Some(d) => {
                proof {
                    let pre = s@.subrange(from as int, i as int);
                    let ext = s@.subrange(from as int, i + 1);
                    assert(ext.drop_last() =~= pre);
                    lemma_digits_val_bound(pre);
                    assert(pow10(0) == 1);
                    assert(pow10(1) == 10);
                    assert(pow10(2) == 100);
                    assert(pre.len() <= 2);
                    assert(v < 100);
                }
                v = v * 10 + d;
            },
        }
        i += 1;
    }
    proof {
        assert(s@.subrange(from as int, i as int) =~= s@.subrange(from as int, to as int));
    }
    Some(v)
}

/// A whole number of percent, as the battery capacity file holds it: decimal
/// digits surrounded by nothing but whitespace.
pub open spec fn spec_parse_num(s: Seq<char>) -> Option<u64> {
    let t = spec_trim(s);
    if 1 <= t.len() <= 3 && all_digits(t) {
        Some(digits_val(t) as u64)
    } else {
        None
    }
}

/// Parses a number such as `"45"`, with whitespace around it allowed;
/// anything else is malformed.
pub fn parse_num(s: &str) -> (r: Option<u64>)
    ensures
        r == spec_parse_num(s@),
{
    let (a, b) = trim_bounds(s);
    let r = parse_digits_range(s, a, b);
    proof {
        let t = spec_trim(s@);
        if 1 <= t.len() <= 3 && all_digits(t) {
            lemma_digits_val_bound(t);
        }
    }
    r
}

/// A percentage as an audio level prints it: decimal digits, a `%` sign, and
/// nothing else but whitespace around them.
pub open spec fn spec_parse_pct(s: Seq<char>) -> Option<u64> {
    let t = spec_trim(s);
    if t.len() >= 2 && t.last() == '%' && t.len() - 1 <= 3 && all_digits(t.drop_last()) {
        Some(digits_val(t.drop_last()) as u64)
    } else {
        None
    }
}

/// Parses a level such as `"45%"`, with whitespace around it allowed;
/// anything else is malformed.
pub fn parse_pct(s: &str) -> (r: Option<u64>)
    ensures
        r == spec_parse_pct(s@),
{
    let (a, b) = trim_bounds(s);
    if b - a < 2 {
        return None;
    }
    if s.get_char(b - 1) != '%' {
        return None;
    }
    let r = parse_digits_range(s, a, b - 1);
    proof {
        let t = spec_trim(s@);
        assert(t.drop_last() =~= s@.subrange(a as int, b - 1));
        if t.len() >= 2 && t.last() == '%' && t.len() - 1 <= 3 && all_digits(t.drop_last()) {
            lemma_digits_val_bound(t.drop_last());
        }
    }
    r
}

} // verus!
