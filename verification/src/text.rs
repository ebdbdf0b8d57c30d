//! Text in and out: decimal for integers, lowercase hexadecimal for byte
//! strings, and trimming of white space.

use vstd::prelude::*;

verus! {

/// The character for one digit: `0`..`9`, then `a`..`f`.
pub open spec fn digit_char(d: int) -> char {
    if d < 10 {
        ((48 + d) as u8) as char
    } else {
        ((87 + d) as u8) as char
    }
}

/// An integer in decimal, most significant digit first, without sign or
/// leading zeros; zero is `0`.
pub open spec fn decimal(n: nat) -> Seq<char>
    decreases n,
{
    if n < 10 {
        seq![digit_char(n as int)]
    } else {
        decimal(n / 10).push(digit_char((n % 10) as int))
    }
}

/// A byte string in lowercase hexadecimal: two digits for each byte, the
/// high half first.
pub open spec fn hex_lower(bytes: Seq<u8>) -> Seq<char> {
    Seq::new(
        2 * bytes.len(),
        |i: int|
            if i % 2 == 0 {
                digit_char(bytes[i / 2] as int / 16)
            } else {
                digit_char(bytes[i / 2] as int % 16)
            },
    )
}

/// Whether a character is a decimal digit.
pub open spec fn is_decimal_digit(c: char) -> bool {
    '0' <= c <= '9'
}

/// Whether a character is a lowercase hexadecimal digit.
pub open spec fn is_hex_digit(c: char) -> bool {
    ('0' <= c <= '9') || ('a' <= c <= 'f')
}

/// The one-character text of a digit below sixteen.
fn digit_str(d: u8) -> (s: &'static str)
    requires
        d < 16,
    ensures
        s@ == seq![digit_char(d as int)],
{
    proof {
        reveal_strlit("0");
        reveal_strlit("1");
        reveal_strlit("2");
        reveal_strlit("3");
        reveal_strlit("4");
        reveal_strlit("5");
        reveal_strlit("6");
        reveal_strlit("7");
        reveal_strlit("8");
        reveal_strlit("9");
        reveal_strlit("a");
        reveal_strlit("b");
        reveal_strlit("c");
        reveal_strlit("d");
        reveal_strlit("e");
        reveal_strlit("f");
    }
    let s: &'static str = match d {
        0 => "0",
        1 => "1",
        2 => "2",
        3 => "3",
        4 => "4",
        5 => "5",
        6 => "6",
        7 => "7",
        8 => "8",
        9 => "9",
        10 => "a",
        11 => "b",
        12 => "c",
        13 => "d",
        14 => "e",
        _ => "f",
    };
    assert(s@ =~= seq![digit_char(d as int)]);
    s
}

/// Appends the decimal text of `n` to `out`.
pub fn push_decimal(out: &mut String, n: u64)
    ensures
        final(out)@ == old(out)@ + decimal(n as nat),
    decreases n,
{
    if n >= 10 {
        push_decimal(out, n / 10);
    }
    let d: u8 = (n % 10) as u8;
    out.append(digit_str(d));
    assert(out@ =~= old(out)@ + decimal(n as nat));
}

/// The decimal text of `n`.
pub fn to_decimal(n: u64) -> (s: String)
    ensures
        s@ == decimal(n as nat),
{
    let mut s = String::new();
    push_decimal(&mut s, n);
    assert(s@ =~= decimal(n as nat));
    s
}

/// The lowercase hexadecimal text of `bytes`.
pub fn to_hex_lower(bytes: &[u8]) -> (s: String)
    ensures
        s@ == hex_lower(bytes@),
{
    let mut s = String::new();
    let mut i: usize = 0;
    assert(s@ =~= hex_lower(bytes@.take(0)));
    while i < bytes.len()
        invariant
            i <= bytes.len(),
            s@ == hex_lower(bytes@.take(i as int)),
        decreases bytes.len() - i,
    {
        let b: u8 = bytes[i];
        let ghost before = s@;
        s.append(digit_str(b / 16));
        s.append(digit_str(b % 16));
        i = i + 1;
        assert(s@ =~= hex_lower(bytes@.take(i as int))) by {
            let now = hex_lower(bytes@.take(i as int));
            assert(s@.len() == now.len());
            assert forall|k: int| 0 <= k < s@.len() implies s@[k] == now[k] by {
                if k < 2 * (i - 1) {
                    assert(s@[k] == before[k]);
                    assert(bytes@.take(i as int)[k / 2] == bytes@.take(i - 1)[k / 2]);
                }
            }
        }
    }
    assert(bytes@.take(i as int) =~= bytes@);
    s
}

/// Every digit below ten renders as a decimal digit, every digit below
/// sixteen as a lowercase hexadecimal digit, and different digits render
/// differently.
pub proof fn lemma_digit_char(d: int, e: int)
    requires
        0 <= d < 16,
        0 <= e < 16,
    ensures
        is_hex_digit(digit_char(d)),
        d < 10 ==> is_decimal_digit(digit_char(d)),
        digit_char(d) == digit_char(e) ==> d == e,
{
}

/// Hexadecimal text has two digits for each byte, and holds nothing but
/// lowercase hexadecimal digits.
pub proof fn lemma_hex_lower_digits(bytes: Seq<u8>)
    ensures
        hex_lower(bytes).len() == 2 * bytes.len(),
        forall|i: int|
            0 <= i < hex_lower(bytes).len() ==> is_hex_digit(#[trigger] hex_lower(bytes)[i]),
{
    assert forall|i: int| 0 <= i < hex_lower(bytes).len() implies is_hex_digit(
        #[trigger] hex_lower(bytes)[i],
    ) by {
        let b = bytes[i / 2] as int;
        lemma_digit_char(b / 16, b % 16);
    }
}

/// Different byte strings have different hexadecimal text.
pub proof fn lemma_hex_lower_injective(a: Seq<u8>, b: Seq<u8>)
    requires
        hex_lower(a) == hex_lower(b),
    ensures
        a == b,
{
    lemma_hex_lower_digits(a);
    lemma_hex_lower_digits(b);
    assert forall|i: int| 0 <= i < a.len() implies a[i] == b[i] by {
        let x = a[i] as int;
        let y = b[i] as int;
        assert((2 * i) / 2 == i && (2 * i) % 2 == 0);
        assert((2 * i + 1) / 2 == i && (2 * i + 1) % 2 == 1);
        assert(hex_lower(a)[2 * i] == digit_char(x / 16));
        assert(hex_lower(b)[2 * i] == digit_char(y / 16));
        assert(hex_lower(a)[2 * i + 1] == digit_char(x % 16));
        assert(hex_lower(b)[2 * i + 1] == digit_char(y % 16));
        lemma_digit_char(x / 16, y / 16);
        lemma_digit_char(x % 16, y % 16);
    }
    assert(a =~= b);
}

/// Decimal text is never empty, holds nothing but decimal digits, and starts
/// with `0` only for zero.
pub proof fn lemma_decimal_digits(n: nat)
    ensures
        decimal(n).len() >= 1,
        n >= 10 ==> decimal(n).len() >= 2,
        forall|i: int| 0 <= i < decimal(n).len() ==> is_decimal_digit(#[trigger] decimal(n)[i]),
        decimal(n)[0] == '0' ==> n == 0,
    decreases n,
{
    if n < 10 {
        lemma_digit_char(n as int, 0);
    } else {
        lemma_decimal_digits(n / 10);
        lemma_digit_char((n % 10) as int, 0);
    }
}

/// Different integers have different decimal text.
pub proof fn lemma_decimal_injective(a: nat, b: nat)
    requires
        decimal(a) == decimal(b),
    ensures
        a == b,
    decreases a,
{
    lemma_decimal_digits(a);
    lemma_decimal_digits(b);
    if a < 10 && b < 10 {
        assert(decimal(a)[0] == decimal(b)[0]);
        lemma_digit_char(a as int, b as int);
    } else if a >= 10 && b >= 10 {
        let x = decimal(a / 10);
        let y = decimal(b / 10);
        let p = digit_char((a % 10) as int);
        let q = digit_char((b % 10) as int);
        assert(x.push(p) == y.push(q));
        assert(x =~= x.push(p).drop_last());
        assert(y =~= y.push(q).drop_last());
        assert(p == x.push(p).last());
        assert(q == y.push(q).last());
        lemma_decimal_injective(a / 10, b / 10);
        lemma_digit_char((a % 10) as int, (b % 10) as int);
    }
}

/// Whether a character is white space: the Unicode property `White_Space`,
/// as `char::is_whitespace` decides it.
pub uninterp spec fn white_space(c: char) -> bool;

/// `i` and `j` cut `s` where its leading white space ends and its trailing
/// white space begins.
pub open spec fn trim_bounds(s: Seq<char>, i: int, j: int) -> bool {
    &&& 0 <= i <= j <= s.len()
    &&& forall|k: int| 0 <= k < i ==> white_space(#[trigger] s[k])
    &&& forall|k: int| j <= k < s.len() ==> white_space(#[trigger] s[k])
    &&& i < j ==> !white_space(s[i]) && !white_space(s[j - 1])
}

/// `t` is `s` without its leading and trailing white space.
pub open spec fn is_trim_of(t: Seq<char>, s: Seq<char>) -> bool {
    exists|i: int, j: int| #[trigger] trim_bounds(s, i, j) && t == s.subrange(i, j)
}

/// Whether a text holds white space only (an empty text does).
pub open spec fn all_white_space(s: Seq<char>) -> bool {
    forall|k: int| 0 <= k < s.len() ==> white_space(#[trigger] s[k])
}

/// `char::is_whitespace`: whether the character has the Unicode property
/// `White_Space`. The contract gives that answer its name.
#[verifier::external_body]
fn is_whitespace(c: char) -> (r: bool)
    ensures
        r == white_space(c),
{
    c.is_whitespace()
}

/// A text without its leading and trailing white space.
pub fn trim(s: &str) -> (t: &str)
    ensures
        is_trim_of(t@, s@),
{
    let n: usize = s.unicode_len();
    let mut start: usize = 0;
    let mut scanning: bool = true;
    while scanning && start < n
        invariant
            n == s@.len(),
            start <= n,
            forall|k: int| 0 <= k < start ==> white_space(#[trigger] s@[k]),
            !scanning ==> start < n && !white_space(s@[start as int]),
        decreases n - start + if scanning { 1int } else { 0int },
    {
        if is_whitespace(s.get_char(start)) {
            start = start + 1;
        } else {
            scanning = false;
        }
    }
    if start == n {
        assert(trim_bounds(s@, n as int, n as int));
        return s.substring_char(n, n);
    }
    let mut end: usize = n;
    scanning = true;
    while scanning && end > start
        invariant
            n == s@.len(),
            start < n,
            start <= end <= n,
            !white_space(s@[start as int]),
            forall|k: int| end <= k < n ==> white_space(#[trigger] s@[k]),
            !scanning ==> end > start && !white_space(s@[end - 1]),
        decreases end - start + if scanning { 1int } else { 0int },
    {
        if is_whitespace(s.get_char(end - 1)) {
            end = end - 1;
        } else {
            scanning = false;
        }
    }
    assert(trim_bounds(s@, start as int, end as int));
    s.substring_char(start, end)
}

/// A text has one trimmed form only, and it is empty exactly when the text
/// holds nothing but white space.
pub proof fn lemma_trim_unique(s: Seq<char>, t1: Seq<char>, t2: Seq<char>)
    requires
        is_trim_of(t1, s),
        is_trim_of(t2, s),
    ensures
        t1 == t2,
        t1.len() == 0 <==> all_white_space(s),
{
    let (i1, j1) = choose|i: int, j: int| #[trigger] trim_bounds(s, i, j) && t1 == s.subrange(i, j);
    let (i2, j2) = choose|i: int, j: int| #[trigger] trim_bounds(s, i, j) && t2 == s.subrange(i, j);
    if i1 < j1 {
        assert(!white_space(s[i1]));
        assert(!white_space(s[j1 - 1]));
        assert(i2 <= i1 < j2);
        assert(i2 < j1 <= j2);
        assert(!white_space(s[i2]));
        assert(!white_space(s[j2 - 1]));
        assert(i1 == i2 && j1 == j2);
    } else {
        assert(all_white_space(s));
        if i2 < j2 {
            assert(!white_space(s[i2]));
        }
        assert(t1 =~= t2);
    }
}

} // verus!
