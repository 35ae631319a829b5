//! Numbers as text, and the few questions about strings that the
//! library asks of std.

use vstd::prelude::*;
use vstd::string::StringExecFns;

verus! {

/// The decimal digits of `n`, most significant first.
pub open spec fn decimal(n: nat) -> Seq<char>
    decreases n,
{
    if n < 10 {
        seq![digit_char(n)]
    } else {
        decimal(n / 10).push(digit_char(n % 10))
    }
}

/// The character for a single decimal digit.
pub open spec fn digit_char(d: nat) -> char {
    if d == 0 {
        '0'
    } else if d == 1 {
        '1'
    } else if d == 2 {
        '2'
    } else if d == 3 {
        '3'
    } else if d == 4 {
        '4'
    } else if d == 5 {
        '5'
    } else if d == 6 {
        '6'
    } else if d == 7 {
        '7'
    } else if d == 8 {
        '8'
    } else {
        '9'
    }
}

fn digit_str(d: u64) -> (s: &'static str)
    requires
        d < 10,
    ensures
        s@ == seq![digit_char(d as nat)],
{
    proof {
        reveal_strlit("0");
        reveal_strlit("1");
        reveal_strlit("2");
        reveal_strlit("3");
        reveal_strlit("4");
        reveal_strlit("5");
        reveal_strlit("6");
        reveal_strlit("7");
        reveal_strlit("8");
        reveal_strlit("9");
    }
    let s = if d == 0 {
        "0"
    } else if d == 1 {
        "1"
    } else if d == 2 {
        "2"
    } else if d == 3 {
        "3"
    } else if d == 4 {
        "4"
    } else if d == 5 {
        "5"
    } else if d == 6 {
        "6"
    } else if d == 7 {
        "7"
    } else if d == 8 {
        "8"
    } else {
        "9"
    };
    s
}

/// Appends the decimal digits of `n` to `out`.
pub fn push_decimal(out: &mut String, n: u64)
    ensures
        final(out)@ == old(out)@ + decimal(n as nat),
    decreases n,
{
    if n >= 10 {
        push_decimal(out, n / 10);
    }
    out.append(digit_str(n % 10));
}

/// The number of whole `unit`s nearest to the size of `v`, a half
/// counting as a whole.
pub open spec fn rounded(v: int, unit: int) -> nat {
    (((if v < 0 {
        -v
    } else {
        v
    }) + unit / 2) / unit) as nat
}

/// `n` tenths as a number with one decimal place.
pub open spec fn tenths(n: nat) -> Seq<char> {
    decimal(n / 10) + seq!['.', digit_char(n % 10)]
}

/// `n` hundredths as a number with two decimal places.
pub open spec fn hundredths(n: nat) -> Seq<char> {
    decimal(n / 100) + seq!['.', digit_char((n / 10) % 10), digit_char(n % 10)]
}

/// The minus sign of a negative number, and nothing for any other.
pub open spec fn sign(v: i64) -> Seq<char> {
    if v < 0 {
        seq!['-']
    } else {
        Seq::<char>::empty()
    }
}

/// A number of thousandths as text with one decimal place, rounded to
/// the nearest tenth, with a minus sign where it is negative.
pub open spec fn one_place(milli: i64) -> Seq<char> {
    sign(milli) + tenths(rounded(milli as int, 100))
}

/// The size of a number of millionths as text with two decimal places,
/// rounded to the nearest hundredth, without a sign.
pub open spec fn two_places(micro: i64) -> Seq<char> {
    hundredths(rounded(micro as int, 10_000))
}

/// A number of millionths as text with two decimal places, with a
/// minus sign where it is negative.
pub open spec fn signed_two_places(micro: i64) -> Seq<char> {
    sign(micro) + two_places(micro)
}

fn magnitude(v: i64) -> (size: u64)
    ensures
        size == if v < 0 {
            -v
        } else {
            v as int
        },
{
    if v < 0 {
        (-(v as i128)) as u64
    } else {
        v as u64
    }
}

fn push_sign(out: &mut String, v: i64)
    ensures
        final(out)@ == old(out)@ + sign(v),
{
    if v < 0 {
        out.append("-");
        proof {
            reveal_strlit("-");
        }
    }
}

/// Appends a number of thousandths with one decimal place.
pub fn push_one_place(out: &mut String, milli: i64)
    ensures
        final(out)@ == old(out)@ + one_place(milli),
{
    push_sign(out, milli);
    let n: u64 = (magnitude(milli) + 50) / 100;
    push_decimal(out, n / 10);
    out.append(".");
    out.append(digit_str(n % 10));
    proof {
        reveal_strlit(".");
    }
}

/// Appends the size of a number of millionths with two decimal places.
pub fn push_two_places(out: &mut String, micro: i64)
    ensures
        final(out)@ == old(out)@ + two_places(micro),
{
    let n: u64 = (magnitude(micro) + 5000) / 10_000;
    push_decimal(out, n / 100);
    out.append(".");
    out.append(digit_str((n / 10) % 10));
    out.append(digit_str(n % 10));
    proof {
        reveal_strlit(".");
    }
}

/// The last `d` decimal digits of `n`, with zeros in front where it has
/// fewer.
pub open spec fn padded(n: nat, d: nat) -> Seq<char>
    decreases d,
{
    if d == 0 {
        Seq::empty()
    } else {
        padded(n / 10, (d - 1) as nat).push(digit_char(n % 10))
    }
}

/// The last `d` decimal digits of `n` without the zeros at their end.
pub open spec fn trimmed(n: nat, d: nat) -> Seq<char>
    decreases d,
{
    if d == 0 {
        Seq::empty()
    } else if n % 10 == 0 {
        trimmed(n / 10, (d - 1) as nat)
    } else {
        padded(n, d)
    }
}

/// A number of millionths as the shortest decimal number that says it:
/// a minus sign where it is negative, the whole part, and after a point
/// the digits of what is left, if anything is.
pub open spec fn shortest(micro: i64) -> Seq<char> {
    let size = if micro < 0 {
        -micro
    } else {
        micro as int
    };
    sign(micro) + decimal((size / 1_000_000) as nat) + if size % 1_000_000 == 0 {
        Seq::<char>::empty()
    } else {
        seq!['.'] + trimmed((size % 1_000_000) as nat, 6)
    }
}

fn push_padded(out: &mut String, n: u64, d: u32)
    ensures
        final(out)@ == old(out)@ + padded(n as nat, d as nat),
    decreases d,
{
    if d > 0 {
        push_padded(out, n / 10, d - 1);
        out.append(digit_str(n % 10));
    }
}

fn push_trimmed(out: &mut String, n: u64, d: u32)
    ensures
        final(out)@ == old(out)@ + trimmed(n as nat, d as nat),
    decreases d,
{
    if d == 0 {
    } else if n % 10 == 0 {
        push_trimmed(out, n / 10, d - 1);
    } else {
        push_padded(out, n, d);
    }
}

/// Appends a number of millionths as the shortest decimal number that
/// says it.
pub fn push_shortest(out: &mut String, micro: i64)
    ensures
        final(out)@ == old(out)@ + shortest(micro),
{
    push_sign(out, micro);
    let size: u64 = magnitude(micro);
    push_decimal(out, size / 1_000_000);
    if size % 1_000_000 != 0 {
        out.append(".");
        push_trimmed(out, size % 1_000_000, 6);
        proof {
            reveal_strlit(".");
        }
    }
}

/// Appends a number of millionths with two decimal places and its sign.
pub fn push_signed_two_places(out: &mut String, micro: i64)
    ensures
        final(out)@ == old(out)@ + signed_two_places(micro),
{
    push_sign(out, micro);
    push_two_places(out, micro);
}

/// Whether `pat` occurs in `s` as a run of consecutive characters.
pub open spec fn occurs_in(pat: Seq<char>, s: Seq<char>) -> bool {
    exists|i: int| 0 <= i <= s.len() - pat.len() && #[trigger] s.subrange(i, i + pat.len()) == pat
}

/// `String::push`: appends one character to a string.
#[verifier::external_body]
pub(crate) fn push_char(text: &mut String, ch: char)
    ensures
        final(text)@ == old(text)@.push(ch),
{
    text.push(ch);
}

/// `str::eq`: two string slices are equal when they hold the same
/// characters in the same order.
#[verifier::external_body]
pub(crate) fn str_eq(a: &str, b: &str) -> (same: bool)
    ensures
        same == (a@ == b@),
{
    a == b
}

/// `str::contains` with a string pattern: whether the pattern matches a
/// sub-slice of the string.
#[verifier::external_body]
pub(crate) fn str_contains(s: &str, pat: &str) -> (found: bool)
    ensures
        found == occurs_in(pat@, s@),
{
    s.contains(pat)
}

} // verus!
