//! Small verified helpers on strings.

use vstd::prelude::*;
use vstd::string::*;

verus! {

/// Equality of two string slices, stated over their character sequences.
pub fn str_eq(a: &str, b: &str) -> (r: bool)
    ensures
        r == (a@ == b@),
{
    let sa: String = a.to_owned();
    let sb: String = b.to_owned();
    sa == sb
}

/// The index of the first occurrence of `c` in `s`, or `-1` if `c` does
/// not occur.
pub open spec fn find_char(s: Seq<char>, c: char) -> int
    decreases s.len(),
{
    if s.len() == 0 {
        -1
    } else if s[0] == c {
        0
    } else if find_char(s.skip(1), c) < 0 {
        -1
    } else {
        find_char(s.skip(1), c) + 1
    }
}

/// If `c` occurs at `i` and nowhere earlier, then `i` is where the search
/// finds it.
pub proof fn lemma_find_char_at(s: Seq<char>, c: char, i: int)
    requires
        0 <= i < s.len(),
        s[i] == c,
        forall|j: int| 0 <= j < i ==> s[j] != c,
    ensures
        find_char(s, c) == i,
    decreases s.len(),
{
    if s[0] == c {
        assert(i == 0);
    } else {
        lemma_find_char_at(s.skip(1), c, i - 1);
    }
}

/// If `c` occurs nowhere in `s`, the search reports `-1`.
pub proof fn lemma_find_char_none(s: Seq<char>, c: char)
    requires
        forall|j: int| 0 <= j < s.len() ==> s[j] != c,
    ensures
        find_char(s, c) == -1,
    decreases s.len(),
{
    if s.len() > 0 {
        lemma_find_char_none(s.skip(1), c);
    }
}

/// Find the first occurrence of `c` in `s`.
pub fn find_first(s: &str, c: char) -> (r: Option<usize>)
    ensures
        match r {
            Some(i) => i < s@.len() && find_char(s@, c) == i,
            None => find_char(s@, c) == -1,
        },
{
    let n: usize = s.unicode_len();
    let mut i: usize = 0;
    while i < n
        invariant
            i <= n,
            n == s@.len(),
            forall|j: int| 0 <= j < i ==> s@[j] != c,
        decreases n - i,
    {
        if s.get_char(i) == c {
            proof {
                lemma_find_char_at(s@, c, i as int);
            }
            return Some(i);
        }
        i = i + 1;
    }
    proof {
        lemma_find_char_none(s@, c);
    }
    None
}

/// Wherever the search finds `c`, `c` indeed stands, and nowhere
/// earlier.
pub proof fn lemma_find_char_found(s: Seq<char>, c: char)
    requires
        find_char(s, c) >= 0,
    ensures
        find_char(s, c) < s.len(),
        s[find_char(s, c)] == c,
        forall|j: int| 0 <= j < find_char(s, c) ==> s[j] != c,
    decreases s.len(),
{
    if s.len() > 0 && s[0] != c {
        lemma_find_char_found(s.skip(1), c);
        assert forall|j: int| 0 <= j < find_char(s, c) implies s[j] != c by {
            if j > 0 {
                assert(s.skip(1)[j - 1] == s[j]);
            }
        }
    }
}

/// The text split into lines at each newline; a final newline closes the
/// last line without opening a new one.
pub open spec fn split_lines(s: Seq<char>) -> Seq<Seq<char>>
    decreases s.len(),
{
    if s.len() == 0 {
        Seq::empty()
    } else {
        let i: int = find_char(s, '\n');
        if 0 <= i < s.len() {
            seq![s.subrange(0, i)] + split_lines(s.subrange(i + 1, s.len() as int))
        } else {
            seq![s]
        }
    }
}

/// Splitting takes one newline-free line off the front at a time.
pub proof fn lemma_split_lines_step(a: Seq<char>, rest: Seq<char>)
    requires
        forall|j: int| 0 <= j < a.len() ==> a[j] != '\n',
    ensures
        split_lines(a + seq!['\n'] + rest) == seq![a] + split_lines(rest),
{
    let s = a + seq!['\n'] + rest;
    assert(s[a.len() as int] == '\n');
    assert(forall|j: int| 0 <= j < a.len() ==> s[j] == a[j]);
    lemma_find_char_at(s, '\n', a.len() as int);
    assert(s.subrange(0, a.len() as int) =~= a);
    assert(s.subrange(a.len() as int + 1, s.len() as int) =~= rest);
}

/// Whether `c` is one of the ten decimal digits.
pub open spec fn is_digit_char(c: char) -> bool {
    '0' <= c && c <= '9'
}

/// Whether every character of `s` is a decimal digit.
pub open spec fn all_digits(s: Seq<char>) -> bool {
    forall|i: int| 0 <= i < s.len() ==> is_digit_char(s[i])
}

/// Check that every character of `s` is a decimal digit.
pub fn check_all_digits(s: &str) -> (r: bool)
    ensures
        r == all_digits(s@),
{
    let n: usize = s.unicode_len();
    let mut i: usize = 0;
    while i < n
        invariant
            i <= n,
            n == s@.len(),
            forall|j: int| 0 <= j < i ==> is_digit_char(s@[j]),
        decreases n - i,
    {
        let c = s.get_char(i);
        if !('0' <= c && c <= '9') {
            return false;
        }
        i = i + 1;
    }
    true
}

/// The shape of an unsigned decimal number: digits, optionally followed
/// by a dot and more digits, with at least one digit on each side.
pub open spec fn is_unsigned_decimal(s: Seq<char>) -> bool {
    let d: int = find_char(s, '.');
    if d < 0 {
        s.len() > 0 && all_digits(s)
    } else {
        0 < d && d + 1 < s.len() && all_digits(s.subrange(0, d)) && all_digits(
            s.subrange(d + 1, s.len() as int),
        )
    }
}

/// The shape of a decimal number in decimal degrees: an optional leading
/// minus sign, then an unsigned decimal number.
pub open spec fn is_decimal(s: Seq<char>) -> bool {
    if s.len() > 0 && s[0] == '-' {
        is_unsigned_decimal(s.subrange(1, s.len() as int))
    } else {
        is_unsigned_decimal(s)
    }
}

/// Whether `s` holds no newline, so that it fits on one line of a
/// line-oriented format.
pub open spec fn no_newline(s: Seq<char>) -> bool {
    forall|j: int| 0 <= j < s.len() ==> s[j] != '\n'
}

/// A decimal number's text holds only digits, the dot and the minus
/// sign: in particular no newline.
pub proof fn lemma_decimal_no_newline(s: Seq<char>)
    requires
        is_decimal(s),
    ensures
        no_newline(s),
{
    assert forall|j: int| 0 <= j < s.len() implies s[j] != '\n' by {
        if s[0] == '-' {
            if j > 0 {
                lemma_unsigned_decimal_char(s.subrange(1, s.len() as int), j - 1);
            }
        } else {
            lemma_unsigned_decimal_char(s, j);
        }
    }
}

/// Each character of an unsigned decimal number is a digit or the dot.
proof fn lemma_unsigned_decimal_char(s: Seq<char>, j: int)
    requires
        is_unsigned_decimal(s),
        0 <= j < s.len(),
    ensures
        is_digit_char(s[j]) || s[j] == '.',
{
    let d: int = find_char(s, '.');
    if d < 0 {
        assert(is_digit_char(s[j]));
    } else {
        lemma_find_char_found(s, '.');
        if j < d {
            assert(s.subrange(0, d)[j] == s[j]);
            assert(is_digit_char(s[j]));
        } else if j > d {
            assert(s.subrange(d + 1, s.len() as int)[j - d - 1] == s[j]);
            assert(is_digit_char(s[j]));
        }
    }
}

/// Check that `s` has the shape of an unsigned decimal number.
pub fn check_unsigned_decimal(s: &str) -> (r: bool)
    ensures
        r == is_unsigned_decimal(s@),
{
    let n: usize = s.unicode_len();
    match find_first(s, '.') {
        None => n > 0 && check_all_digits(s),
        Some(d) => {
            if d == 0 || d + 1 >= n {
                false
            } else {
                let whole = s.substring_char(0, d);
                let frac = s.substring_char(d + 1, n);
                check_all_digits(whole) && check_all_digits(frac)
            }
        },
    }
}

/// Check that `s` has the shape of a decimal number in decimal degrees.
pub fn check_decimal(s: &str) -> (r: bool)
    ensures
        r == is_decimal(s@),
{
    let n: usize = s.unicode_len();
    if n > 0 && s.get_char(0) == '-' {
        check_unsigned_decimal(s.substring_char(1, n))
    } else {
        check_unsigned_decimal(s)
    }
}

} // verus!
