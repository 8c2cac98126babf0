//! Character-level text helpers: the white-space character class, scanning
//! for the first and last non-blank character of a window, and trimming a
//! window of a string to an owned copy.

use vstd::prelude::*;

verus! {

/// The Unicode white-space characters: the class that both the trailer
/// scanner's leading-blank rule and trimming recognize.
pub open spec fn is_ws(c: char) -> bool {
    c == ' ' || c == '\t' || c == '\n' || c == '\r' || c == '\u{b}' || c == '\u{c}' || c
        == '\u{85}' || c == '\u{a0}' || c == '\u{1680}' || (0x2000 <= c as u32 && c as u32
        <= 0x200a) || c == '\u{2028}' || c == '\u{2029}' || c == '\u{202f}' || c == '\u{205f}' || c
        == '\u{3000}'
}

/// Decide membership in the white-space class.
pub fn is_whitespace_char(c: char) -> (b: bool)
    ensures
        b == is_ws(c),
{
    c == ' ' || c == '\t' || c == '\n' || c == '\r' || c == '\u{b}' || c == '\u{c}' || c
        == '\u{85}' || c == '\u{a0}' || c == '\u{1680}' || (0x2000 <= c as u32 && c as u32
        <= 0x200a) || c == '\u{2028}' || c == '\u{2029}' || c == '\u{202f}' || c == '\u{205f}' || c
        == '\u{3000}'
}

/// The first index at or after `i` holding a non-blank character, or the
/// length of `s` when everything from `i` on is blank.
pub open spec fn first_non_ws(s: Seq<char>, i: int) -> int
    decreases s.len() - i,
{
    if i < 0 || i >= s.len() {
        s.len() as int
    } else if !is_ws(s[i]) {
        i
    } else {
        first_non_ws(s, i + 1)
    }
}

/// The last index at or before `i` holding a non-blank character, or `-1`
/// when everything up to `i` is blank.
pub open spec fn last_non_ws(s: Seq<char>, i: int) -> int
    decreases i + 1,
{
    if i < 0 || i >= s.len() {
        -1
    } else if !is_ws(s[i]) {
        i
    } else {
        last_non_ws(s, i - 1)
    }
}

/// What trimming leaves: the window from the first to the last non-blank
/// character, or nothing when the text is all blank.
pub open spec fn trim_spec(s: Seq<char>) -> Seq<char> {
    let a = first_non_ws(s, 0);
    if a == s.len() {
        Seq::empty()
    } else {
        s.subrange(a, last_non_ws(s, s.len() - 1) + 1)
    }
}

pub proof fn lemma_first_non_ws(s: Seq<char>, i: int)
    requires
        0 <= i <= s.len(),
    ensures
        i <= first_non_ws(s, i) <= s.len(),
        first_non_ws(s, i) < s.len() ==> !is_ws(s[first_non_ws(s, i)]),
        forall|m: int| i <= m < first_non_ws(s, i) ==> is_ws(#[trigger] s[m]),
    decreases s.len() - i,
{
    if i < s.len() && is_ws(s[i]) {
        lemma_first_non_ws(s, i + 1);
    }
}

pub proof fn lemma_last_non_ws(s: Seq<char>, i: int)
    requires
        -1 <= i < s.len(),
    ensures
        -1 <= last_non_ws(s, i) <= i,
        last_non_ws(s, i) >= 0 ==> !is_ws(s[last_non_ws(s, i)]),
        forall|m: int| last_non_ws(s, i) < m <= i ==> is_ws(#[trigger] s[m]),
    decreases i + 1,
{
    if 0 <= i && is_ws(s[i]) {
        lemma_last_non_ws(s, i - 1);
    }
}

/// Scan window `[from, to)` of `s` for its first non-blank character,
/// returning its absolute index, or `to` when the window is all blank.
pub fn scan_first_non_ws(s: &str, from: usize, to: usize) -> (k: usize)
    requires
        from <= to <= s@.len(),
    ensures
        k == from + first_non_ws(s@.subrange(from as int, to as int), 0),
        from <= k <= to,
{
    let ghost sub = s@.subrange(from as int, to as int);
    let mut m: usize = from;
    while m < to
        invariant
            from <= m <= to <= s@.len(),
            sub == s@.subrange(from as int, to as int),
            first_non_ws(sub, 0) == first_non_ws(sub, m - from),
        decreases to - m,
    {
        proof {
            assert(sub[m - from] == s@[m as int]);
        }
        if !is_whitespace_char(s.get_char(m)) {
            return m;
        }
        m = m + 1;
    }
    m
}

/// Scan window `[from, to)` of `s` for its last non-blank character,
/// returning the absolute index one past it, or `from` when the window is
/// all blank.
pub fn scan_last_non_ws(s: &str, from: usize, to: usize) -> (k: usize)
    requires
        from <= to <= s@.len(),
    ensures
        k == from + 1 + last_non_ws(s@.subrange(from as int, to as int), to - from - 1),
        from <= k <= to,
{
    let ghost sub = s@.subrange(from as int, to as int);
    let mut m: usize = to;
    while m > from
        invariant
            from <= m <= to <= s@.len(),
            sub == s@.subrange(from as int, to as int),
            last_non_ws(sub, to - from - 1) == last_non_ws(sub, m - from - 1),
        decreases m,
    {
        proof {
            assert(sub[m - 1 - from] == s@[m - 1]);
        }
        if !is_whitespace_char(s.get_char(m - 1)) {
            return m;
        }
        m = m - 1;
    }
    m
}

/// An owned copy of window `[from, to)` of `s`, trimmed of leading and
/// trailing blanks.
pub fn trimmed(s: &str, from: usize, to: usize) -> (r: String)
    requires
        from <= to <= s@.len(),
    ensures
        r@ == trim_spec(s@.subrange(from as int, to as int)),
{
    let ghost sub = s@.subrange(from as int, to as int);
    let a = scan_first_non_ws(s, from, to);
    if a == to {
        String::new()
    } else {
        let b = scan_last_non_ws(s, from, to);
        proof {
            lemma_first_non_ws(sub, 0);
            lemma_last_non_ws(sub, sub.len() - 1);
            assert(b > a);
            assert(sub.subrange(a - from, b - from) =~= s@.subrange(a as int, b as int));
        }
        s.substring_char(a, b).to_owned()
    }
}

} // verus!
