//! The co-author parser: pure extraction of identities from the free text
//! of a commit message.
//!
//! The message is scanned line by line for trailers of the form
//! `Co-authored-by:<rest>` (case-sensitive keyword, optional leading
//! blanks, the rest taken verbatim to the end of the line). Each rest is
//! then read with a lenient three-tier fallback: free text followed by an
//! angle-bracketed email; otherwise bare text containing `@`, taken as an
//! email; otherwise plain text, taken as a name. Order of appearance is
//! preserved and duplicates are kept.

use vstd::prelude::*;

use crate::git_logger::{User, UserView};
use crate::text::{first_non_ws, trim_spec, trimmed, scan_first_non_ws};

verus! {

/// The trailer keyword, one character at a time.
pub open spec fn key() -> Seq<char> {
    seq!['C', 'o', '-', 'a', 'u', 't', 'h', 'o', 'r', 'e', 'd', '-', 'b', 'y', ':']
}

/// The first index at or after `i` holding a newline, or the length of
/// `s` when the rest of `s` is one line.
pub open spec fn next_nl(s: Seq<char>, i: int) -> int
    decreases s.len() - i,
{
    if i < 0 || i >= s.len() {
        s.len() as int
    } else if s[i] == '\n' {
        i
    } else {
        next_nl(s, i + 1)
    }
}

pub proof fn lemma_next_nl(s: Seq<char>, i: int)
    requires
        0 <= i <= s.len(),
    ensures
        i <= next_nl(s, i) <= s.len(),
    decreases s.len() - i,
{
    if i < s.len() && s[i] != '\n' {
        lemma_next_nl(s, i + 1);
    }
}

/// What a line contributes: `Some(rest)` when the line is blanks, then the
/// trailer keyword, then the rest; `None` otherwise.
pub open spec fn trailer_rest(line: Seq<char>) -> Option<Seq<char>> {
    let k = first_non_ws(line, 0);
    if k + 15 <= line.len() && line.subrange(k, k + 15) == key() {
        Some(line.subrange(k + 15, line.len() as int))
    } else {
        None
    }
}

/// The largest index of an opening angle bracket, at or before `j`, whose
/// bracketed text runs non-empty and free of closing brackets to the final
/// character; `-1` when there is none.
pub open spec fn angle_open(rest: Seq<char>, j: int) -> int
    decreases j + 1,
{
    if j < 0 || j >= rest.len() {
        -1
    } else if rest[j] == '>' {
        -1
    } else if rest[j] == '<' && j <= rest.len() - 3 {
        j
    } else {
        angle_open(rest, j - 1)
    }
}

pub open spec fn contains_at(rest: Seq<char>) -> bool {
    exists|t: int| 0 <= t < rest.len() && rest[t] == '@'
}

/// The identity one trailer rest denotes, by the three-tier fallback:
/// a name with a trailing angle-bracketed email; else bare text with an
/// `@`, read as an email; else plain text, read as a name. Free text and
/// bracket contents are trimmed of blanks.
pub open spec fn parse_rest(rest: Seq<char>) -> UserView {
    let n = rest.len() as int;
    if n >= 3 && rest[n - 1] == '>' && angle_open(rest, n - 2) >= 0 {
        let i = angle_open(rest, n - 2);
        UserView {
            name: trim_spec(rest.subrange(0, i)),
            email: trim_spec(rest.subrange(i + 1, n - 1)),
        }
    } else if contains_at(rest) {
        UserView { name: Seq::empty(), email: trim_spec(rest) }
    } else {
        UserView { name: trim_spec(rest), email: Seq::empty() }
    }
}

/// The identities contributed by the lines of `msg` from position `i` on,
/// in order of appearance.
pub open spec fn co_scan(msg: Seq<char>, i: int) -> Seq<UserView>
    decreases msg.len() - i + 1,
    via co_scan_dec
{
    if i < 0 || i > msg.len() {
        Seq::empty()
    } else {
        let j = next_nl(msg, i);
        let line = msg.subrange(i, j);
        let here = match trailer_rest(line) {
            Some(rest) => seq![parse_rest(rest)],
            None => Seq::empty(),
        };
        if j >= msg.len() {
            here
        } else {
            here + co_scan(msg, j + 1)
        }
    }
}

#[via_fn]
proof fn co_scan_dec(msg: Seq<char>, i: int) {
    if 0 <= i <= msg.len() {
        lemma_next_nl(msg, i);
    }
}

/// Every co-author named in the message, in order of appearance,
/// duplicates kept.
pub open spec fn coauthors_of(msg: Seq<char>) -> Seq<UserView> {
    co_scan(msg, 0)
}

/// The absolute index of the first newline of `s` at or after `from`, or
/// the length of `s`.
fn find_nl(s: &str, from: usize) -> (j: usize)
    requires
        from <= s@.len(),
    ensures
        j == next_nl(s@, from as int),
        from <= j <= s@.len(),
        j < s@.len() ==> s@[j as int] == '\n',
{
    let n = s.unicode_len();
    let mut m: usize = from;
    while m < n
        invariant
            from <= m <= n == s@.len(),
            next_nl(s@, from as int) == next_nl(s@, m as int),
        decreases n - m,
    {
        if s.get_char(m) == '\n' {
            return m;
        }
        m = m + 1;
    }
    m
}

/// One keyword character, by position.
fn key_char(t: usize) -> (c: char)
    requires
        t < 15,
    ensures
        c == key()[t as int],
{
    match t {
        0 => 'C',
        1 => 'o',
        2 => '-',
        3 => 'a',
        4 => 'u',
        5 => 't',
        6 => 'h',
        7 => 'o',
        8 => 'r',
        9 => 'e',
        10 => 'd',
        11 => '-',
        12 => 'b',
        13 => 'y',
        _ => ':',
    }
}

/// Whether the window `[k, end)` of `s` begins with the trailer keyword.
fn has_key_at(s: &str, k: usize, end: usize) -> (b: bool)
    requires
        k <= end <= s@.len(),
    ensures
        b == (k + 15 <= end && s@.subrange(k as int, k as int + 15) == key()),
{
    if end - k < 15 {
        return false;
    }
    let mut t: usize = 0;
    while t < 15
        invariant
            t <= 15,
            k + 15 <= end <= s@.len(),
            forall|m: int| 0 <= m < t ==> s@[k + m] == key()[m],
        decreases 15 - t,
    {
        if s.get_char(k + t) != key_char(t) {
            proof {
                assert(s@.subrange(k as int, k as int + 15)[t as int] == s@[k + t]);
            }
            return false;
        }
        t = t + 1;
    }
    proof {
        assert(s@.subrange(k as int, k as int + 15) =~= key());
    }
    true
}

/// Whether the window `[from, to)` of `s` holds an `@`.
fn has_at(s: &str, from: usize, to: usize) -> (b: bool)
    requires
        from <= to <= s@.len(),
    ensures
        b == contains_at(s@.subrange(from as int, to as int)),
{
    let ghost sub = s@.subrange(from as int, to as int);
    let mut m: usize = from;
    while m < to
        invariant
            from <= m <= to <= s@.len(),
            sub == s@.subrange(from as int, to as int),
            forall|t: int| 0 <= t < m - from ==> sub[t] != '@',
        decreases to - m,
    {
        proof {
            assert(sub[m - from] == s@[m as int]);
        }
        if s.get_char(m) == '@' {
            return true;
        }
        m = m + 1;
    }
    false
}

/// The absolute index of the opening angle bracket that `angle_open` names
/// inside the window `[r0, r1)` of `s`, scanned from the end.
fn find_angle_open(s: &str, r0: usize, r1: usize) -> (res: Option<usize>)
    requires
        r0 + 2 <= r1 <= s@.len(),
    ensures
        ({
            let rest = s@.subrange(r0 as int, r1 as int);
            let a = angle_open(rest, rest.len() - 2);
            match res {
                Some(u) => a >= 0 && u == r0 + a && r0 <= u && u + 3 <= r1,
                None => a == -1,
            }
        }),
{
    let ghost rest = s@.subrange(r0 as int, r1 as int);
    let mut u: usize = r1 - 2;
    loop
        invariant
            r0 <= u <= r1 - 2,
            r1 <= s@.len(),
            r0 + 2 <= r1,
            rest == s@.subrange(r0 as int, r1 as int),
            angle_open(rest, rest.len() - 2) == angle_open(rest, u - r0),
        decreases u,
    {
        proof {
            assert(rest[u - r0] == s@[u as int]);
        }
        let c = s.get_char(u);
        if c == '>' {
            return None;
        }
        if c == '<' && r1 - u >= 3 {
            return Some(u);
        }
        if u == r0 {
            proof {
                assert(angle_open(rest, -1) == -1);
            }
            return None;
        }
        u = u - 1;
    }
}

/// Read one trailer rest, the window `[r0, r1)` of `s`, as an identity.
fn parse_trailer_rest(s: &str, r0: usize, r1: usize) -> (u: User)
    requires
        r0 <= r1 <= s@.len(),
    ensures
        u@ == parse_rest(s@.subrange(r0 as int, r1 as int)),
{
    let ghost rest = s@.subrange(r0 as int, r1 as int);
    if r1 - r0 >= 3 && s.get_char(r1 - 1) == '>' {
        proof {
            assert(rest[rest.len() - 1] == s@[r1 - 1]);
        }
        match find_angle_open(s, r0, r1) {
            Some(ub) => {
                let name = trimmed(s, r0, ub);
                let email = trimmed(s, ub + 1, r1 - 1);
                proof {
                    assert(rest.subrange(0, ub - r0) =~= s@.subrange(r0 as int, ub as int));
                    assert(rest.subrange(ub - r0 + 1, rest.len() - 1) =~= s@.subrange(
                        ub + 1,
                        r1 - 1,
                    ));
                }
                User { name, email }
            },
            None => fallback_identity(s, r0, r1),
        }
    } else {
        proof {
            if rest.len() >= 3 {
                assert(rest[rest.len() - 1] == s@[r1 - 1]);
            }
        }
        fallback_identity(s, r0, r1)
    }
}

/// The two lower tiers: bare text with an `@` is an email, other text a
/// name.
fn fallback_identity(s: &str, r0: usize, r1: usize) -> (u: User)
    requires
        r0 <= r1 <= s@.len(),
    ensures
        ({
            let rest = s@.subrange(r0 as int, r1 as int);
            if contains_at(rest) {
                u@.name == Seq::<char>::empty() && u@.email == trim_spec(rest)
            } else {
                u@.name == trim_spec(rest) && u@.email == Seq::<char>::empty()
            }
        }),
{
    if has_at(s, r0, r1) {
        User { name: String::new(), email: trimmed(s, r0, r1) }
    } else {
        User { name: trimmed(s, r0, r1), email: String::new() }
    }
}

/// Extract every co-author named in a commit message, in order of
/// appearance; duplicates are not merged and email syntax is not checked
/// beyond the fallback rules.
pub fn find_coauthors(message: &str) -> (r: Vec<User>)
    ensures
        r@.map_values(|u: User| u@) == coauthors_of(message@),
{
    let n = message.unicode_len();
    let mut out: Vec<User> = Vec::new();
    let mut i: usize = 0;
    loop
        invariant_except_break
            i <= n,
            n == message@.len(),
            coauthors_of(message@) == out@.map_values(|u: User| u@) + co_scan(
                message@,
                i as int,
            ),
        ensures
            coauthors_of(message@) == out@.map_values(|u: User| u@),
        decreases n - i,
    {
        let ghost before = out@;
        let j = find_nl(message, i);
        let ghost line = message@.subrange(i as int, j as int);
        let k = scan_first_non_ws(message, i, j);
        proof {
            if k + 15 <= j {
                assert(line.subrange(k - i, k - i + 15) =~= message@.subrange(
                    k as int,
                    k as int + 15,
                ));
            }
        }
        if has_key_at(message, k, j) {
            let u = parse_trailer_rest(message, k + 15, j);
            proof {
                assert(line.subrange(k - i + 15, line.len() as int) =~= message@.subrange(
                    k + 15,
                    j as int,
                ));
            }
            out.push(u);
        }
        proof {
            let here = match trailer_rest(line) {
                Some(rest) => seq![parse_rest(rest)],
                None => Seq::<UserView>::empty(),
            };
            assert(out@.map_values(|u: User| u@) =~= before.map_values(|u: User| u@) + here);
            assert(co_scan(message@, i as int) == if j >= n {
                here
            } else {
                here + co_scan(message@, j + 1)
            });
        }
        if j == n {
            proof {
                assert(coauthors_of(message@) =~= out@.map_values(|u: User| u@));
            }
            break;
        }
        i = j + 1;
        proof {
            assert(coauthors_of(message@) =~= out@.map_values(|u: User| u@) + co_scan(
                message@,
                i as int,
            ));
        }
    }
    out
}

} // verus!
