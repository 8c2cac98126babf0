//! Per-line indentation and width data: for one line of source text, the
//! number of leading spaces, the number of leading tabs, and the width in
//! characters of the trimmed text that follows the indentation.

use vstd::prelude::*;

use crate::text::{
    first_non_ws, last_non_ws, lemma_first_non_ws, lemma_last_non_ws, scan_first_non_ws,
    scan_last_non_ws, trim_spec,
};

verus! {

/// What decoding bytes as UTF-8 yields, invalid sequences replaced; the
/// result depends on the bytes alone.
pub uninterp spec fn lossy_of(bytes: Seq<u8>) -> Seq<char>;

/// Relies on String::from_utf8_lossy: decodes the bytes as UTF-8,
/// replacing invalid sequences, each decoded character consuming at least
/// one input byte.
#[verifier::external_body]
fn utf8_lossy(bytes: &[u8]) -> (r: String)
    ensures
        r@ == lossy_of(bytes@),
        r@.len() <= bytes@.len(),
{
    String::from_utf8_lossy(bytes).into_owned()
}

/// The first index at or after `i` past the indentation: its byte is
/// neither a space nor a tab; the length of the line when the whole line
/// is indentation.
pub open spec fn indent_end(line: Seq<u8>, i: int) -> int
    decreases line.len() - i,
{
    if i < 0 || i >= line.len() {
        line.len() as int
    } else if line[i] == 32 || line[i] == 9 {
        indent_end(line, i + 1)
    } else {
        i
    }
}

/// How many of the first `n` bytes equal `b`.
pub open spec fn count_byte(line: Seq<u8>, b: u8, n: int) -> int
    decreases n,
{
    if n <= 0 {
        0
    } else {
        count_byte(line, b, n - 1) + if line[n - 1] == b {
            1int
        } else {
            0int
        }
    }
}

/// The data of one line of source text.
#[derive(Clone, Debug, PartialEq)]
pub struct CodeLineData {
    pub spaces: u32,
    pub tabs: u32,
    pub text: u32,
}

/// The value [`CodeLineData::new`] computes: leading spaces and tabs
/// counted over the indentation, and the character width of the rest of
/// the line, decoded as UTF-8 and trimmed of blanks on both sides.
pub open spec fn code_line_spec(line: Seq<u8>) -> CodeLineData {
    let k = indent_end(line, 0);
    CodeLineData {
        spaces: count_byte(line, 32, k) as u32,
        tabs: count_byte(line, 9, k) as u32,
        text: if k == line.len() {
            0
        } else {
            trim_spec(lossy_of(line.skip(k))).len() as u32
        },
    }
}

impl CodeLineData {
    /// Measure one line: count its leading spaces and tabs, and the
    /// character width of the trimmed text after them.
    pub fn new(line: &[u8]) -> (d: CodeLineData)
        requires
            line@.len() <= u32::MAX,
        ensures
            d == code_line_spec(line@),
    {
        let n = line.len();
        let k = scan_indent_end(line);
        let mut spaces: u32 = 0;
        let mut tabs: u32 = 0;
        let mut m: usize = 0;
        while m < k
            invariant
                m <= k <= n == line@.len() <= u32::MAX,
                spaces == count_byte(line@, 32, m as int),
                tabs == count_byte(line@, 9, m as int),
                spaces <= m,
                tabs <= m,
            decreases k - m,
        {
            let c = line[m];
            if c == 32 {
                spaces = spaces + 1;
            } else if c == 9 {
                tabs = tabs + 1;
            }
            m = m + 1;
        }
        let text: u32 = if k == n {
            0
        } else {
            let suffix = utf8_lossy(&line[k..n]);
            let ghost dec = lossy_of(line@.skip(k as int));
            proof {
                assert(line@.subrange(k as int, n as int) =~= line@.skip(k as int));
            }
            let ulen = suffix.as_str().unicode_len();
            let a = scan_first_non_ws(suffix.as_str(), 0, ulen);
            proof {
                assert(suffix@.subrange(0, ulen as int) =~= dec);
            }
            if a == ulen {
                0
            } else {
                let b = scan_last_non_ws(suffix.as_str(), 0, ulen);
                proof {
                    lemma_first_non_ws(dec, 0);
                    lemma_last_non_ws(dec, dec.len() - 1);
                    assert(b > a);
                }
                (b - a) as u32
            }
        };
        CodeLineData { spaces, tabs, text }
    }
}

/// Scan the line for the end of its indentation.
fn scan_indent_end(line: &[u8]) -> (k: usize)
    ensures
        k == indent_end(line@, 0),
        k <= line@.len(),
{
    let n = line.len();
    let mut m: usize = 0;
    while m < n
        invariant
            m <= n == line@.len(),
            indent_end(line@, 0) == indent_end(line@, m as int),
        decreases n - m,
    {
        let c = line[m];
        if c != 32 && c != 9 {
            return m;
        }
        m = m + 1;
    }
    m
}

/// The lines of one file, measured one by one.
#[derive(Clone, Debug, PartialEq)]
pub struct CodeLines {
    pub lines: Vec<CodeLineData>,
}

impl CodeLines {
    /// Measure each line of a file's source text.
    pub fn new(code_lines: &Vec<Vec<u8>>) -> (r: CodeLines)
        requires
            forall|i: int| 0 <= i < code_lines@.len() ==> (#[trigger] code_lines@[i])@.len()
                <= u32::MAX,
        ensures
            r.lines@.len() == code_lines@.len(),
            forall|i: int| 0 <= i < code_lines@.len() ==> #[trigger] r.lines@[i]
                == code_line_spec(code_lines@[i]@),
    {
        let mut lines: Vec<CodeLineData> = Vec::new();
        let mut i: usize = 0;
        while i < code_lines.len()
            invariant
                i <= code_lines@.len(),
                lines@.len() == i,
                forall|j: int| 0 <= j < code_lines@.len() ==> (#[trigger] code_lines@[j])@.len()
                    <= u32::MAX,
                forall|j: int| 0 <= j < i ==> #[trigger] lines@[j]
                    == code_line_spec(code_lines@[j]@),
            decreases code_lines@.len() - i,
        {
            lines.push(CodeLineData::new(code_lines[i].as_slice()));
            i = i + 1;
        }
        CodeLines { lines }
    }
}

} // verus!
