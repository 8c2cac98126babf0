use repo_miner::code_line_data::{CodeLineData, CodeLines};

#[test]
pub fn can_process_tabs_and_spaces() {
    let data = CodeLineData::new(" \t \t foo".as_bytes());
    assert_eq!(
        data,
        CodeLineData {
            spaces: 3,
            tabs: 2,
            text: 3
        }
    );
}

#[test]
pub fn can_process_unicode() {
    let data = CodeLineData::new("①②③④⑤⑥⑦⑧⑨⑩".as_bytes());
    assert_eq!(
        data,
        CodeLineData {
            spaces: 0,
            tabs: 0,
            text: 10
        }
    );
}

#[test]
fn empty_line_is_all_zero() {
    let data = CodeLineData::new("".as_bytes());
    assert_eq!(
        data,
        CodeLineData {
            spaces: 0,
            tabs: 0,
            text: 0
        }
    );
}

#[test]
fn blank_line_counts_indentation_only() {
    let data = CodeLineData::new("  \t".as_bytes());
    assert_eq!(
        data,
        CodeLineData {
            spaces: 2,
            tabs: 1,
            text: 0
        }
    );
}

#[test]
fn trailing_blanks_do_not_count_as_text() {
    let data = CodeLineData::new("  foo bar  \t".as_bytes());
    assert_eq!(
        data,
        CodeLineData {
            spaces: 2,
            tabs: 0,
            text: 7
        }
    );
}

#[test]
fn invalid_utf8_is_replaced_not_dropped() {
    let data = CodeLineData::new(&[b' ', 0xff, b'a']);
    assert_eq!(
        data,
        CodeLineData {
            spaces: 1,
            tabs: 0,
            text: 2
        }
    );
}

#[test]
fn code_lines_measures_each_line() {
    let lines: Vec<Vec<u8>> = vec![
        "function foo() {".as_bytes().to_vec(),
        "    blah;".as_bytes().to_vec(),
        "}".as_bytes().to_vec(),
    ];
    let result = CodeLines::new(&lines);
    let expected = CodeLines {
        lines: vec![
            CodeLineData {
                spaces: 0,
                tabs: 0,
                text: 16,
            },
            CodeLineData {
                spaces: 4,
                tabs: 0,
                text: 5,
            },
            CodeLineData {
                spaces: 0,
                tabs: 0,
                text: 1,
            },
        ],
    };
    assert_eq!(result, expected);
}
