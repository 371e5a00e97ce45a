use jfp::tally::{rank, tally};
use jfp::text::{contains, decimal, is_blank, join, less, lines, words};
use jfp::types::Prompt;

#[test]
fn lines_are_split_as_the_standard_library_splits_them() {
    for text in [
        "",
        "one",
        "one\n",
        "one\ntwo",
        "one\r\ntwo\r\n",
        "\n",
        "\n\n",
        "a\n\nb",
        "tail\r",
        "mid\rdle\nx",
        "\r\n",
        "a\r\r\nb",
        "últimö\nlíne",
    ] {
        let expected: Vec<String> = text.lines().map(|l| l.to_string()).collect();
        assert_eq!(lines(text), expected, "for {text:?}");
    }
}

#[test]
fn preview_takes_the_first_lines() {
    let p = Prompt::new("id", "t", "one\r\ntwo\nthree\n");
    assert_eq!(p.preview(0), "");
    assert_eq!(p.preview(1), "one");
    assert_eq!(p.preview(2), "one\ntwo");
    assert_eq!(p.preview(3), "one\ntwo\nthree");
    assert_eq!(p.preview(10), "one\ntwo\nthree");
    assert_eq!(Prompt::new("id", "t", "").preview(3), "");
}

#[test]
fn words_are_split_at_white_space() {
    for text in ["", "  ", "one", " one  two\tthree\n", "a\u{a0}b\u{3000}c", "x\u{2028}y z "] {
        let expected: Vec<String> = text.split_whitespace().map(|w| w.to_string()).collect();
        assert_eq!(words(text), expected, "for {text:?}");
    }
}

#[test]
fn blank_is_white_space_only() {
    assert!(is_blank(""));
    assert!(is_blank(" \t\r\n\u{85}\u{2003}"));
    assert!(!is_blank(" x "));
    assert!(!is_blank("\u{200b}"));
    for c in (0u32..0x3100).filter_map(char::from_u32) {
        assert_eq!(is_blank(&c.to_string()), c.is_whitespace(), "for {c:?}");
    }
}

#[test]
fn contains_finds_a_text_in_a_text() {
    assert!(contains("", ""));
    assert!(contains("abc", ""));
    assert!(contains("abc", "abc"));
    assert!(contains("xxabc", "abc"));
    assert!(contains("{\"_meta\":{}}", "\"_meta\""));
    assert!(!contains("abc", "abcd"));
    assert!(!contains("ababab", "abb"));
    assert!(!contains("", "a"));
}

#[test]
fn join_puts_the_separator_between() {
    let v = |items: &[&str]| items.iter().map(|s| s.to_string()).collect::<Vec<_>>();
    assert_eq!(join(&v(&[]), ", "), "");
    assert_eq!(join(&v(&["a"]), ", "), "a");
    assert_eq!(join(&v(&["a", "", "c"]), ", "), "a, , c");
}

#[test]
fn less_is_the_order_of_strings() {
    let samples = ["", "a", "A", "ab", "b", "aa", "é", "z", "zz", "\u{10000}", "\u{ffff}"];
    for a in samples {
        for b in samples {
            assert_eq!(less(a, b), a < b, "for {a:?} and {b:?}");
        }
    }
}

#[test]
fn decimal_writes_numbers() {
    assert_eq!(decimal(0), "0");
    assert_eq!(decimal(7), "7");
    assert_eq!(decimal(10), "10");
    assert_eq!(decimal(1234567890), "1234567890");
    assert_eq!(decimal(usize::MAX), usize::MAX.to_string());
}

#[test]
fn tally_counts_and_sorts_by_name() {
    let items: Vec<String> = ["b", "a", "c", "a", "b", "a"].iter().map(|s| s.to_string()).collect();
    assert_eq!(
        tally(&items),
        vec![("a".to_string(), 3), ("b".to_string(), 2), ("c".to_string(), 1)]
    );
    assert!(tally(&vec![]).is_empty());
}

#[test]
fn rank_puts_the_largest_count_first_and_breaks_ties_by_name() {
    let counts = vec![
        ("c".to_string(), 1),
        ("b".to_string(), 2),
        ("d".to_string(), 5),
        ("a".to_string(), 2),
    ];
    assert_eq!(
        rank(counts),
        vec![
            ("d".to_string(), 5),
            ("a".to_string(), 2),
            ("b".to_string(), 2),
            ("c".to_string(), 1),
        ]
    );
}

#[test]
fn a_numeral_is_read_back_as_its_number() {
    for n in [0usize, 1, 2, 9, 10, 99, 100, 2147483647] {
        let text = jfp::text::decimal(n);
        assert_eq!(text, n.to_string());
        assert_eq!(jfp::storage::database::needs_migration(Some(text.as_str())), n < 2);
    }
}
