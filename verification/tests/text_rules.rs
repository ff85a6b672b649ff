use git_sync::text::{
    chars_of, decimal_of, find_in, is_whitespace, join_path, joined, line_ranges, parse_usize,
    signed_decimal_of, slice, split_ranges, trim_range, trimmed, without_prefix,
};
use std::path::Path;

#[test]
fn white_space_is_what_std_calls_white_space() {
    let mut code: u32 = 0;
    while code <= 0x10FFFF {
        if let Some(c) = char::from_u32(code) {
            assert_eq!(is_whitespace(c), c.is_whitespace(), "U+{:04X}", code);
        }
        code += 1;
    }
}

#[test]
fn trimmed_agrees_with_std_trim() {
    let samples = [
        "",
        " ",
        "\t\n\r ",
        "a",
        " a",
        "a ",
        "  a b  ",
        "\u{3000}x\u{2003}",
        "\u{85}é\u{a0}",
        "x\u{200b}",
        "\n/a/b => /c/d\r\n",
    ];
    for s in samples {
        assert_eq!(trimmed(s), s.trim(), "{:?}", s);
    }
}

#[test]
fn trim_range_narrows_within_bounds() {
    let chars = chars_of("ab  cd  ef");
    assert_eq!(trim_range(&chars, 2, 8), (4, 6));
    assert_eq!(trim_range(&chars, 2, 4), (4, 4));
    assert_eq!(trim_range(&chars, 0, 10), (0, 10));
}

#[test]
fn chars_of_counts_characters_not_bytes() {
    assert_eq!(chars_of("añb"), vec!['a', 'ñ', 'b']);
    assert_eq!(slice("añb€c", 1, 4), "ñb€");
}

#[test]
fn find_in_returns_first_match_in_range() {
    let chars = chars_of("a=>b=>c");
    let arrow = chars_of("=>");
    assert_eq!(find_in(&chars, 0, 7, &arrow), Some(1));
    assert_eq!(find_in(&chars, 2, 7, &arrow), Some(4));
    assert_eq!(find_in(&chars, 2, 5, &arrow), None);
    assert_eq!(find_in(&chars, 5, 7, &arrow), None);
    assert_eq!(find_in(&chars, 3, 3, &chars_of("")), Some(3));
}

#[test]
fn without_prefix_strips_once_at_the_front() {
    assert_eq!(without_prefix("refs/remotes/origin/main", "refs/remotes/origin/"), "main");
    assert_eq!(without_prefix("x/refs/remotes/origin/main", "refs/remotes/origin/"), "x/refs/remotes/origin/main");
    assert_eq!(without_prefix("aab", "a"), "ab");
    assert_eq!(without_prefix("a", "ab"), "a");
    assert_eq!(without_prefix("", ""), "");
}

#[test]
fn decimal_of_writes_numerals() {
    assert_eq!(decimal_of(0), "0");
    assert_eq!(decimal_of(7), "7");
    assert_eq!(decimal_of(10), "10");
    assert_eq!(decimal_of(1234567890), "1234567890");
    assert_eq!(decimal_of(u64::MAX), u64::MAX.to_string());
}

#[test]
fn signed_decimal_of_writes_the_sign() {
    assert_eq!(signed_decimal_of(0), "0");
    assert_eq!(signed_decimal_of(1), "1");
    assert_eq!(signed_decimal_of(-1), "-1");
    assert_eq!(signed_decimal_of(i32::MAX), i32::MAX.to_string());
    assert_eq!(signed_decimal_of(i32::MIN), i32::MIN.to_string());
}

#[test]
fn parse_usize_agrees_with_std_parse() {
    let samples = [
        "",
        "0",
        "3",
        "+3",
        "-3",
        "+",
        "++3",
        "007",
        "12a",
        " 12",
        "12 ",
        "1_000",
        "٣",
        "18446744073709551615",
        "18446744073709551616",
        "99999999999999999999999999",
        "+18446744073709551615",
    ];
    for s in samples {
        assert_eq!(parse_usize(s), s.parse::<usize>().ok(), "{:?}", s);
    }
}

#[test]
fn join_path_agrees_with_std_join() {
    let cases = [
        ("/a", "dist"),
        ("/a/", "dist"),
        ("", "dist"),
        ("/", "dist"),
        ("/a", "/b"),
        ("/a", ""),
        ("a/b", "c d"),
    ];
    for (base, name) in cases {
        assert_eq!(
            join_path(base, name),
            Path::new(base).join(name).display().to_string(),
            "{:?} {:?}",
            base,
            name
        );
    }
    assert_eq!(join_path("/srv/app", "dist"), "/srv/app/dist");
}

#[test]
fn joined_puts_tail_after_head() {
    assert_eq!(joined("ab", "cd"), "abcd");
    assert_eq!(joined("", "x"), "x");
}

#[test]
fn split_ranges_agree_with_split_of_std() {
    for text in ["", ":", "a", "a:b", ":a::b:", "root:x:0:0:root:/root:/bin/bash"] {
        let chars = chars_of(text);
        let parts: Vec<String> = split_ranges(&chars, 0, chars.len(), ':')
            .into_iter()
            .map(|(lo, hi)| chars[lo..hi].iter().collect())
            .collect();
        let expected: Vec<String> = text.split(':').map(|p| p.to_string()).collect();
        assert_eq!(parts, expected, "{:?}", text);
    }
}

#[test]
fn line_ranges_agree_with_lines_of_std() {
    for text in ["", "\n", "a", "a\n", "a\nb", "a\r\nb\r\n", "a\r", "\r\n\r\n", "a\n\nb\n", "\ra\r\n"] {
        let chars = chars_of(text);
        let found: Vec<String> = line_ranges(&chars)
            .into_iter()
            .map(|(lo, hi)| chars[lo..hi].iter().collect())
            .collect();
        let expected: Vec<String> = text.lines().map(|l| l.to_string()).collect();
        assert_eq!(found, expected, "{:?}", text);
    }
}
