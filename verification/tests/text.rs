use shinkai_tools_runner::text::chars::{append_chars, chars_eq, from_chars, text_eq, to_chars};
use shinkai_tools_runner::text::decimal::{
    decimal_chars, digit_char, padded_digit_chars, seconds_chars,
};
use shinkai_tools_runner::text::lines::{
    char_is_whitespace, join_rows, join_texts, lines_of, slice_chars, split_lines, trim_chars,
    trim_text,
};
use shinkai_tools_runner::text::search::{
    contains_chars, contains_text, match_at, replace_chars, replace_text,
};

fn samples() -> Vec<&'static str> {
    vec![
        "",
        "a",
        "aaa",
        "aaaa",
        "abcabc",
        "hello world",
        "x\ny\n",
        "x\r\ny\r\n",
        "\n\n",
        "a\rb",
        "tail\r",
        "  padded\t\n",
        "\u{2003}wide\u{3000}",
        "\u{200B}zero width\u{200B}",
        "naïve ünïcödé ✓",
        "\\'\"",
        "file:///tmp/x.py",
    ]
}

#[test]
fn chars_go_there_and_back() {
    for s in samples() {
        let chars = to_chars(s);
        assert_eq!(chars, s.chars().collect::<Vec<char>>());
        assert_eq!(from_chars(&chars), s);
    }
}

#[test]
fn text_eq_is_equality() {
    assert!(text_eq("abc", "abc"));
    assert!(text_eq("", ""));
    assert!(!text_eq("abc", "abd"));
    assert!(!text_eq("abc", "ab"));
}

#[test]
fn replace_agrees_with_the_standard_library() {
    let patterns = ["a", "aa", "abc", "", "\n", "\\", "'", "file:///", "zz", "l", "o w"];
    let replacements = ["", "b", "aa", "--", "\\\\"];
    for s in samples() {
        for from in patterns {
            for to in replacements {
                assert_eq!(replace_text(s, from, to), s.replace(from, to), "{s:?} {from:?} {to:?}");
            }
        }
    }
}

#[test]
fn replace_takes_matches_from_the_left_without_overlap() {
    assert_eq!(replace_text("aaa", "aa", "b"), "ba");
    assert_eq!(replace_text("aaaa", "aa", "b"), "bb");
    assert_eq!(replace_text("abab", "ab", "ba"), "baba");
    assert_eq!(replace_text("abc", "", "-"), "-a-b-c-");
    assert_eq!(replace_text("", "", "-"), "-");
    assert_eq!(replace_text("", "x", "-"), "");
}

#[test]
fn contains_agrees_with_the_standard_library() {
    let patterns = ["a", "aa", "abc", "", "\n", "world", "hello world!", "✓", "cab"];
    for s in samples() {
        for pat in patterns {
            assert_eq!(contains_text(s, pat), s.contains(pat), "{s:?} {pat:?}");
        }
    }
}

#[test]
fn trim_agrees_with_the_standard_library() {
    for s in samples() {
        assert_eq!(trim_text(s), s.trim(), "{s:?}");
    }
    assert_eq!(trim_text(" \t\r\n x y \u{85}\u{a0}"), "x y");
    assert_eq!(trim_text("   "), "");
}

#[test]
fn whitespace_is_the_unicode_property() {
    for code in 0u32..0x3100 {
        if let Some(c) = char::from_u32(code) {
            let text = format!("{c}x{c}");
            assert_eq!(trim_text(&text) == "x", c.is_whitespace(), "U+{code:04X}");
        }
    }
}

#[test]
fn lines_agree_with_the_standard_library() {
    for s in samples() {
        let expected: Vec<String> = s.lines().map(|l| l.to_string()).collect();
        assert_eq!(lines_of(s), expected, "{s:?}");
    }
}

#[test]
fn lines_end_at_line_feeds() {
    assert_eq!(lines_of("a\nb"), vec!["a", "b"]);
    assert_eq!(lines_of("a\nb\n"), vec!["a", "b"]);
    assert_eq!(lines_of("a\r\nb\r\n"), vec!["a", "b"]);
    assert_eq!(lines_of("a\n\nb"), vec!["a", "", "b"]);
    assert_eq!(lines_of("a\r"), vec!["a\r"]);
    assert_eq!(lines_of("a\r\r\n"), vec!["a\r"]);
    assert_eq!(lines_of("\n"), vec![""]);
    assert_eq!(lines_of(""), Vec::<String>::new());
}

#[test]
fn join_puts_the_separator_between_neighbours() {
    let parts = vec!["a".to_string(), "".to_string(), "c".to_string()];
    assert_eq!(join_texts(&parts, ","), "a,,c");
    assert_eq!(join_texts(&parts, "\n"), "a\n\nc");
    assert_eq!(join_texts(&vec!["only".to_string()], ", "), "only");
    assert_eq!(join_texts(&Vec::new(), ","), "");
    assert_eq!(join_texts(&parts, ""), "ac");
}

#[test]
fn decimal_agrees_with_the_standard_library() {
    for n in [0u64, 1, 9, 10, 11, 99, 100, 9550, 65535, 1_000_000, u64::MAX] {
        assert_eq!(from_chars(&decimal_chars(n)), n.to_string());
    }
}

#[test]
fn text_is_its_lines_one_below_the_other() {
    for s in ["", "a", "a\nb", "\na\n\nb", "{\n    \"foo\": 1\n}", "naïve\n✓"] {
        assert_eq!(join_texts(&lines_of(s), "\n"), s);
    }
    assert_eq!(join_texts(&lines_of("a\n"), "\n"), "a");
    assert_eq!(join_texts(&lines_of("a\r\nb"), "\n"), "a\nb");
}

#[test]
fn pattern_matches_only_where_it_stands() {
    let text = to_chars("abcabc");
    let pattern = to_chars("bc");
    let found: Vec<bool> = (0..8).map(|i| match_at(&text, &pattern, i)).collect();
    assert_eq!(found, vec![false, true, false, false, true, false, false, false]);
    let nothing = to_chars("");
    assert!(match_at(&text, &nothing, 0));
    assert!(match_at(&text, &nothing, 6));
    assert!(!match_at(&text, &nothing, 7));
    assert!(contains_chars(&text, &pattern));
    assert!(contains_chars(&nothing, &nothing));
    assert!(!contains_chars(&pattern, &text));
}

#[test]
fn characters_are_handled_one_by_one() {
    let mut out = to_chars("ab");
    append_chars(&mut out, &to_chars("cd"));
    assert_eq!(from_chars(&out), "abcd");
    assert!(chars_eq(&out, &to_chars("abcd")));
    assert!(!chars_eq(&out, &to_chars("abce")));
    assert_eq!(from_chars(&slice_chars(&out, 1, 3)), "bc");
    assert_eq!(from_chars(&slice_chars(&out, 2, 2)), "");
    assert_eq!(from_chars(&trim_chars(&to_chars("\t x \n"))), "x");
    assert_eq!(from_chars(&replace_chars(&out, &to_chars("bc"), &to_chars("-"))), "a-d");
    let rows = split_lines(&to_chars("a\r\nb\n\nc"));
    assert_eq!(rows, vec![to_chars("a"), to_chars("b"), to_chars(""), to_chars("c")]);
    assert_eq!(from_chars(&join_rows(&rows, &to_chars(", "))), "a, b, , c");
    assert!(char_is_whitespace(' ') && char_is_whitespace('\u{2028}') && !char_is_whitespace('_'));
    let digits: String = (0..10u8).map(digit_char).collect();
    assert_eq!(digits, "0123456789");
}

#[test]
fn spans_of_time_are_written_in_seconds() {
    assert_eq!(from_chars(&seconds_chars(0, 0)), "0");
    assert_eq!(from_chars(&seconds_chars(90, 0)), "90");
    assert_eq!(from_chars(&seconds_chars(0, 500_000_000)), "0.5");
    assert_eq!(from_chars(&seconds_chars(3, 141_592_653)), "3.141592653");
    assert_eq!(from_chars(&seconds_chars(3, 10)), "3.00000001");
    assert_eq!(from_chars(&padded_digit_chars(42, 5)), "00042");
    assert_eq!(from_chars(&padded_digit_chars(123456, 3)), "456");
    assert_eq!(from_chars(&padded_digit_chars(7, 0)), "");
}
