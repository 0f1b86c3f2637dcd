use mac_aid::text::{
    decimal_string, from_chars, is_whitespace, join, lines_of, push_decimal, replace_all,
    string_of_range, to_chars, trimmed_end_len, trimmed_start_offset,
};

fn chars(text: &str) -> Vec<char> {
    text.chars().collect()
}

#[test]
fn decimal_numerals_are_exact() {
    assert_eq!(decimal_string(0), "0");
    assert_eq!(decimal_string(7), "7");
    assert_eq!(decimal_string(9), "9");
    assert_eq!(decimal_string(10), "10");
    assert_eq!(decimal_string(42), "42");
    assert_eq!(decimal_string(100), "100");
    assert_eq!(decimal_string(1234567890), "1234567890");
    assert_eq!(decimal_string(u64::MAX), "18446744073709551615");
}

#[test]
fn decimal_numerals_agree_with_the_standard_formatting() {
    let mut n: u64 = 1;
    for _ in 0..500 {
        assert_eq!(decimal_string(n), n.to_string());
        assert_eq!(decimal_string(n - 1), (n - 1).to_string());
        n = n.wrapping_mul(6_364_136_223_846_793_005).wrapping_add(1_442_695_040_888_963_407) | 1;
    }
    for n in 0..1200u64 {
        assert_eq!(decimal_string(n), n.to_string());
    }
}

#[test]
fn push_decimal_appends() {
    let mut text = String::from("n = ");
    push_decimal(&mut text, 305);
    push_decimal(&mut text, 0);
    assert_eq!(text, "n = 3050");
}

#[test]
fn join_puts_the_separator_between_neighbours() {
    let parts = vec!["git".to_string(), "jq".to_string(), "tar".to_string()];
    assert_eq!(join(&parts, ", "), "git, jq, tar");
    assert_eq!(join(&parts[..1], ", "), "git");
    assert_eq!(join(&[], ", "), "");
    assert_eq!(join(&parts, ""), "gitjqtar");
    let blanks = vec![String::new(), String::new()];
    assert_eq!(join(&blanks, "-"), "-");
}

#[test]
fn characters_convert_both_ways() {
    for text in ["", "abc", "héllo", "日本語", "a\n\tb\r", "😀"] {
        assert_eq!(to_chars(text), chars(text));
        assert_eq!(from_chars(&chars(text)), text);
    }
    assert_eq!(string_of_range(&chars("hello world"), 6, 11), "world");
    assert_eq!(string_of_range(&chars("hello"), 2, 2), "");
    assert_eq!(string_of_range(&chars("hello"), 0, 5), "hello");
}

#[test]
fn replace_all_replaces_every_occurrence() {
    assert_eq!(replace_all("a-b-c", "-", "+"), "a+b+c");
    assert_eq!(replace_all("Query: {query}", "{query}", "test"), "Query: test");
    assert_eq!(replace_all("{x}{x}", "{x}", "yy"), "yyyy");
    assert_eq!(replace_all("abc", "abc", ""), "");
    assert_eq!(replace_all("abc", "abcd", "x"), "abc");
    assert_eq!(replace_all("", "a", "x"), "");
    assert_eq!(replace_all("héllo", "é", "e"), "hello");
}

#[test]
fn replace_all_finds_occurrences_from_the_left_without_overlap() {
    assert_eq!(replace_all("aaa", "aa", "b"), "ba");
    assert_eq!(replace_all("aaaa", "aa", "b"), "bb");
    assert_eq!(replace_all("ababa", "aba", "x"), "xba");
    assert_eq!(replace_all("aa", "a", "aa"), "aaaa");
}

#[test]
fn replace_all_with_an_empty_pattern_changes_nothing() {
    assert_eq!(replace_all("abc", "", "x"), "abc");
    assert_eq!(replace_all("", "", "x"), "");
}

#[test]
fn replace_all_agrees_with_the_standard_replace() {
    let texts = ["", "a", "ab", "aab", "abab", "{k}:{k}", "xx{k", "k}{k}{", "ääbä"];
    let patterns = ["a", "ab", "b", "{k}", "aa", "ä", "x{"];
    let values = ["", "a", "zz", "{k}"];
    for text in texts {
        for pattern in patterns {
            for value in values {
                assert_eq!(replace_all(text, pattern, value), text.replace(pattern, value));
            }
        }
    }
}

#[test]
fn white_space_is_what_unicode_says() {
    for n in 0..=0x10ffffu32 {
        if let Some(c) = char::from_u32(n) {
            assert_eq!(is_whitespace(c), c.is_whitespace(), "{:x}", n);
        }
    }
}

#[test]
fn trimming_agrees_with_the_standard_trimming() {
    for text in ["", " ", "a", " a", "a ", "  a b \t\r\n", "\u{3000}x\u{a0}", "\t\t", "x\u{200b}"] {
        let line = chars(text);
        let end = trimmed_end_len(&line);
        assert_eq!(from_chars(&line[..end]), text.trim_end());
        let start = trimmed_start_offset(&line, end);
        assert_eq!(string_of_range(&line, start, end), text.trim());
        let whole = trimmed_start_offset(&line, line.len());
        assert_eq!(string_of_range(&line, whole, line.len()), text.trim_start());
    }
}

#[test]
fn lines_are_the_pieces_between_line_feeds() {
    let split = |text: &str| -> Vec<String> {
        lines_of(&chars(text)).iter().map(|line| from_chars(line)).collect()
    };
    assert_eq!(split(""), vec![""]);
    assert_eq!(split("a"), vec!["a"]);
    assert_eq!(split("a\n"), vec!["a", ""]);
    assert_eq!(split("\n"), vec!["", ""]);
    assert_eq!(split("a\nb"), vec!["a", "b"]);
    assert_eq!(split("a\n\nb\r\n"), vec!["a", "", "b\r", ""]);
    for text in ["x\ny\nz", "\n\n\n", "no line feed", "héllo\nwörld\n"] {
        let expected: Vec<String> = text.split('\n').map(|s| s.to_string()).collect();
        assert_eq!(split(text), expected);
    }
}
