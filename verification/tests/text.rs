use neo_email::text::{
    char_is_whitespace, chars_are, chars_of, collapse_chars, find_byte, find_char, has_prefix_at,
    join_chars, parse_group_chars, parse_number_chars, push_decimal, remove_all_chars, same_chars,
    same_text, split_bytes, split_chars, split_words, starts_with, string_from, strip_prefix,
    sub_chars, sub_vec, trim_chars, trim_end_crlf_chars,
};

fn chars(s: &str) -> Vec<char> {
    s.chars().collect()
}

fn fields(items: &[&str]) -> Vec<Vec<char>> {
    items.iter().map(|s| chars(s)).collect()
}

#[test]
fn text_converts_to_characters_and_back() {
    assert_eq!(chars_of("a\u{e9}\u{1f600}"), vec!['a', '\u{e9}', '\u{1f600}']);
    assert_eq!(chars_of(""), Vec::<char>::new());
    assert_eq!(string_from(&chars("h\u{e9}llo")), "h\u{e9}llo");
    assert_eq!(string_from(&Vec::new()), "");
}

#[test]
fn texts_are_compared_by_their_characters() {
    assert!(same_text("abc", "abc"));
    assert!(same_text("", ""));
    assert!(!same_text("abc", "abd"));
    assert!(!same_text("abc", "ab"));
    assert!(!same_text("e\u{301}", "\u{e9}"));
    assert!(same_chars(&chars("ab"), &chars("ab")));
    assert!(!same_chars(&chars("ab"), &chars("ba")));
    assert!(chars_are(&chars("spf1"), "spf1"));
    assert!(!chars_are(&chars("spf1"), "spf"));
}

#[test]
fn part_of_a_vector_is_copied() {
    assert_eq!(sub_chars(&chars("hello"), 1, 3), chars("el"));
    assert_eq!(sub_chars(&chars("hello"), 5, 5), chars(""));
    assert_eq!(sub_vec(&vec![1u8, 2, 3, 4], 0, 4), vec![1, 2, 3, 4]);
}

#[test]
fn whitespace_is_the_unicode_white_space_property() {
    for c in ['\t', '\n', '\u{b}', '\u{c}', '\r', ' ', '\u{85}', '\u{a0}', '\u{1680}', '\u{2000}',
        '\u{200a}', '\u{2028}', '\u{2029}', '\u{202f}', '\u{205f}', '\u{3000}']
    {
        assert!(char_is_whitespace(c), "{:?}", c);
    }
    for c in ['a', '\0', '\u{8}', '\u{e}', '\u{1f}', '\u{200b}', '\u{180e}', '\u{feff}', '\u{2060}'] {
        assert!(!char_is_whitespace(c), "{:?}", c);
    }
}

#[test]
fn whitespace_agrees_with_the_standard_library_on_every_character() {
    for n in 0..=0x10ffffu32 {
        if let Some(c) = char::from_u32(n) {
            assert_eq!(char_is_whitespace(c), c.is_whitespace(), "{:x}", n);
        }
    }
}

#[test]
fn trimming_removes_whitespace_at_both_ends() {
    assert_eq!(trim_chars(&chars("  a b \t\r\n")), chars("a b"));
    assert_eq!(trim_chars(&chars("a")), chars("a"));
    assert_eq!(trim_chars(&chars(" \u{3000} ")), chars(""));
    assert_eq!(trim_chars(&chars("")), chars(""));
    for s in ["", " ", " a ", "a  b", "\u{a0}x\u{2003}y\n", "\t\t"] {
        assert_eq!(string_from(&trim_chars(&chars(s))), s.trim(), "{:?}", s);
    }
}

#[test]
fn trailing_crlf_is_removed_as_often_as_it_occurs() {
    assert_eq!(trim_end_crlf_chars(&chars("a\r\n\r\n")), chars("a"));
    assert_eq!(trim_end_crlf_chars(&chars("a\r\n\n")), chars("a\r\n\n"));
    assert_eq!(trim_end_crlf_chars(&chars("\r\n")), chars(""));
    assert_eq!(trim_end_crlf_chars(&chars("a\n\r")), chars("a\n\r"));
    assert_eq!(trim_end_crlf_chars(&chars("\n")), chars("\n"));
}

#[test]
fn splitting_keeps_empty_fields() {
    assert_eq!(split_chars(&chars("a@b"), '@'), fields(&["a", "b"]));
    assert_eq!(split_chars(&chars(""), '@'), fields(&[""]));
    assert_eq!(split_chars(&chars("@"), '@'), fields(&["", ""]));
    assert_eq!(split_chars(&chars("a@@b@"), '@'), fields(&["a", "", "b", ""]));
    assert_eq!(split_chars(&chars("abc"), '@'), fields(&["abc"]));
    assert_eq!(split_bytes(&b"a\n\nb".to_vec(), b'\n'), vec![b"a".to_vec(), vec![], b"b".to_vec()]);
    for s in ["", ";", "a;b", ";a;;b;", "abc"] {
        let expected: Vec<Vec<char>> = s.split(';').map(|f| f.chars().collect()).collect();
        assert_eq!(split_chars(&chars(s), ';'), expected, "{:?}", s);
    }
}

#[test]
fn joining_undoes_splitting() {
    assert_eq!(join_chars(&fields(&["a", "b", "c"]), ' '), chars("a b c"));
    assert_eq!(join_chars(&fields(&["a"]), ' '), chars("a"));
    assert_eq!(join_chars(&fields(&[]), ' '), chars(""));
    assert_eq!(join_chars(&fields(&["", ""]), '@'), chars("@"));
    for s in ["", "@", "a@b", "@a@@b@"] {
        assert_eq!(join_chars(&split_chars(&chars(s), '@'), '@'), chars(s));
    }
}

#[test]
fn words_are_the_runs_without_whitespace() {
    assert_eq!(split_words(&chars("  v=spf1\t-all \n")), fields(&["v=spf1", "-all"]));
    assert_eq!(split_words(&chars("")), fields(&[]));
    assert_eq!(split_words(&chars(" \t ")), fields(&[]));
    assert_eq!(split_words(&chars("a")), fields(&["a"]));
    assert_eq!(split_words(&chars("a\u{a0}b c")), fields(&["a", "b", "c"]));
    for s in ["", " ", "a", " a  b ", "a\tb\nc", "  x"] {
        let expected: Vec<Vec<char>> = s.split_whitespace().map(|f| f.chars().collect()).collect();
        assert_eq!(split_words(&chars(s)), expected, "{:?}", s);
    }
}

#[test]
fn whitespace_runs_collapse_to_one_space() {
    assert_eq!(collapse_chars(&chars(" \t a  b\t\tc ")), chars("a b c"));
    assert_eq!(collapse_chars(&chars("")), chars(""));
    assert_eq!(collapse_chars(&chars("  ")), chars(""));
    assert_eq!(collapse_chars(&chars("a b")), chars("a b"));
}

#[test]
fn first_occurrence_is_found() {
    assert_eq!(find_char(&chars("a<b<c"), '<'), 1);
    assert_eq!(find_char(&chars("abc"), '<'), 3);
    assert_eq!(find_char(&chars(""), '<'), 0);
    assert_eq!(find_char(&chars("<"), '<'), 0);
    assert_eq!(find_byte(&b"Subject: a:b".to_vec(), b':'), 7);
    assert_eq!(find_byte(&b"Subject".to_vec(), b':'), 7);
}

#[test]
fn prefixes_are_recognised_and_removed() {
    assert!(starts_with(&chars("ip4:1.2.3.4"), "ip4:"));
    assert!(starts_with(&chars("ip4:"), "ip4:"));
    assert!(starts_with(&chars("x"), ""));
    assert!(!starts_with(&chars("ip4"), "ip4:"));
    assert!(!starts_with(&chars("xip4:"), "ip4:"));
    assert!(has_prefix_at(&chars("xip4:"), 1, &chars("ip4:")));
    assert!(!has_prefix_at(&chars("xip4:"), 2, &chars("ip4:")));
    assert!(has_prefix_at(&chars("ab"), 2, &chars("")));
    assert_eq!(strip_prefix(&chars("pct=50"), "pct="), Some(chars("50")));
    assert_eq!(strip_prefix(&chars("pct="), "pct="), Some(chars("")));
    assert_eq!(strip_prefix(&chars("p=50"), "pct="), None);
}

#[test]
fn every_occurrence_of_a_pattern_is_removed() {
    assert_eq!(remove_all_chars(&chars("ip4:1.2.3.4"), "ip4:"), chars("1.2.3.4"));
    assert_eq!(remove_all_chars(&chars("aXbXc"), "X"), chars("abc"));
    assert_eq!(remove_all_chars(&chars("aaa"), "aa"), chars("a"));
    assert_eq!(remove_all_chars(&chars("abab"), "ab"), chars(""));
    assert_eq!(remove_all_chars(&chars("abc"), ""), chars("abc"));
    assert_eq!(remove_all_chars(&chars(""), "x"), chars(""));
    assert_eq!(remove_all_chars(&chars("xxyxx"), "xy"), chars("xxx"));
    for (s, p) in [("ip4:ip4:x", "ip4:"), ("aaaa", "aa"), ("abcabc", "bc"), ("a", "ab")] {
        assert_eq!(string_from(&remove_all_chars(&chars(s), p)), s.replace(p, ""));
    }
}

#[test]
fn decimal_numbers_are_read_up_to_their_bound() {
    assert_eq!(parse_number_chars(&chars("0"), 255), Some(0));
    assert_eq!(parse_number_chars(&chars("255"), 255), Some(255));
    assert_eq!(parse_number_chars(&chars("256"), 255), None);
    assert_eq!(parse_number_chars(&chars("0255"), 255), Some(255));
    assert_eq!(parse_number_chars(&chars("+7"), 255), Some(7));
    assert_eq!(parse_number_chars(&chars("281474976710655"), 0xffff_ffff_ffff), Some(0xffff_ffff_ffff));
    assert_eq!(parse_number_chars(&chars("281474976710656"), 0xffff_ffff_ffff), None);
    for s in ["", "+", "-1", "1 ", " 1", "1a", "++1", "\u{661}", "99999999999999999999999999"] {
        assert_eq!(parse_number_chars(&chars(s), 255), None, "{:?}", s);
    }
    for s in ["0", "7", "+7", "007", "255", "256", "", "+", "-0", "1x"] {
        assert_eq!(
            parse_number_chars(&chars(s), 255).map(|n| n as u8),
            s.parse::<u8>().ok(),
            "{:?}",
            s
        );
    }
}

#[test]
fn hexadecimal_groups_have_one_to_four_digits() {
    assert_eq!(parse_group_chars(&chars("0")), Some(0));
    assert_eq!(parse_group_chars(&chars("ffff")), Some(0xffff));
    assert_eq!(parse_group_chars(&chars("FfFf")), Some(0xffff));
    assert_eq!(parse_group_chars(&chars("0db8")), Some(0xdb8));
    assert_eq!(parse_group_chars(&chars("A9")), Some(0xa9));
    for s in ["", "12345", "g", "0x1", "+1", " 1", "1 "] {
        assert_eq!(parse_group_chars(&chars(s)), None, "{:?}", s);
    }
}

#[test]
fn numbers_are_written_in_decimal() {
    for n in [0usize, 7, 10, 99, 100, 1048576, usize::MAX] {
        let mut s = String::from("n=");
        push_decimal(&mut s, n);
        assert_eq!(s, format!("n={}", n));
    }
}
