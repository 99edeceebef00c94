use textplayer::text::{
    char_is_whitespace, chars_of, contains, contains_char, ends_with_char, format_i32,
    format_i64, parse_i32, remove_all, same_text, split_whitespace, starts_with, string_of,
    take_first_line, trim, trim_end,
};

#[test]
fn whitespace_agrees_with_std_on_every_char() {
    let mut code: u32 = 0;
    while code <= 0x10FFFF {
        if let Some(c) = char::from_u32(code) {
            assert_eq!(char_is_whitespace(c), c.is_whitespace(), "U+{:04X}", code);
        }
        code += 1;
    }
}

#[test]
fn chars_of_lists_the_characters() {
    assert_eq!(chars_of("héllo"), vec!['h', 'é', 'l', 'l', 'o']);
    assert_eq!(chars_of(""), Vec::<char>::new());
}

#[test]
fn string_of_takes_a_range_of_characters() {
    let v = vec!['a', 'ß', 'c', 'd'];
    assert_eq!(string_of(&v, 1, 3), "ßc");
    assert_eq!(string_of(&v, 2, 2), "");
    assert_eq!(string_of(&v, 0, 4), "aßcd");
}

#[test]
fn trim_agrees_with_std() {
    let samples = vec![
        "",
        " ",
        "  look  ",
        "\t\n go north \r\n",
        "nothing",
        "\u{a0}wide\u{3000}",
        " é ",
        "a  b",
        "\u{2028}x\u{205f}",
    ];
    for s in samples {
        assert_eq!(trim(s), s.trim(), "{:?}", s);
        assert_eq!(trim_end(s), s.trim_end(), "{:?}", s);
    }
}

#[test]
fn split_whitespace_agrees_with_std() {
    let samples = vec!["", "   ", "save 1", "  restore\tmy slot \n", "one", " é  ü ", "a\u{a0}b"];
    for s in samples {
        let expected: Vec<String> = s.split_whitespace().map(|w| w.to_string()).collect();
        assert_eq!(split_whitespace(s), expected, "{:?}", s);
    }
}

#[test]
fn contains_finds_substrings() {
    assert!(contains("Ok.\n>", "Ok."));
    assert!(contains("anything", ""));
    assert!(contains("", ""));
    assert!(!contains("", "a"));
    assert!(!contains("Failed.", "Ok."));
    assert!(contains("aab", "ab"));
    assert!(!contains("ab", "abc"));
    assert!(contains("naïve café", "café"));
}

#[test]
fn starts_with_tests_the_prefix() {
    assert!(starts_with("save 1", "save"));
    assert!(starts_with("save", "save"));
    assert!(starts_with("x", ""));
    assert!(!starts_with("sav", "save"));
    assert!(!starts_with("a save", "save"));
}

#[test]
fn contains_char_and_ends_with_char() {
    assert!(contains_char("games/zork", '/'));
    assert!(!contains_char("zork", '/'));
    assert!(contains_char("a\\b", '\\'));
    assert!(ends_with_char("Done.", '.'));
    assert!(!ends_with_char("Done", '.'));
    assert!(!ends_with_char("", '.'));
}

#[test]
fn same_text_compares_characters() {
    assert!(same_text("quit", "quit"));
    assert!(!same_text("quit", "quit "));
    assert!(!same_text("quit", "quip"));
    assert!(same_text("", ""));
}

#[test]
fn parse_i32_agrees_with_std() {
    let samples = vec![
        "0", "7", "42", "007", "+5", "-5", "-0", "2147483647", "2147483648", "-2147483648",
        "-2147483649", "99999999999999999999", "", "+", "-", "+-5", "12a", " 12", "12 ", "١٢",
        "1_000", "0000000000000000000000001",
    ];
    for s in samples {
        assert_eq!(parse_i32(s), s.parse::<i32>().ok(), "{:?}", s);
    }
}

#[test]
fn format_agrees_with_std() {
    for n in vec![0, 1, 9, 10, 11, 99, 100, 350, -1, -10, i32::MAX, i32::MIN] {
        assert_eq!(format_i32(n), n.to_string());
    }
    for n in vec![0i64, -7, 1234567890123, i64::MAX, i64::MIN] {
        assert_eq!(format_i64(n), n.to_string());
    }
}

#[test]
fn remove_all_agrees_with_std_replace() {
    let cases = vec![
        ("It is 9:05 AM now, 9:05 AM.", "9:05 AM"),
        ("aaaa", "aa"),
        ("aaa", "aa"),
        ("abc", ""),
        ("", "x"),
        ("abc", "abcd"),
        ("xabcabcx", "abc"),
        ("héhé", "é"),
    ];
    for (text, needle) in cases {
        assert_eq!(remove_all(text, needle), text.replace(needle, ""), "{:?} {:?}", text, needle);
    }
}

#[test]
fn first_line_stops_at_the_line_feed() {
    assert_eq!(take_first_line("West of House\nYou are standing"), "West of House");
    assert_eq!(take_first_line("no feed"), "no feed");
    assert_eq!(take_first_line("\nsecond"), "");
    assert_eq!(take_first_line(""), "");
    assert_eq!(take_first_line("a\r\nb"), "a\r");
}
