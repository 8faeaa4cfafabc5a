use kaspa_ng_core::text::{
    chars_of, decimal_string, find_str, first_word_chars, is_blank, lines_chars,
    parse_decimal_chars, split_on_chars, string_of, strip_chars, trim_chars, words_chars,
    CharClass,
};

fn s(v: &Vec<char>) -> String {
    string_of(v)
}

#[test]
fn chars_and_strings_round_trip() {
    assert_eq!(s(&chars_of("héllo ✓")), "héllo ✓");
    assert_eq!(chars_of("").len(), 0);
}

#[test]
fn trim_removes_unicode_white_space() {
    assert_eq!(s(&trim_chars(&chars_of("  a b \t\n"))), "a b");
    assert_eq!(s(&trim_chars(&chars_of("\u{a0}\u{2003}x\u{3000}"))), "x");
    assert_eq!(s(&trim_chars(&chars_of(" \t "))), "");
    assert_eq!(s(&trim_chars(&chars_of("x"))), "x");
}

#[test]
fn trim_agrees_with_the_standard_library() {
    for text in ["  a ", "\u{85}b\u{1680}", "\u{200b}c", "\u{2028}d\u{2029}", "\u{202f}e\u{205f}", ""] {
        assert_eq!(s(&trim_chars(&chars_of(text))), text.trim());
    }
}

#[test]
fn strip_removes_delimiters_from_both_ends() {
    assert_eq!(s(&strip_chars(&chars_of("\"abc\"),"), CharClass::Delimiter)), "abc");
    assert_eq!(s(&strip_chars(&chars_of("a,b"), CharClass::Delimiter)), "a,b");
    assert_eq!(s(&strip_chars(&chars_of("),]"), CharClass::Delimiter)), "");
    assert_eq!(s(&strip_chars(&chars_of("//a/b//"), CharClass::Only('/'))), "a/b");
}

#[test]
fn find_gives_the_first_occurrence() {
    let v = chars_of("abcabc");
    assert_eq!(find_str(&v, "bc"), Some(1));
    assert_eq!(find_str(&v, "abc"), Some(0));
    assert_eq!(find_str(&v, "cab"), Some(2));
    assert_eq!(find_str(&v, "x"), None);
    assert_eq!(find_str(&v, ""), Some(0));
    assert_eq!(find_str(&v, "abcabcd"), None);
    assert_eq!(find_str(&chars_of("ééx"), "x"), Some(2));
}

#[test]
fn words_are_split_at_white_space() {
    let w: Vec<String> = words_chars(&chars_of("  --a  --b=1\t--c \n")).iter().map(s).collect();
    assert_eq!(w, vec!["--a", "--b=1", "--c"]);
    assert!(words_chars(&chars_of("   ")).is_empty());
    assert!(words_chars(&chars_of("")).is_empty());
    assert_eq!(first_word_chars(&chars_of("  one two")).map(|w| s(&w)), Some("one".to_string()));
    assert_eq!(first_word_chars(&chars_of(" ")), None);
}

#[test]
fn decimal_writes_numbers_without_leading_zeros() {
    assert_eq!(decimal_string(0), "0");
    assert_eq!(decimal_string(7), "7");
    assert_eq!(decimal_string(10), "10");
    assert_eq!(decimal_string(16110), "16110");
    assert_eq!(decimal_string(u64::MAX), "18446744073709551615");
}

#[test]
fn parse_decimal_reads_what_decimal_writes() {
    for n in [0u64, 1, 9, 10, 99, 100, 65535, u64::MAX] {
        assert_eq!(parse_decimal_chars(&chars_of(&decimal_string(n)), u64::MAX), Some(n));
    }
}

#[test]
fn parse_decimal_respects_the_bound_and_the_form() {
    assert_eq!(parse_decimal_chars(&chars_of("65535"), 65535), Some(65535));
    assert_eq!(parse_decimal_chars(&chars_of("65536"), 65535), None);
    assert_eq!(parse_decimal_chars(&chars_of("18446744073709551616"), u64::MAX), None);
    assert_eq!(parse_decimal_chars(&chars_of("+12"), 100), Some(12));
    assert_eq!(parse_decimal_chars(&chars_of("007"), 100), Some(7));
    assert_eq!(parse_decimal_chars(&chars_of(""), 100), None);
    assert_eq!(parse_decimal_chars(&chars_of("+"), 100), None);
    assert_eq!(parse_decimal_chars(&chars_of("-1"), 100), None);
    assert_eq!(parse_decimal_chars(&chars_of("1a"), 100), None);
    assert_eq!(parse_decimal_chars(&chars_of(" 1"), 100), None);
}

#[test]
fn split_gives_the_parts_between_separators() {
    let parts: Vec<String> = split_on_chars(&chars_of("/a//b/"), '/').iter().map(s).collect();
    assert_eq!(parts, vec!["", "a", "", "b", ""]);
    let one: Vec<String> = split_on_chars(&chars_of("abc"), '/').iter().map(s).collect();
    assert_eq!(one, vec!["abc"]);
    let none: Vec<String> = split_on_chars(&chars_of(""), '/').iter().map(s).collect();
    assert_eq!(none, vec![""]);
}

#[test]
fn lines_agree_with_the_standard_library() {
    for text in ["a\r\nb\nc", "a\n", "a\r", "", "\n", "\r\n\r\n", "x\r\n\r\nbody", "a\n\nb\r"] {
        let got: Vec<String> = lines_chars(&chars_of(text)).iter().map(s).collect();
        let want: Vec<String> = text.lines().map(|l| l.to_string()).collect();
        assert_eq!(got, want, "lines of {text:?}");
    }
}

#[test]
fn blank_means_nothing_but_white_space() {
    assert!(is_blank(""));
    assert!(is_blank(" \t\n"));
    assert!(!is_blank(" x "));
}
