use ferris::text::{
    char_index, chars_of, contains, ends_with, equal, find, find_char, is_whitespace, lines,
    parse_unsigned, push_decimal, remove_char, same_text, split_once, split_whitespace,
    starts_with, string_of, trim, trim_end, trim_start, width_of,
};

fn c(s: &str) -> Vec<char> {
    s.chars().collect()
}

fn s(v: &[char]) -> String {
    v.iter().collect()
}

#[test]
fn whitespace_is_what_the_standard_says() {
    for code in 0u32..0x3100 {
        if let Some(ch) = char::from_u32(code) {
            assert_eq!(is_whitespace(ch), ch.is_whitespace(), "U+{:04X}", code);
        }
    }
}

#[test]
fn trims_both_ends() {
    assert_eq!(s(trim(&c("  \t a b \r\n"))), "a b");
    assert_eq!(s(trim_start(&c("  a "))), "a ");
    assert_eq!(s(trim_end(&c("  a "))), "  a");
    assert_eq!(s(trim(&c("   "))), "");
    assert_eq!(s(trim(&c(""))), "");
    assert_eq!(s(trim(&c("\u{a0}x\u{3000}"))), "x");
}

#[test]
fn cuts_lines_as_the_standard_does() {
    for text in ["", "a", "a\n", "a\nb", "a\r\nb\r\n", "\n", "\n\n", "a\r", "a\r\r\nb", "\r\n", "x\n\ny"] {
        let cut: Vec<String> = lines(&c(text)).iter().map(|l| s(l)).collect();
        let expected: Vec<String> = text.lines().map(|l| l.to_string()).collect();
        assert_eq!(cut, expected, "{:?}", text);
    }
}

#[test]
fn cuts_words_as_the_standard_does() {
    for text in ["", " ", "a", " a  b\tc\n", "--port 80", "x\u{a0}y"] {
        let cut: Vec<String> = split_whitespace(&c(text)).iter().map(|l| s(l)).collect();
        let expected: Vec<String> = text.split_whitespace().map(|l| l.to_string()).collect();
        assert_eq!(cut, expected, "{:?}", text);
    }
}

#[test]
fn splits_at_the_first_separator() {
    let text = c("a=b=c");
    let (before, after) = split_once(&text, '=').unwrap();
    assert_eq!(s(before), "a");
    assert_eq!(s(after), "b=c");
    assert!(split_once(&c("abc"), '=').is_none());
    let text = c("=");
    let (before, after) = split_once(&text, '=').unwrap();
    assert_eq!((s(before), s(after)), (String::new(), String::new()));
}

#[test]
fn finds_characters_and_patterns() {
    assert_eq!(find_char(&c("abc"), 'c'), 2);
    assert_eq!(find_char(&c("abc"), 'x'), 3);
    assert_eq!(find(&c("hello world"), &c("o w")), Some(4));
    assert_eq!(find(&c("aaa"), &c("aa")), Some(0));
    assert_eq!(find(&c("abc"), &c("abcd")), None);
    assert_eq!(find(&c("abc"), &c("")), Some(0));
    assert_eq!(find(&c("abc"), &c("c")), Some(2));
    assert!(contains(&c("mode=AP"), &c("=AP")));
    assert!(!contains(&c("mode=AP"), &c("=ap")));
    assert!(starts_with(&c("ssid=x"), &c("ssid=")));
    assert!(!starts_with(&c("ssi"), &c("ssid=")));
    assert!(ends_with(&c("a.tar.gz"), &c(".tar.gz")));
    assert!(!ends_with(&c("gz"), &c(".tar.gz")));
    assert!(equal(&c("ab"), &c("ab")));
    assert!(!equal(&c("ab"), &c("ac")));
    assert!(same_text("reset", "reset"));
    assert!(!same_text("reset", "reset "));
}

#[test]
fn parses_numbers_as_the_standard_does() {
    for text in [
        "", "+", "-", "0", "007", "+5", "-5", "++5", "5 ", " 5", "12a", "65535", "65536",
        "18446744073709551615", "18446744073709551616", "99999999999999999999999", "4294967295",
        "4294967296",
    ] {
        assert_eq!(parse_unsigned(&c(text), u64::MAX), text.parse::<u64>().ok(), "{:?}", text);
        assert_eq!(
            parse_unsigned(&c(text), 65535),
            text.parse::<u16>().ok().map(|v| v as u64),
            "{:?}",
            text
        );
        assert_eq!(
            parse_unsigned(&c(text), 0xffff_ffff),
            text.parse::<u32>().ok().map(|v| v as u64),
            "{:?}",
            text
        );
    }
}

#[test]
fn writes_numbers_in_base_ten() {
    for n in [0u64, 7, 10, 99, 100, 300, 65535, u64::MAX] {
        let mut out = c("n=");
        push_decimal(&mut out, n);
        assert_eq!(s(&out), format!("n={}", n));
    }
}

#[test]
fn a_number_is_read_back_from_what_it_writes() {
    for n in [0u64, 1, 20, 300, 1234567890, u64::MAX] {
        let mut out = Vec::new();
        push_decimal(&mut out, n);
        assert_eq!(parse_unsigned(&out, u64::MAX), Some(n));
    }
}

#[test]
fn takes_a_character_out() {
    assert_eq!(s(&remove_char(&c("a\"b\"\"c"), '"')), "abc");
    assert_eq!(s(&remove_char(&c("\"\""), '"')), "");
    assert_eq!(s(&remove_char(&c("abc"), '"')), "abc");
}

#[test]
fn converts_between_strings_and_characters() {
    for text in ["", "abc", "grüße", "日本語", "a\u{1F600}b"] {
        assert_eq!(chars_of(text), c(text));
        assert_eq!(string_of(&c(text)), text);
    }
}

#[test]
fn counts_bytes_as_utf8_does() {
    for ch in ['a', '\u{7f}', '\u{80}', 'ü', '\u{7ff}', '\u{800}', '日', '\u{ffff}', '\u{10000}', '\u{1F600}'] {
        assert_eq!(width_of(ch), ch.len_utf8());
    }
    let text = "aü日\u{1F600}z";
    let chars = c(text);
    for (index, (offset, _)) in text.char_indices().enumerate() {
        assert_eq!(char_index(&chars, offset), index);
    }
    assert_eq!(char_index(&chars, text.len()), chars.len());
    assert_eq!(char_index(&chars, text.len() + 5), chars.len());
    assert_eq!(char_index(&chars, 2), 1);
}
