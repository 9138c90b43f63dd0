use mcp_servers::text::{
    contains_text, find_from, from_chars, matches_at, parse_unsigned, same_text, slice_of,
    starts_with, tail_after_last, to_chars, to_decimal,
};

fn chars(text: &str) -> Vec<char> {
    text.chars().collect()
}

#[test]
fn decimal_numbers_are_read() {
    assert_eq!(parse_unsigned("0", u64::MAX), Some(0));
    assert_eq!(parse_unsigned("42", u64::MAX), Some(42));
    assert_eq!(parse_unsigned("+42", u64::MAX), Some(42));
    assert_eq!(parse_unsigned("007", u64::MAX), Some(7));
    assert_eq!(parse_unsigned("18446744073709551615", u64::MAX), Some(u64::MAX));
    assert_eq!(parse_unsigned("18446744073709551616", u64::MAX), None);
    assert_eq!(parse_unsigned("99999999999999999999", u64::MAX), None);
    assert_eq!(parse_unsigned("", u64::MAX), None);
    assert_eq!(parse_unsigned("+", u64::MAX), None);
    assert_eq!(parse_unsigned("-", u64::MAX), None);
    assert_eq!(parse_unsigned("-5", u64::MAX), None);
    assert_eq!(parse_unsigned("++5", u64::MAX), None);
    assert_eq!(parse_unsigned("5+", u64::MAX), None);
    assert_eq!(parse_unsigned("1 2", u64::MAX), None);
    assert_eq!(parse_unsigned("12a", u64::MAX), None);
    assert_eq!(parse_unsigned("\u{0664}", u64::MAX), None);
    assert_eq!(parse_unsigned("255", 255), Some(255));
    assert_eq!(parse_unsigned("256", 255), None);
    assert_eq!(parse_unsigned("9", 0), None);
    assert_eq!(parse_unsigned("0", 0), Some(0));
}

#[test]
fn decimal_numbers_are_written() {
    assert_eq!(to_decimal(0), "0");
    assert_eq!(to_decimal(7), "7");
    assert_eq!(to_decimal(10), "10");
    assert_eq!(to_decimal(1234567890), "1234567890");
    assert_eq!(to_decimal(u64::MAX), "18446744073709551615");
    for n in [0u64, 1, 9, 10, 99, 100, 4294967295, 4294967296, u64::MAX] {
        assert_eq!(to_decimal(n), n.to_string());
        assert_eq!(parse_unsigned(&to_decimal(n), u64::MAX), Some(n));
    }
}

#[test]
fn strings_and_characters_convert() {
    assert_eq!(to_chars("héllo"), vec!['h', 'é', 'l', 'l', 'o']);
    assert_eq!(to_chars(""), Vec::<char>::new());
    assert_eq!(from_chars(&vec!['a', '\u{1f44d}', 'b']), "a\u{1f44d}b");
    assert_eq!(from_chars(&vec![]), "");
    assert_eq!(mcp_servers::text::concat("ab", "cd"), "abcd");
    assert_eq!(mcp_servers::text::concat("", ""), "");
    assert!(same_text("abc", "abc"));
    assert!(!same_text("abc", "abd"));
    assert!(!same_text("abc", "ab"));
}

#[test]
fn patterns_are_found() {
    assert!(contains_text("https://arxiv.org/abs/1", "arxiv.org"));
    assert!(contains_text("arxiv.org", "arxiv.org"));
    assert!(!contains_text("arxiv.or", "arxiv.org"));
    assert!(!contains_text("", "arxiv.org"));
    assert!(contains_text("abc", ""));
    assert!(contains_text("", ""));
    assert_eq!(find_from(&chars("abcabc"), &chars("bc"), 0), Some(1));
    assert_eq!(find_from(&chars("abcabc"), &chars("bc"), 1), Some(1));
    assert_eq!(find_from(&chars("abcabc"), &chars("bc"), 2), Some(4));
    assert_eq!(find_from(&chars("abcabc"), &chars("bc"), 5), None);
    assert_eq!(find_from(&chars("abcabc"), &chars("bc"), 50), None);
    assert_eq!(find_from(&chars("abc"), &chars(""), 3), Some(3));
    assert_eq!(find_from(&chars("abc"), &chars(""), 4), None);
    assert!(matches_at(&chars("abc"), &chars("bc"), 1));
    assert!(!matches_at(&chars("abc"), &chars("bc"), 2));
    assert!(!matches_at(&chars("abc"), &chars("abcd"), 0));
    assert!(starts_with(&chars("http://x"), &chars("http")));
    assert!(!starts_with(&chars("htt"), &chars("http")));
    assert!(starts_with(&chars(""), &chars("")));
}

#[test]
fn tails_and_slices_are_cut() {
    assert_eq!(tail_after_last(&chars("/a/b.c.png"), '.'), chars("png"));
    assert_eq!(tail_after_last(&chars("/a/b"), '.'), chars("/a/b"));
    assert_eq!(tail_after_last(&chars("/a/b."), '.'), chars(""));
    assert_eq!(tail_after_last(&chars(""), '.'), chars(""));
    assert_eq!(tail_after_last(&chars("/abs/2401.00001"), '/'), chars("2401.00001"));
    assert_eq!(slice_of(&chars("abcdef"), 2, 4), chars("cd"));
    assert_eq!(slice_of(&chars("abcdef"), 0, 6), chars("abcdef"));
    assert_eq!(slice_of(&chars("abcdef"), 3, 3), chars(""));
}
