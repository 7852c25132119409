use astra::scan::{
    after_blanks, after_word, contains, count_leading, find, is_blank_char, is_match_at,
    keep_digits, lines, position_with, slice, split, split_lines, str_contains, trim,
    value_after_equals, word,
};
use astra::text::{
    chars_of, decimal_string, digit_of, is_digit_char, parse_decimal, parse_unsigned,
    push_decimal, push_str, str_equal,
};

fn chars(s: &str) -> Vec<char> {
    s.chars().collect()
}

fn strings(list: &[&str]) -> Vec<Vec<char>> {
    list.iter().map(|s| chars(s)).collect()
}

#[test]
fn numerals_are_written() {
    assert_eq!(decimal_string(0), "0");
    assert_eq!(decimal_string(7), "7");
    assert_eq!(decimal_string(10), "10");
    assert_eq!(decimal_string(1640000000), "1640000000");
    assert_eq!(decimal_string(u64::MAX), "18446744073709551615");
    let mut buffer = chars("n=");
    push_decimal(&mut buffer, 305);
    push_str(&mut buffer, "px");
    assert_eq!(buffer, chars("n=305px"));
    assert_eq!(chars_of("añ€"), vec!['a', 'ñ', '€']);
}

#[test]
fn numerals_are_read() {
    let text = chars("ab0123x");
    assert_eq!(parse_decimal(&text, 2, 6), Some(123));
    assert_eq!(parse_decimal(&text, 2, 7), None);
    assert_eq!(parse_decimal(&text, 3, 3), None);
    assert_eq!(parse_decimal(&chars("18446744073709551615"), 0, 20), Some(u64::MAX));
    assert_eq!(parse_decimal(&chars("18446744073709551616"), 0, 20), None);
    assert_eq!(parse_decimal(&chars("99999999999999999999"), 0, 20), None);
    // digits of other scripts are no digits
    assert_eq!(parse_decimal(&chars("١٢"), 0, 2), None);
    assert!(is_digit_char('0') && is_digit_char('9') && !is_digit_char('a') && !is_digit_char('٣'));
    assert_eq!(digit_of('7'), 7);
    assert_eq!(parse_unsigned(&chars("+12"), 100), Some(12));
    assert_eq!(parse_unsigned(&chars("12"), 12), Some(12));
    assert_eq!(parse_unsigned(&chars("13"), 12), None);
    for bad in ["", "+", "-1", "1+", "++1", " 1", "1 "] {
        assert_eq!(parse_unsigned(&chars(bad), u64::MAX), None, "{bad:?}");
    }
    assert!(str_equal("dark", "dark") && !str_equal("dark", "Dark") && !str_equal("", "a"));
}

#[test]
fn lines_end_with_a_line_feed() {
    let cases: [(&str, &[&str]); 9] = [
        ("", &[]),
        ("a", &["a"]),
        ("a\n", &["a"]),
        ("a\nb", &["a", "b"]),
        ("a\r\nb\r\n", &["a", "b"]),
        ("\n\n", &["", ""]),
        ("a\rb\n", &["a\rb"]),
        ("a\n\r", &["a", "\r"]),
        ("a\r", &["a\r"]),
    ];
    for (text, expected) in cases {
        assert_eq!(split_lines(&chars(text)), strings(expected), "{text:?}");
        let std_lines: Vec<&str> = text.lines().collect();
        assert_eq!(lines(text), std_lines, "{text:?}");
    }
    let all = lines("x\nMain Display: Yes\nMain Display: Yes");
    assert_eq!(position_with(&all, "Display: Yes"), Some(1));
    assert_eq!(position_with(&all, "No"), None);
}

#[test]
fn searching() {
    let hay = chars("abcabc");
    assert_eq!(find(&hay, &chars("bc"), 0), Some(1));
    assert_eq!(find(&hay, &chars("bc"), 2), Some(4));
    assert_eq!(find(&hay, &chars("bc"), 5), None);
    assert_eq!(find(&hay, &chars("abcabcd"), 0), None);
    assert_eq!(find(&hay, &chars(""), 6), Some(6));
    assert_eq!(find(&hay, &chars(""), 7), None);
    assert!(is_match_at(&hay, &chars("cab"), 2));
    assert!(!is_match_at(&hay, &chars("cab"), 5));
    assert!(contains(&hay, &chars("ca")) && !contains(&hay, &chars("cb")));
    assert!(str_contains("run interval = 5", "run interval"));
    assert!(!str_contains("run", "run interval"));
    assert_eq!(slice(&hay, 1, 3), chars("bc"));
    assert_eq!(count_leading(&chars("  a "), ' '), 2);
    assert_eq!(count_leading(&chars("\t a"), ' '), 0);
    assert_eq!(keep_digits(&chars("a1b22 x3")), chars("1223"));
    assert_eq!(value_after_equals(&chars("a = b = c")), Some(chars(" b = c")));
    assert_eq!(value_after_equals(&chars("a")), None);
}

#[test]
fn separators_cut_from_the_left() {
    let cases: [(&str, &str, &[&str]); 6] = [
        ("2560 x 1600", " x ", &["2560", "1600"]),
        ("a", " x ", &["a"]),
        ("", " x ", &[""]),
        (" x ", " x ", &["", ""]),
        ("aaa", "aa", &["", "a"]),
        ("1 x 2 x 3", " x ", &["1", "2", "3"]),
    ];
    for (text, separator, expected) in cases {
        assert_eq!(split(&chars(text), &chars(separator)), strings(expected), "{text:?}");
        let std_pieces: Vec<Vec<char>> = text.split(separator).map(chars).collect();
        assert_eq!(split(&chars(text), &chars(separator)), std_pieces, "{text:?}");
    }
}

#[test]
fn blanks_and_words() {
    for c in ['\t', '\n', '\u{b}', '\u{c}', '\r', ' ', '\u{85}', '\u{a0}', '\u{3000}', '\u{2028}'] {
        assert!(is_blank_char(c), "{c:?}");
    }
    for code in 0..0x11000u32 {
        if let Some(c) = char::from_u32(code) {
            assert_eq!(is_blank_char(c), c.is_whitespace(), "{code:x}");
        }
    }
    let text = chars(" \t600 seconds\n");
    assert_eq!(after_blanks(&text, 0), 2);
    assert_eq!(after_word(&text, 2), 5);
    assert_eq!(trim(&text), chars("600 seconds"));
    assert_eq!(trim(&chars("  ")), chars(""));
    assert_eq!(trim(&chars("a")), chars("a"));
    assert_eq!(word(&text, 0), Some(chars("600")));
    assert_eq!(word(&text, 1), Some(chars("seconds")));
    assert_eq!(word(&text, 2), None);
    assert_eq!(word(&chars(""), 0), None);
}
