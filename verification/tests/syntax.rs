use cocktail_bot_hal::server::syntax::{
    is_whitespace, parse_decimal, split_lines, split_whitespace, trim_chars,
};

fn chars(s: &str) -> Vec<char> {
    s.chars().collect()
}

fn strings(v: Vec<Vec<char>>) -> Vec<String> {
    v.into_iter().map(|c| c.into_iter().collect()).collect()
}

#[test]
fn whitespace_matches_std() {
    for u in 0u32..=0x3100 {
        if let Some(c) = char::from_u32(u) {
            assert_eq!(is_whitespace(c), c.is_whitespace(), "U+{:04X}", u);
        }
    }
}

#[test]
fn lines_match_std() {
    for s in ["a\r\nb\nc", "a\n", "\n", "", "x\r", "a\r\r\nb", "\r\n\r\n"] {
        let expected: Vec<String> = s.lines().map(|l| l.to_string()).collect();
        assert_eq!(strings(split_lines(&chars(s))), expected, "{:?}", s);
    }
}

#[test]
fn tokens_and_trim_match_std() {
    for s in ["  GET   /x HTTP/1.1 ", "", "   ", "a\u{a0}b", "one"] {
        let expected: Vec<String> = s.split_whitespace().map(|t| t.to_string()).collect();
        assert_eq!(strings(split_whitespace(&chars(s))), expected, "{:?}", s);
        let t: String = trim_chars(&chars(s)).into_iter().collect();
        assert_eq!(t, s.trim());
    }
}

#[test]
fn decimal_parse_matches_std() {
    for s in ["0", "42", "+7", "", "+", "-1", "1a", "007", "18446744073709551615", "18446744073709551616"] {
        assert_eq!(parse_decimal(&chars(s)), s.parse::<usize>().ok(), "{:?}", s);
    }
}
