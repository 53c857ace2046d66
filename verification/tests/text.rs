use ape::numbers::{digit, parse_unsigned, push_decimal, push_hex_byte};
use ape::text::{
    chars_of, equal_ignoring_ascii_case, same_bytes, same_chars, same_text, split_whitespace,
    string_of, to_ascii_lower, trim_bounds, whitespace,
};

fn chars(s: &str) -> Vec<char> {
    s.chars().collect()
}

#[test]
fn text_comparisons_are_exact() {
    assert!(same_text("ROM", "ROM"));
    assert!(!same_text("ROM", "rom"));
    assert!(!same_text("ROM", "ROMS"));
    assert!(same_bytes(&[1, 2], &[1, 2]));
    assert!(!same_bytes(&[1, 2], &[1, 3]));
    assert!(!same_bytes(&[1, 2], &[1]));
    assert!(same_chars(&['a'], &['a']));
    assert!(!same_chars(&['a'], &['b']));
}

#[test]
fn strings_and_characters_convert_both_ways() {
    for s in ["", "abc", "héllo wörld", "日本語\n"] {
        assert_eq!(chars_of(s), chars(s));
        assert_eq!(string_of(&chars(s)), s);
    }
}

#[test]
fn white_space_is_what_std_calls_white_space() {
    for n in 0u32..0x3100 {
        if let Some(c) = char::from_u32(n) {
            assert_eq!(whitespace(c), c.is_whitespace(), "U+{n:04X}");
        }
    }
    assert!(!whitespace('\u{200B}'));
    assert!(!whitespace('\u{FEFF}'));
}

#[test]
fn ascii_letters_are_lowered() {
    for n in 0u32..0x250 {
        if let Some(c) = char::from_u32(n) {
            assert_eq!(to_ascii_lower(c), c.to_ascii_lowercase());
        }
    }
    assert!(equal_ignoring_ascii_case(&chars("VeRsIoN"), &chars("version")));
    assert!(!equal_ignoring_ascii_case(&chars("VERSION"), &chars("VERSIONS")));
    assert!(!equal_ignoring_ascii_case(&chars("É"), &chars("é")));
}

#[test]
fn trimming_agrees_with_std() {
    for s in ["", " ", "a", " a", "a ", "  a b  ", "\t\r\n x \u{3000}", "\u{a0}\u{a0}"] {
        let c = chars(s);
        let (from, to) = trim_bounds(&c);
        let ours: String = c[from..to].iter().collect();
        assert_eq!(ours, s.trim(), "{s:?}");
    }
}

#[test]
fn splitting_agrees_with_std() {
    for s in ["", "  ", "a", "a b", "  a  b  ", "READ 0x10\t5\n", "x\u{2003}y\u{85}z", "ab\u{a0}"] {
        let words: Vec<String> =
            split_whitespace(&chars(s)).iter().map(|w| w.iter().collect()).collect();
        let expected: Vec<String> = s.split_whitespace().map(|w| w.to_string()).collect();
        assert_eq!(words, expected, "{s:?}");
    }
}

#[test]
fn digits_have_their_values() {
    assert_eq!(digit('0', 10), Some(0));
    assert_eq!(digit('9', 10), Some(9));
    assert_eq!(digit('a', 10), None);
    assert_eq!(digit('a', 16), Some(10));
    assert_eq!(digit('F', 16), Some(15));
    assert_eq!(digit('g', 16), None);
    assert_eq!(digit('z', 36), Some(35));
    assert_eq!(digit('/', 16), None);
    assert_eq!(digit(':', 16), None);
    for radix in [2u32, 10, 16, 36] {
        for n in 0u32..0x100 {
            let c = char::from_u32(n).unwrap();
            assert_eq!(digit(c, radix), c.to_digit(radix));
        }
    }
}

#[test]
fn unsigned_numbers_parse_as_std_parses_them() {
    let cases = [
        "", "+", "-", "0", "+0", "007", "255", "256", "ff", "FF", "+ff", "100", "1 ", " 1", "--1",
        "+-1", "1+", "99999999999999999999999999", "18446744073709551615", "ffffffffffffffff",
        "10000000000000000", "٣",
    ];
    for text in cases {
        let c = chars(text);
        assert_eq!(parse_unsigned(&c, 10, usize::MAX), text.parse::<usize>().ok(), "{text:?}");
        assert_eq!(
            parse_unsigned(&c, 16, usize::MAX),
            usize::from_str_radix(text, 16).ok(),
            "{text:?}"
        );
        assert_eq!(
            parse_unsigned(&c, 16, 255).map(|v| v as u8),
            u8::from_str_radix(text, 16).ok(),
            "{text:?}"
        );
    }
}

#[test]
fn numbers_are_written_in_decimal() {
    for n in [0usize, 1, 9, 10, 11, 99, 100, 43055, 1_000_000, usize::MAX] {
        let mut out = vec!['#'];
        push_decimal(&mut out, n);
        let text: String = out.iter().collect();
        assert_eq!(text, format!("#{n}"));
    }
}

#[test]
fn bytes_are_written_as_two_upper_case_hex_digits() {
    for b in 0u8..=255 {
        let mut out = Vec::new();
        push_hex_byte(&mut out, b);
        let text: String = out.iter().collect();
        assert_eq!(text, format!("{b:02X}"));
    }
}
