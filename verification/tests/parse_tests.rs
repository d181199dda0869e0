use smart_thermostat::text::{drop_controls, trim_chars};
use smart_thermostat::parse::{parse_choice, parse_i64, parse_u32, parse_usize, split_char, validate_date_format};

#[test]
fn parse_u32_like_std() {
    for s in ["0", "+7", "007", "4294967295", "", "+", "-1", "4294967296", " 1", "1a", "12"] {
        assert_eq!(parse_u32(s), s.parse::<u32>().ok(), "input {:?}", s);
    }
}

#[test]
fn parse_i64_like_std() {
    for s in ["0", "-0", "+5", "-9223372036854775808", "9223372036854775807", "9223372036854775808", "-9223372036854775809", "-", "+-1", "20"] {
        assert_eq!(parse_i64(s), s.parse::<i64>().ok(), "input {:?}", s);
    }
}

#[test]
fn parse_usize_and_choice() {
    assert_eq!(parse_usize("3"), Some(3));
    assert_eq!(parse_usize("-3"), None);
    assert_eq!(parse_choice("  2 \n"), Some(2));
    assert_eq!(parse_choice("two"), None);
}

#[test]
fn split_like_std() {
    for s in ["a-b-c", "-", "", "a--b", "abc-"] {
        let got: Vec<String> = split_char(&s.chars().collect::<Vec<_>>(), '-').into_iter().map(|v| v.into_iter().collect()).collect();
        let want: Vec<String> = s.split('-').map(|p| p.to_string()).collect();
        assert_eq!(got, want);
    }
}

#[test]
fn vacation_dates() {
    assert!(validate_date_format("12-25-2025"));
    assert!(validate_date_format("1-1-2000"));
    assert!(validate_date_format("+1-+31-2100"));
    assert!(!validate_date_format("13-01-2025"));
    assert!(!validate_date_format("12-32-2025"));
    assert!(!validate_date_format("12-25-1999"));
    assert!(!validate_date_format("2025-12-25"));
    assert!(!validate_date_format("12/25/2025"));
    assert!(!validate_date_format("12-25-2025-1"));
    assert!(!validate_date_format("00-10-2025"));
}

#[test]
fn whitespace_and_control_classes_match_std() {
    for u in 0u32..=0x10FFFF {
        if let Some(c) = char::from_u32(u) {
            assert_eq!(trim_chars(&[c]).is_empty(), c.is_whitespace(), "U+{:04X}", u);
            assert_eq!(drop_controls(&[c]).is_empty(), c.is_control(), "U+{:04X}", u);
        }
    }
}
