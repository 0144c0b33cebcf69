use productivity_timer::text::{
    char_is_whitespace, decimal_string, first_token_bounds, format_instant_to_hhmmss,
    parse_minutes, str_equal, NANOS_PER_SEC,
};

#[test]
fn formats_an_hour_a_minute_and_a_second() {
    assert_eq!(format_instant_to_hhmmss(3661 * NANOS_PER_SEC), "01:01:01");
}

#[test]
fn formats_less_than_a_minute() {
    assert_eq!(format_instant_to_hhmmss(59 * NANOS_PER_SEC), "00:00:59");
}

#[test]
fn formats_more_than_ninety_nine_hours() {
    assert_eq!(format_instant_to_hhmmss(360000 * NANOS_PER_SEC), "100:00:00");
}

#[test]
fn formats_zero() {
    assert_eq!(format_instant_to_hhmmss(0), "00:00:00");
}

#[test]
fn formatting_cuts_off_below_a_second() {
    assert_eq!(format_instant_to_hhmmss(1_999_999_999), "00:00:01");
    assert_eq!(format_instant_to_hhmmss(999_999_999), "00:00:00");
}

#[test]
fn formats_ten_minutes_and_two_seconds() {
    assert_eq!(format_instant_to_hhmmss(602 * NANOS_PER_SEC), "00:10:02");
}

#[test]
fn decimal_of_small_and_large_numbers() {
    assert_eq!(decimal_string(0), "0");
    assert_eq!(decimal_string(7), "7");
    assert_eq!(decimal_string(10), "10");
    assert_eq!(decimal_string(1234567890), "1234567890");
    assert_eq!(
        decimal_string(u128::MAX),
        "340282366920938463463374607431768211455"
    );
}

#[test]
fn parses_plain_numbers() {
    assert_eq!(parse_minutes("10"), Some(10));
    assert_eq!(parse_minutes("0"), Some(0));
    assert_eq!(parse_minutes("007"), Some(7));
    assert_eq!(parse_minutes("18446744073709551615"), Some(u64::MAX));
}

#[test]
fn turns_away_what_is_no_plain_number() {
    assert_eq!(parse_minutes(""), None);
    assert_eq!(parse_minutes("-5"), None);
    assert_eq!(parse_minutes("+5"), None);
    assert_eq!(parse_minutes("ten"), None);
    assert_eq!(parse_minutes("1 0"), None);
    assert_eq!(parse_minutes("10\n"), None);
    assert_eq!(parse_minutes("1.5"), None);
    assert_eq!(parse_minutes("\u{661}\u{662}"), None);
}

#[test]
fn turns_away_a_number_beyond_sixty_four_bits() {
    assert_eq!(parse_minutes("18446744073709551616"), None);
    assert_eq!(parse_minutes("99999999999999999999999999"), None);
}

#[test]
fn compares_strings_by_their_characters() {
    assert!(str_equal("tag", "tag"));
    assert!(str_equal("", ""));
    assert!(!str_equal("tag", "tags"));
    assert!(!str_equal("tag", "tab"));
    assert!(str_equal("caf\u{e9}", "caf\u{e9}"));
}

#[test]
fn white_space_is_what_trim_removes() {
    for c in [' ', '\t', '\n', '\r', '\u{b}', '\u{c}', '\u{85}', '\u{a0}', '\u{2003}', '\u{3000}'] {
        assert!(char_is_whitespace(c));
        assert!(c.is_whitespace());
    }
    for c in ['a', '0', '_', '\u{200b}', '\u{8}'] {
        assert!(!char_is_whitespace(c));
        assert!(!c.is_whitespace());
    }
}

#[test]
fn white_space_agrees_with_std_on_every_character() {
    let mut code: u32 = 0;
    while code <= 0x10ffff {
        if let Some(c) = char::from_u32(code) {
            assert_eq!(char_is_whitespace(c), c.is_whitespace());
        }
        code += 1;
    }
}

#[test]
fn finds_the_first_word() {
    assert_eq!(first_token_bounds("t"), (0, 1));
    assert_eq!(first_token_bounds("  t \n"), (2, 3));
    assert_eq!(first_token_bounds("add 10"), (0, 3));
    assert_eq!(first_token_bounds(""), (0, 0));
    assert_eq!(first_token_bounds("   "), (3, 3));
}
