use osm4routing::speed::{
    convert, find_unknown_code, magnitude_of, scale, to_kmph, zone_limit, NO_LIMIT, UNSET,
    WALKING_PACE,
};
use osm4routing::text::{
    chars_of, parse_digits, parse_int, spells, split_word, to_upper, to_uppercase, trim,
    whitespace,
};

fn text(chars: &[char]) -> String {
    chars.iter().collect()
}

#[test]
fn chars_of_keeps_every_character() {
    assert_eq!(chars_of(""), Vec::<char>::new());
    assert_eq!(chars_of("a b"), vec!['a', ' ', 'b']);
    assert_eq!(chars_of("é\u{1f6b2}x"), vec!['é', '\u{1f6b2}', 'x']);
}

#[test]
fn spells_compares_whole_words() {
    assert!(spells(&chars_of("highway"), "highway"));
    assert!(spells(&[], ""));
    assert!(!spells(&chars_of("highway"), "highwa"));
    assert!(!spells(&chars_of("highwa"), "highway"));
    assert!(!spells(&chars_of("highway"), "Highway"));
    assert!(!spells(&[], "x"));
    assert!(!spells(&['x'], ""));
    assert!(spells(&['é', 'a'], "éa"));
}

#[test]
fn whitespace_is_the_unicode_property() {
    let yes = [
        '\t', '\n', '\u{b}', '\u{c}', '\r', ' ', '\u{85}', '\u{a0}', '\u{1680}', '\u{2000}',
        '\u{2005}', '\u{200a}', '\u{2028}', '\u{2029}', '\u{202f}', '\u{205f}', '\u{3000}',
    ];
    for c in yes {
        assert!(whitespace(c));
    }
    let no = [
        'a', '0', '\u{8}', '\u{e}', '\u{1f}', '!', '\u{84}', '\u{86}', '\u{180e}', '\u{1fff}',
        '\u{200b}', '\u{2027}', '\u{202a}', '\u{2060}', '\u{feff}', '\u{3001}',
    ];
    for c in no {
        assert!(!whitespace(c));
    }
}

#[test]
fn whitespace_agrees_with_the_standard_library() {
    let mut code: u32 = 0;
    while code <= 0x10ffff {
        if let Some(c) = char::from_u32(code) {
            assert_eq!(whitespace(c), c.is_whitespace());
        }
        code += 1;
    }
}

#[test]
fn trim_takes_white_space_from_both_ends() {
    assert_eq!(text(trim(&chars_of("  a b \t"))), "a b");
    assert_eq!(text(trim(&chars_of("a"))), "a");
    assert_eq!(text(trim(&chars_of(""))), "");
    assert_eq!(text(trim(&chars_of(" \n "))), "");
    assert_eq!(text(trim(&chars_of("\u{a0}x\u{2009}y\u{3000}"))), "x\u{2009}y");
}

#[test]
fn trim_agrees_with_the_standard_library() {
    for s in ["", " ", "x", " x", "x ", "  x  y  ", "\t\r\nspeed 1\u{85}", "\u{200b} x"] {
        assert_eq!(text(trim(&chars_of(s))), s.trim());
    }
}

#[test]
fn split_word_splits_at_the_first_space() {
    let chars = chars_of("50 mph signed");
    let (word, rest) = split_word(&chars);
    assert_eq!(text(word), "50");
    assert_eq!(text(rest.unwrap()), "mph signed");

    let chars = chars_of("50");
    let (word, rest) = split_word(&chars);
    assert_eq!(text(word), "50");
    assert!(rest.is_none());

    let chars = chars_of("");
    let (word, rest) = split_word(&chars);
    assert_eq!(text(word), "");
    assert!(rest.is_none());

    let chars = chars_of(" x");
    let (word, rest) = split_word(&chars);
    assert_eq!(text(word), "");
    assert_eq!(text(rest.unwrap()), "x");

    let chars = chars_of("x ");
    let (word, rest) = split_word(&chars);
    assert_eq!(text(word), "x");
    assert_eq!(text(rest.unwrap()), "");

    let chars = chars_of("a\tb");
    let (word, rest) = split_word(&chars);
    assert_eq!(text(word), "a\tb");
    assert!(rest.is_none());
}

#[test]
fn to_uppercase_changes_small_ascii_letters_only() {
    assert_eq!(to_upper('a'), 'A');
    assert_eq!(to_upper('z'), 'Z');
    assert_eq!(to_upper('m'), 'M');
    assert_eq!(to_upper('A'), 'A');
    assert_eq!(to_upper('`'), '`');
    assert_eq!(to_upper('{'), '{');
    assert_eq!(to_upper('é'), 'é');
    assert_eq!(to_upper('ß'), 'ß');
    assert_eq!(text(&to_uppercase(&chars_of("fr:Zone30 é"))), "FR:ZONE30 é");
    assert_eq!(text(&to_uppercase(&[])), "");
}

#[test]
fn to_uppercase_agrees_with_the_standard_library() {
    let mut code: u32 = 0;
    while code < 0x3000 {
        if let Some(c) = char::from_u32(code) {
            assert_eq!(to_upper(c), c.to_ascii_uppercase());
        }
        code += 1;
    }
}

#[test]
fn parse_int_reads_signed_numbers() {
    assert_eq!(parse_int(&chars_of("0")), Some(0));
    assert_eq!(parse_int(&chars_of("42")), Some(42));
    assert_eq!(parse_int(&chars_of("+42")), Some(42));
    assert_eq!(parse_int(&chars_of("-42")), Some(-42));
    assert_eq!(parse_int(&chars_of("007")), Some(7));
    assert_eq!(parse_int(&chars_of("-0")), Some(0));
    assert_eq!(parse_int(&chars_of("2147483647")), Some(i32::MAX));
    assert_eq!(parse_int(&chars_of("-2147483648")), Some(i32::MIN));
    assert_eq!(parse_int(&chars_of("+2147483647")), Some(i32::MAX));
    assert_eq!(parse_int(&chars_of("000000000002147483647")), Some(i32::MAX));
}

#[test]
fn parse_int_rejects_what_is_no_number() {
    for s in [
        "", "+", "-", "--1", "+-1", "-+1", "1-", "1 ", " 1", "1.0", "1e3", "0x10", "1_000", "a",
        "12a", "a12", "2147483648", "-2147483649", "+2147483648", "4294967296",
        "18446744073709551616", "99999999999999999999999999999999999999999", "\u{661}", "１",
    ] {
        assert_eq!(parse_int(&chars_of(s)), None);
    }
}

#[test]
fn parse_int_agrees_with_the_standard_library() {
    for s in [
        "", "+", "-", "0", "-0", "+0", "00", "5", "-5", "+5", "50", "2147483646", "2147483647",
        "2147483648", "2147483649", "-2147483647", "-2147483648", "-2147483649", "21474836470",
        "9223372036854775807", "9223372036854775808", "x", "5x", "x5", " 5", "5 ", "+-5", "٣",
    ] {
        assert_eq!(parse_int(&chars_of(s)), s.parse::<i32>().ok());
    }
}

#[test]
fn parse_digits_takes_no_sign() {
    assert_eq!(parse_digits(&chars_of("12"), false), Some(12));
    assert_eq!(parse_digits(&chars_of("12"), true), Some(-12));
    assert_eq!(parse_digits(&chars_of("2147483648"), true), Some(i32::MIN));
    assert_eq!(parse_digits(&chars_of("2147483648"), false), None);
    assert_eq!(parse_digits(&chars_of("2147483649"), true), None);
    assert_eq!(parse_digits(&chars_of("-12"), false), None);
    assert_eq!(parse_digits(&chars_of("+12"), false), None);
    assert_eq!(parse_digits(&chars_of(""), false), None);
    assert_eq!(parse_digits(&chars_of(""), true), None);
}

#[test]
fn zone_limit_knows_four_zones() {
    assert_eq!(zone_limit(&chars_of("FR:RURAL")), Some(80));
    assert_eq!(zone_limit(&chars_of("FR:URBAN")), Some(50));
    assert_eq!(zone_limit(&chars_of("FR:ZONE30")), Some(30));
    assert_eq!(zone_limit(&chars_of("FR:WALK")), Some(5));
    assert_eq!(zone_limit(&chars_of("fr:walk")), Some(5));
    assert_eq!(zone_limit(&chars_of("fR:rUrAl")), Some(80));
    assert_eq!(zone_limit(&chars_of("FR:ZONE99")), None);
    assert_eq!(zone_limit(&chars_of("FR:RURAL ")), None);
    assert_eq!(zone_limit(&chars_of("FR")), None);
    assert_eq!(zone_limit(&chars_of("")), None);
}

#[test]
fn magnitude_of_each_kind_of_word() {
    assert_eq!(NO_LIMIT, -99);
    assert_eq!(WALKING_PACE, 5);
    assert_eq!(UNSET, -1);
    assert_eq!(magnitude_of(&chars_of("none")), -99);
    assert_eq!(magnitude_of(&chars_of("walk")), 5);
    assert_eq!(magnitude_of(&chars_of("120")), 120);
    assert_eq!(magnitude_of(&chars_of("-3")), -3);
    assert_eq!(magnitude_of(&chars_of("FR:zone30")), 30);
    assert_eq!(magnitude_of(&chars_of("signals")), -1);
    assert_eq!(magnitude_of(&chars_of("")), -1);
}

#[test]
fn scale_rounds_toward_zero() {
    assert_eq!(scale(50, 160934, 100000), 80);
    assert_eq!(scale(-50, 160934, 100000), -80);
    assert_eq!(scale(7, 1, 2), 3);
    assert_eq!(scale(-7, 1, 2), -3);
    assert_eq!(scale(1, 999, 1000), 0);
    assert_eq!(scale(-1, 999, 1000), 0);
    assert_eq!(scale(0, 1852, 1000), 0);
    assert_eq!(scale(12, 1, 1), 12);
    assert_eq!(scale(12, 3, 4), 9);
}

#[test]
fn scale_stops_at_the_ends_of_32_bits() {
    assert_eq!(scale(i32::MAX, 2, 1), i32::MAX);
    assert_eq!(scale(i32::MIN, 2, 1), i32::MIN);
    assert_eq!(scale(i32::MAX, 1, 1), i32::MAX);
    assert_eq!(scale(i32::MIN, 1, 1), i32::MIN);
    assert_eq!(scale(i32::MAX, 1_000_000, 1_000_000), i32::MAX);
    assert_eq!(scale(i32::MIN, 1_000_000, 1), i32::MIN);
    assert_eq!(scale(1_073_741_824, 2, 1), i32::MAX);
    assert_eq!(scale(-1_073_741_824, 2, 1), i32::MIN);
    assert_eq!(scale(1_073_741_823, 2, 1), 2_147_483_646);
    assert_eq!(scale(2, 4_000_000_000, 1), i32::MAX);
    assert_eq!(scale(-2, 4_000_000_000, 1), i32::MIN);
    assert_eq!(scale(i32::MAX, u32::MAX, u32::MAX), i32::MAX);
    assert_eq!(scale(i32::MIN, u32::MAX, u32::MAX), i32::MIN);
    assert_eq!(scale(i32::MIN, u32::MAX, 1), i32::MIN);
    assert_eq!(scale(i32::MAX, u32::MAX, 1), i32::MAX);
    assert_eq!(scale(i32::MAX, 1, u32::MAX), 0);
    assert_eq!(scale(5, 0, 3), 0);
}

#[test]
fn convert_by_unit() {
    assert_eq!(convert(100, &chars_of("knots")), 185);
    assert_eq!(convert(100, &chars_of("mph")), 160);
    assert_eq!(convert(100, &chars_of("kmh")), 100);
    assert_eq!(convert(100, &chars_of("")), 100);
    assert_eq!(convert(100, &chars_of("Knots")), 100);
    assert_eq!(convert(-100, &chars_of("knots")), -185);
    assert_eq!(convert(27, &chars_of("knots")), 50);
    assert_eq!(convert(i32::MAX, &chars_of("km/h")), i32::MAX);
}

#[test]
fn to_kmph_reads_whole_values() {
    assert_eq!(to_kmph(&chars_of("50")), 50);
    assert_eq!(to_kmph(&chars_of(" 50 mph ")), 80);
    assert_eq!(to_kmph(&chars_of("5 knots")), 9);
    assert_eq!(to_kmph(&chars_of("none")), -99);
    assert_eq!(to_kmph(&chars_of("walk")), 5);
    assert_eq!(to_kmph(&chars_of("fr:urban")), 50);
    assert_eq!(to_kmph(&chars_of("FR:ZONE99")), -1);
    assert_eq!(to_kmph(&[]), -1);
}

#[test]
fn find_unknown_code_gives_the_first_word() {
    let chars = chars_of(" XX:rural mph ");
    assert_eq!(find_unknown_code(&chars).map(text), Some(String::from("XX:rural")));
    let chars = chars_of("FR:rural mph");
    assert_eq!(find_unknown_code(&chars).map(text), None);
    let chars = chars_of("none");
    assert_eq!(find_unknown_code(&chars).map(text), None);
    let chars = chars_of("walk");
    assert_eq!(find_unknown_code(&chars).map(text), None);
    let chars = chars_of("+12");
    assert_eq!(find_unknown_code(&chars).map(text), None);
    let chars = chars_of("12+");
    assert_eq!(find_unknown_code(&chars).map(text), Some(String::from("12+")));
    assert_eq!(find_unknown_code(&[]).map(text), Some(String::new()));
}
