use musicbrainz::entities::{non_empty_string, Date, ParseDateError};
use musicbrainz::expression::{has_bound_prefixes, is_supported};
use musicbrainz::text::{chars_of, parse_decimal, split_chars, spells, ParseIntError};

fn chars(s: &str) -> Vec<char> {
    s.chars().collect()
}

#[test]
fn decimal_numbers() {
    assert_eq!(parse_decimal(&chars("0"), 255), Ok(0));
    assert_eq!(parse_decimal(&chars("255"), 255), Ok(255));
    assert_eq!(parse_decimal(&chars("+7"), 255), Ok(7));
    assert_eq!(parse_decimal(&chars("007"), 255), Ok(7));
    assert_eq!(parse_decimal(&chars("256"), 255), Err(ParseIntError::PosOverflow));
    assert_eq!(parse_decimal(&chars(""), 255), Err(ParseIntError::Empty));
    assert_eq!(parse_decimal(&chars("+"), 255), Err(ParseIntError::InvalidDigit));
    assert_eq!(parse_decimal(&chars("-"), 255), Err(ParseIntError::InvalidDigit));
    assert_eq!(parse_decimal(&chars("-1"), 255), Err(ParseIntError::InvalidDigit));
    assert_eq!(parse_decimal(&chars("++1"), 255), Err(ParseIntError::InvalidDigit));
    assert_eq!(parse_decimal(&chars("1 "), 255), Err(ParseIntError::InvalidDigit));
    assert_eq!(parse_decimal(&chars("12a"), 255), Err(ParseIntError::InvalidDigit));
    assert_eq!(parse_decimal(&chars("999a"), 255), Err(ParseIntError::PosOverflow));
    assert_eq!(parse_decimal(&chars("18446744073709551615"), u64::MAX), Ok(u64::MAX));
    assert_eq!(
        parse_decimal(&chars("18446744073709551616"), u64::MAX),
        Err(ParseIntError::PosOverflow)
    );
    assert_eq!(parse_decimal(&chars("5"), 4), Err(ParseIntError::PosOverflow));
}

#[test]
fn decimal_numbers_as_the_standard_library_reads_them() {
    for text in ["0", "255", "256", "+7", "", "+", "-", "-1", "12a", "999a", "1_0", " 1"] {
        let expected = text.parse::<u8>().ok().map(|v| v as u64);
        assert_eq!(parse_decimal(&chars(text), 255).ok(), expected, "{:?}", text);
    }
}

#[test]
fn parts_of_a_text() {
    let parts = |s: &str| -> Vec<String> {
        split_chars(&chars(s), '-').into_iter().map(|p| p.into_iter().collect()).collect()
    };
    assert_eq!(parts(""), vec![""]);
    assert_eq!(parts("2017"), vec!["2017"]);
    assert_eq!(parts("2017-04-15"), vec!["2017", "04", "15"]);
    assert_eq!(parts("-a--"), vec!["", "a", "", ""]);
    for s in ["", "a-b", "--", "x-"] {
        let expected: Vec<String> = s.split("-").map(|p| p.to_string()).collect();
        assert_eq!(parts(s), expected);
    }
}

#[test]
fn texts_are_compared_by_their_characters() {
    assert_eq!(chars_of("a\u{e9}z"), vec!['a', '\u{e9}', 'z']);
    assert!(spells(&chars("City"), "City"));
    assert!(!spells(&chars("City"), "Cit"));
    assert!(!spells(&chars("City"), "city"));
    assert!(spells(&chars(""), ""));
}

#[test]
fn empty_strings_are_no_strings() {
    assert_eq!(non_empty_string("".to_string()), None);
    assert_eq!(non_empty_string(" ".to_string()), Some(" ".to_string()));
    assert_eq!(non_empty_string("JP".to_string()), Some("JP".to_string()));
}

#[test]
fn dates_of_each_resolution() {
    assert_eq!(Date::from_str("2017").unwrap(), Date::Year { year: 2017 });
    assert_eq!(Date::from_str("2017-4").unwrap(), Date::Month { year: 2017, month: 4 });
    assert_eq!(
        Date::from_str("2017-04-15").unwrap(),
        Date::Day { year: 2017, month: 4, day: 15 }
    );
    assert!(Date::Year { year: 2017 } != Date::Month { year: 2017, month: 0 });
    assert_eq!("2017-04".parse::<Date>().unwrap().month(), 4);
    assert_eq!(
        Date::from_str("").err().unwrap(),
        ParseDateError::ComponentInvalid(ParseIntError::Empty)
    );
    assert_eq!(
        Date::from_str("2017-").err().unwrap(),
        ParseDateError::ComponentInvalid(ParseIntError::Empty)
    );
    assert_eq!(
        Date::from_str("65536").err().unwrap(),
        ParseDateError::ComponentInvalid(ParseIntError::PosOverflow)
    );
    assert_eq!(
        Date::from_str("2017-256").err().unwrap(),
        ParseDateError::ComponentInvalid(ParseIntError::PosOverflow)
    );
    assert_eq!(Date::from_str("65535-255-255").unwrap().day(), 255);
    assert_eq!(
        Date::from_str("abc-1-1-1").err().unwrap(),
        ParseDateError::WrongNumberOfComponents(4)
    );
    assert_eq!(
        Date::from_str("x-256").err().unwrap(),
        ParseDateError::ComponentInvalid(ParseIntError::InvalidDigit)
    );
}

#[test]
fn plain_paths() {
    for expr in [
        ".",
        ".//mb:area/@id",
        ".//mb:area/mb:iso-3166-1-code-list/mb:iso-3166-1-code/text()",
        "//mb:metadata",
        ".//child/@name",
        "mb:a",
        ".//mb:*",
        "text()",
        ".//a/node()",
        "a/comment()",
        "",
    ] {
        assert!(is_supported(expr), "{:?}", expr);
        assert!(has_bound_prefixes(expr), "{:?}", expr);
    }
    for expr in [
        ".//a[1]",
        ".//other:a",
        "xmb:a",
        "b:a",
        "mb:",
        "mb::a",
        "child::a",
        "namespace::*",
        "sum(.//a)",
        "count(.)",
        "name()",
        "position()",
        "atext()",
        "mb:text()",
        "@text()",
        "a/processing-instruction()",
        "(",
        ")",
        ".//a | .//b",
        "$v",
        "'text'",
        ".//\u{e9}",
        "a mb:b",
        ".mb:a",
    ] {
        assert!(!is_supported(expr), "{:?}", expr);
    }
}

#[test]
fn prefixes_that_are_bound() {
    for expr in [
        ".//a[1]",
        "child::a",
        "child::mb:a",
        "namespace::*",
        ".//mb:a[@mb:b = 'c:d']",
        ".//a[. = \"x:y\"]",
        "concat('it''s', \"a:b\")",
        "$mb:v",
        "a mb:b",
        "mb:",
        "sum(.//a)",
    ] {
        assert!(has_bound_prefixes(expr), "{:?}", expr);
    }
    for expr in [
        ".//other:a",
        "xmb:a",
        "b:a",
        ":a",
        "a:b:c",
        ".mb:a",
        "-mb:a",
        "\u{e9}mb:a",
        ".//a[@x:b = 'c']",
        "'a' = x:b",
        "\"it's\" = x:b",
        "child::x:a",
        "mb :a",
    ] {
        assert!(!has_bound_prefixes(expr), "{:?}", expr);
    }
}
