use ironclaw::json::Json;
use ironclaw::text::{
    bool_text, chars_of, contains_text, decimal_text, is_blank, joined, joined3, same_text,
    signed_text, starts_with,
};

#[test]
fn documents_come_back_as_they_were() {
    for text in [
        "null",
        "true",
        "12",
        "-3",
        "1.5",
        r#""a\"bé""#,
        "[]",
        r#"[1,[2,"x"],{"a":null}]"#,
        r#"{"a":{"b":[1,2]},"c":false}"#,
    ] {
        let j = Json::parse(text).unwrap();
        let back: serde_json::Value = serde_json::from_str(&j.to_text()).unwrap();
        assert_eq!(back, serde_json::from_str::<serde_json::Value>(text).unwrap());
        assert_eq!(j.to_text(), j.copy().to_text());
        assert_eq!(j.to_text(), j.clone().to_text());
        assert_eq!(
            j.to_value(),
            serde_json::from_str::<serde_json::Value>(text).unwrap()
        );
        assert_eq!(j.to_text(), j.to_written_text().unwrap());
        assert_eq!(
            Json::parse_bytes(text.as_bytes()).unwrap().to_text(),
            j.to_text()
        );
    }
}

#[test]
fn parse_errors_are_told() {
    assert_eq!(
        Json::parse("{").unwrap_err(),
        "EOF while parsing an object at line 1 column 1"
    );
    assert!(Json::parse_bytes(b"\xff").is_err());
}

#[test]
fn members_are_found_by_name() {
    let j = Json::parse(r#"{"t":"x","b":true,"n":7,"a":[1]}"#).unwrap();
    assert_eq!(j.text_at("t"), Some("x"));
    assert_eq!(j.text_at("b"), None);
    assert_eq!(j.bool_at("b"), Some(true));
    assert_eq!(j.bool_at("t"), None);
    assert_eq!(j.get("n").unwrap().as_u64(), Some(7));
    assert_eq!(j.get("t").unwrap().as_u64(), None);
    assert_eq!(j.get("a").unwrap().as_array().unwrap().len(), 1);
    assert!(j.get("t").unwrap().as_array().is_none());
    assert!(j.get("none").is_none());
    assert!(Json::Null.get("a").is_none());
    assert_eq!(j.field("t").as_str(), Some("x"));
    assert_eq!(j.field("none").to_text(), "null");
    assert_eq!(Json::Bool(true).as_bool(), Some(true));
}

#[test]
fn later_members_replace_earlier_ones() {
    let j = Json::object()
        .with("a", Json::of_u64(1))
        .with("b", Json::of_u64(2))
        .with("a", Json::of_text("new"));
    assert_eq!(j.text_at("a"), Some("new"));
    assert_eq!(j.to_text(), r#"{"a":"new","b":2}"#);
    assert_eq!(j.copy().to_text(), r#"{"a":"new","b":2}"#);
    assert_eq!(Json::Null.with("a", Json::Null).to_text(), "null");
}

#[test]
fn numbers_are_unsigned_integers_or_not() {
    for (text, value) in [
        ("0", Some(0)),
        ("18446744073709551615", Some(u64::MAX)),
        ("18446744073709551616", None),
        ("-1", None),
        ("1.0", None),
        ("1e2", None),
    ] {
        assert_eq!(Json::parse(text).unwrap().as_u64(), value);
    }
}

#[test]
fn pretty_text_is_indented() {
    let j = Json::array(vec![Json::of_u64(1), Json::object()]);
    assert_eq!(j.to_pretty_text().unwrap(), "[\n  1,\n  {}\n]");
}

#[test]
fn numerals_have_no_leading_zeros() {
    assert_eq!(decimal_text(0), "0");
    assert_eq!(decimal_text(1_234_567_890), "1234567890");
    assert_eq!(decimal_text(u64::MAX), "18446744073709551615");
    assert_eq!(signed_text(-6), "-6");
    assert_eq!(signed_text(42), "42");
    assert_eq!(signed_text(i64::MIN), "-9223372036854775808");
}

#[test]
fn texts_are_compared_and_searched_by_character() {
    assert!(same_text("é", "é"));
    assert!(!same_text("é", "e"));
    assert!(!same_text("a", "ab"));
    assert!(starts_with("abc", "ab"));
    assert!(starts_with("abc", ""));
    assert!(!starts_with("ab", "abc"));
    assert!(contains_text("abc", "bc"));
    assert!(contains_text("abc", ""));
    assert!(contains_text("", ""));
    assert!(!contains_text("abc", "ac"));
    assert_eq!(chars_of("aé€"), vec!['a', 'é', '€']);
    assert_eq!(joined("a", "b"), "ab");
    assert_eq!(joined3("a", "", "c"), "ac");
    assert_eq!((bool_text(true), bool_text(false)), ("true", "false"));
}

#[test]
fn white_space_is_that_of_unicode() {
    for c in (0..=0x10ffff_u32).filter_map(char::from_u32) {
        let s = c.to_string();
        assert_eq!(is_blank(&s), s.trim().is_empty(), "{:x}", c as u32);
    }
    assert!(is_blank(""));
    assert!(!is_blank(" x "));
}
