use fmp_polling::json::{JsonNumber, JsonValue};
use fmp_polling::text::{
    contains, decimal, ends_with, join_strings, signed_decimal, split_char, str_eq,
    trim_end_matches_char, trim_matches_char, trim_start_matches_char, trim_whitespace,
};

#[test]
fn split_keeps_empty_pieces() {
    assert_eq!(split_char("a-b--c", '-'), vec!["a", "b", "", "c"]);
    assert_eq!(split_char("", ':'), vec![""]);
    assert_eq!(split_char("-", '-'), vec!["", ""]);
    assert_eq!(split_char("héllo wörld", ' '), vec!["héllo", "wörld"]);
    let s = "x,y,,z,";
    let expected: Vec<String> = s.split(',').map(|p| p.to_string()).collect();
    assert_eq!(split_char(s, ','), expected);
}

#[test]
fn trims_match_std() {
    for s in ["  a b  ", "\u{3000}x\u{a0}", "", "   ", "\n\ty\r"] {
        assert_eq!(trim_whitespace(s), s.trim());
    }
    assert_eq!(trim_matches_char("//a/b//", '/'), "a/b");
    assert_eq!(trim_start_matches_char("//a/", '/'), "a/");
    assert_eq!(trim_end_matches_char("/a//", '/'), "/a");
    assert_eq!(trim_matches_char("///", '/'), "");
}

#[test]
fn join_and_compare() {
    let parts = vec!["a".to_string(), "".to_string(), "c".to_string()];
    assert_eq!(join_strings(&parts, "/"), "a//c");
    assert_eq!(join_strings(&vec![], ", "), "");
    assert!(str_eq("abc", "abc"));
    assert!(!str_eq("abc", "abd"));
    assert!(!str_eq("ab", "abc"));
}

#[test]
fn contains_and_ends_with() {
    assert!(contains("btcusdt", "usd"));
    assert!(contains("usd", "usd"));
    assert!(!contains("us", "usd"));
    assert!(contains("anything", ""));
    assert!(ends_with("ETHUSD", "USD"));
    assert!(!ends_with("USDETH", "USD"));
    assert!(ends_with("x", ""));
}

#[test]
fn decimal_rendering() {
    assert_eq!(decimal(0), "0");
    assert_eq!(decimal(1024), "1024");
    assert_eq!(decimal(u64::MAX), u64::MAX.to_string());
    assert_eq!(signed_decimal(-42), "-42");
    assert_eq!(signed_decimal(i64::MIN), i64::MIN.to_string());
    assert_eq!(signed_decimal(7), "7");
}

fn sample_args() -> JsonValue {
    JsonValue::Object(vec![
        (
            "tickers".to_string(),
            JsonValue::Array(vec![
                JsonValue::String("AAPL".to_string()),
                JsonValue::Number(JsonNumber::PosInt(1)),
                JsonValue::String("MSFT".to_string()),
            ]),
        ),
        ("fetch_type".to_string(), JsonValue::String("quote".to_string())),
        ("limit".to_string(), JsonValue::Number(JsonNumber::PosInt(20))),
        ("offset".to_string(), JsonValue::Number(JsonNumber::NegInt(-1))),
    ])
}

#[test]
fn json_fields() {
    let args = sample_args();
    assert_eq!(args.str_field("fetch_type").as_deref(), Some("quote"));
    assert_eq!(args.str_field("limit"), None);
    assert_eq!(args.str_field("absent"), None);
    assert_eq!(args.u64_field("limit"), Some(20));
    assert_eq!(args.u64_field("offset"), None);
    assert_eq!(args.string_list_field("tickers"), Some(vec!["AAPL".to_string(), "MSFT".to_string()]));
    assert_eq!(args.string_list_field("fetch_type"), None);
    assert!(JsonValue::Null.get("x").is_none());
    assert!(JsonValue::from_opt_str(None).as_str().is_none());
    assert!(matches!(JsonValue::from_opt_i64(Some(-3)), JsonValue::Number(JsonNumber::NegInt(-3))));
    assert!(matches!(JsonValue::from_opt_i64(Some(3)), JsonValue::Number(JsonNumber::PosInt(3))));
    assert!(matches!(JsonValue::from_opt_u64(None), JsonValue::Null));
}

#[test]
fn json_get_takes_first_entry() {
    let v = JsonValue::Object(vec![
        ("k".to_string(), JsonValue::String("first".to_string())),
        ("k".to_string(), JsonValue::String("second".to_string())),
    ]);
    assert_eq!(v.get("k").and_then(|x| x.as_str()), Some("first"));
}
