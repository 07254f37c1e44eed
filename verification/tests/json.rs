use animus_trigger_slack::json::{put, Json, Member};
use serde_json::Value;

const TEXT: &str = r#"{"n":[0,-1,18446744073709551615,2.5,1e300],"o":{"":{"k":null}},"s":"\u0000é\"\\","t":true}"#;

fn value(text: &str) -> Value {
    serde_json::from_str(text).expect("test JSON")
}

#[test]
fn values_read_and_write() {
    let json = Json::parse(TEXT).expect("test JSON");
    assert_eq!(json.to_value(), value(TEXT));
    assert_eq!(json.encode(), value(TEXT).to_string());
    assert_eq!(json.clone().to_value(), value(TEXT));
    assert_eq!(Json::from_value(value(TEXT)).to_value(), value(TEXT));
    let again = Json::parse(&json.encode()).expect("what is written reads back");
    assert_eq!(again.to_value(), value(TEXT));
}

#[test]
fn members_are_found() {
    let json = Json::parse(TEXT).expect("test JSON");
    assert_eq!(json.text_at("s"), Some("\0\u{e9}\"\\"));
    assert_eq!(json.text_at("t"), None);
    assert_eq!(json.text_at("absent"), None);
    assert_eq!(json.bool_at("t"), Some(true));
    assert_eq!(json.bool_at("s"), None);
    assert!(json.get("o").and_then(|o| o.get("")).and_then(|o| o.get("k")).is_some());
    assert!(Json::parse("[1]").expect("test JSON").get("0").is_none());
    assert_eq!(Json::from_text("x").as_str(), Some("x"));
    assert_eq!(Json::Null.as_str(), None);
}

#[test]
fn the_last_member_of_a_name_counts() {
    let json = Json::parse(r#"{"a": 1, "a": "two"}"#).expect("test JSON");
    assert_eq!(json.text_at("a"), Some("two"));
    let mut members: Vec<Member> = Vec::new();
    put(&mut members, "a", Json::from_text("one"));
    put(&mut members, "b", Json::Bool(false));
    put(&mut members, "a", Json::from_text("two"));
    let json = Json::Object(members);
    assert_eq!(json.text_at("a"), Some("two"));
    assert_eq!(json.encode(), r#"{"a":"two","b":false}"#);
}

#[test]
fn numbers_and_empty_objects_are_built() {
    assert_eq!(Json::from_u16(503).encode(), "503");
    assert_eq!(Json::from_u16(0).encode(), "0");
    assert_eq!(Json::from_u16(65535).clone().encode(), "65535");
    assert_eq!(Json::empty_object().encode(), "{}");
}

#[test]
fn written_text_is_a_single_line() {
    let json = Json::parse("{\n \"a\\nb\": [\"\\n\\r\\u2028\",\n 1]\n}").expect("test JSON");
    let text = json.encode();
    assert!(!text.contains('\n'));
    assert_eq!(text, "{\"a\\nb\":[\"\\n\\r\u{2028}\",1]}");
}

#[test]
fn what_is_not_json_says_so() {
    let message = Json::parse("{\"a\":").expect_err("should fail");
    assert_eq!(message, "EOF while parsing a value at line 1 column 5");
    assert!(Json::parse("").is_err());
    assert!(Json::parse("{} {}").is_err());
}
