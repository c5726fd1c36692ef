use discern::json::{parse, render, Json, ParseError};

#[test]
fn parse_reads_an_object() {
    let j = parse("{\"cmd\":\"DISPATCH\",\"evt\":\"READY\"}").unwrap();
    assert_eq!(j.get("cmd").and_then(|c| c.as_str()), Some("DISPATCH"));
    assert_eq!(j.get("evt").and_then(|c| c.as_str()), Some("READY"));
    assert!(j.get("data").is_none());
}

#[test]
fn parse_refuses_what_is_no_json() {
    assert_eq!(parse("{\"cmd\":"), Err(ParseError::NotJson));
    assert_eq!(parse(""), Err(ParseError::NotJson));
    assert_eq!(parse("{} {}"), Err(ParseError::NotJson));
}

#[test]
fn parse_keeps_arrays_in_order() {
    let j = parse("[true, null, \"x\", [false]]").unwrap();
    let items = j.as_array().unwrap();
    assert_eq!(items.len(), 4);
    assert_eq!(items[0].as_bool(), Some(true));
    assert_eq!(items[1], Json::Null);
    assert_eq!(items[2].as_str(), Some("x"));
    assert_eq!(items[3].as_array().unwrap()[0].as_bool(), Some(false));
}

#[test]
fn parse_takes_the_last_of_a_repeated_key() {
    let j = parse("{\"a\": 1, \"a\": \"two\"}").unwrap();
    assert_eq!(j.get("a").and_then(|c| c.as_str()), Some("two"));
}

#[test]
fn render_writes_compact_text_with_sorted_keys() {
    let j = Json::object()
        .with("nonce", Json::text("deadbeef"))
        .with("cmd", Json::text("GET_GUILDS"))
        .with("args", Json::object());
    assert_eq!(render(&j), "{\"args\":{},\"cmd\":\"GET_GUILDS\",\"nonce\":\"deadbeef\"}");
}

#[test]
fn render_escapes_strings() {
    let j = Json::object().with("k", Json::text("a\"b\\c\n"));
    assert_eq!(render(&j), "{\"k\":\"a\\\"b\\\\c\\n\"}");
}

#[test]
fn render_lets_a_later_member_replace_an_earlier_one() {
    let j = Json::object().with("k", Json::Bool(false)).with("k", Json::Bool(true));
    assert_eq!(j.get("k").and_then(|v| v.as_bool()), Some(true));
    assert_eq!(render(&j), "{\"k\":true}");
}

#[test]
fn render_carries_numbers_through() {
    let j = parse("{\"volume\": 100, \"pan\": [1.5, -2]}").unwrap();
    assert_eq!(render(&j), "{\"pan\":[1.5,-2],\"volume\":100}");
}

#[test]
fn with_on_a_value_that_is_no_object_starts_afresh() {
    let j = Json::Null.with("a", Json::Bool(true));
    assert_eq!(render(&j), "{\"a\":true}");
}

#[test]
fn get_on_a_value_that_is_no_object_finds_nothing() {
    assert!(Json::text("x").get("x").is_none());
    assert!(Json::Array(vec![]).get("0").is_none());
}
