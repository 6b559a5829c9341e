use video_search::document::parse_document;
use video_search::error::SearchError;
use video_search::json::JsonValue;

fn sample() -> JsonValue {
    JsonValue::Object(vec![
        ("a".to_string(), JsonValue::Text("first".to_string())),
        ("b".to_string(), JsonValue::Array(vec![JsonValue::Null, JsonValue::Boolean(true)])),
        ("a".to_string(), JsonValue::Text("second".to_string())),
    ])
}

#[test]
fn get_answers_with_the_first_member_of_that_key() {
    let value = sample();
    assert_eq!(value.get("a"), Some(&JsonValue::Text("first".to_string())));
    assert_eq!(value.get("c"), None);
    assert_eq!(value.get(""), None);
    assert_eq!(JsonValue::Array(vec![]).get("a"), None);
    assert_eq!(JsonValue::Text("a".to_string()).get("a"), None);
}

#[test]
fn keys_are_compared_character_by_character() {
    let value = JsonValue::Object(vec![
        ("ab".to_string(), JsonValue::Null),
        ("é".to_string(), JsonValue::Boolean(false)),
    ]);
    assert_eq!(value.get("a"), None);
    assert_eq!(value.get("abc"), None);
    assert_eq!(value.get("ab"), Some(&JsonValue::Null));
    assert_eq!(value.get("é"), Some(&JsonValue::Boolean(false)));
    assert_eq!(value.get("e"), None);
}

#[test]
fn array_access_is_bounded() {
    let value = sample();
    let list = value.get("b").unwrap();
    assert_eq!(list.at(0), Some(&JsonValue::Null));
    assert_eq!(list.at(1), Some(&JsonValue::Boolean(true)));
    assert_eq!(list.at(2), None);
    assert_eq!(value.at(0), None);
    assert_eq!(list.as_array().map(|v| v.len()), Some(2));
    assert_eq!(value.as_array(), None);
}

#[test]
fn as_str_is_for_strings_only() {
    assert_eq!(JsonValue::Text("x".to_string()).as_str(), Some("x"));
    assert_eq!(JsonValue::Number("1".to_string()).as_str(), None);
    assert_eq!(JsonValue::Null.as_str(), None);
    assert_eq!(JsonValue::Boolean(true).as_str(), None);
}

#[test]
fn documents_decode_into_trees() {
    assert_eq!(parse_document("null").unwrap(), JsonValue::Null);
    assert_eq!(parse_document(" true ").unwrap(), JsonValue::Boolean(true));
    assert_eq!(parse_document("-12").unwrap(), JsonValue::Number("-12".to_string()));
    assert_eq!(parse_document("1.5e3").unwrap(), JsonValue::Number("1500.0".to_string()));
    assert_eq!(parse_document("\"a\\u00e9\"").unwrap(), JsonValue::Text("aé".to_string()));
    assert_eq!(
        parse_document("[[],{}]").unwrap(),
        JsonValue::Array(vec![JsonValue::Array(vec![]), JsonValue::Object(vec![])])
    );
}

#[test]
fn object_members_come_in_key_order() {
    assert_eq!(
        parse_document("{\"b\":1,\"a\":2}").unwrap(),
        JsonValue::Object(vec![
            ("a".to_string(), JsonValue::Number("2".to_string())),
            ("b".to_string(), JsonValue::Number("1".to_string())),
        ])
    );
}

#[test]
fn text_that_is_no_json_is_a_parse_error() {
    for bad in ["", "{", "{\"a\":}", "[1,]", "nul", "{} {}", "'a'"] {
        assert!(
            matches!(parse_document(bad), Err(SearchError::ParseError(_))),
            "{:?} was accepted",
            bad
        );
    }
}

#[test]
fn clone_copies_the_whole_document() {
    let value = parse_document("{\"a\":[1,{\"b\":[true,null,\"x\"]}],\"c\":{}}").unwrap();
    assert_eq!(value.clone(), value);
    assert_eq!(sample().clone(), sample());
    assert_eq!(JsonValue::Null.clone(), JsonValue::Null);
}
