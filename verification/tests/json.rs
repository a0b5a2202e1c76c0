use cargo_futhark::json::{parse, Json, Member};

#[test]
fn a_text_that_is_no_json_gives_nothing() {
    assert!(parse("").is_none());
    assert!(parse("{").is_none());
    assert!(parse("{\"a\": }").is_none());
    assert!(parse("[1, 2,]").is_none());
    assert!(parse("nul").is_none());
}

#[test]
fn scalars_are_read() {
    assert!(matches!(parse("null"), Some(Json::Null)));
    assert!(matches!(parse("true"), Some(Json::Bool(true))));
    assert!(matches!(parse("false"), Some(Json::Bool(false))));
    assert!(matches!(parse("12"), Some(Json::Number(Some(12)))));
    assert!(matches!(parse("-3"), Some(Json::Number(Some(-3)))));
    match parse("\"[]f64\"") {
        Some(Json::String(text)) => assert_eq!(text, "[]f64"),
        other => panic!("unexpected: {:?}", other),
    }
}

#[test]
fn a_number_that_is_no_small_integer_has_no_value() {
    assert!(matches!(parse("1.5"), Some(Json::Number(None))));
    assert!(matches!(parse("18446744073709551615"), Some(Json::Number(None))));
    assert!(matches!(parse("9223372036854775807"), Some(Json::Number(Some(i64::MAX)))));
}

#[test]
fn an_object_keeps_the_order_of_the_text() {
    let doc = parse("{\"zeta\": 1, \"alpha\": [true, null], \"mid\": {\"x\": \"y\"}}").unwrap();
    let members = doc.as_object().unwrap();
    assert_eq!(members.len(), 3);
    assert_eq!(members[0].key, "zeta");
    assert_eq!(members[1].key, "alpha");
    assert_eq!(members[2].key, "mid");
    assert!(matches!(members[0].value, Json::Number(Some(1))));
    let items = members[1].value.as_array().unwrap();
    assert_eq!(items.len(), 2);
    assert!(matches!(items[0], Json::Bool(true)));
    assert!(matches!(items[1], Json::Null));
    assert_eq!(members[2].value.get("x").unwrap().as_str(), Some("y"));
}

#[test]
fn a_member_is_found_by_its_key() {
    let doc = Json::Object(vec![
        Member { key: "kind".to_string(), value: Json::String("array".to_string()) },
        Member { key: "rank".to_string(), value: Json::Number(Some(2)) },
    ]);
    assert_eq!(doc.get("kind").unwrap().as_str(), Some("array"));
    assert!(matches!(doc.get("rank"), Some(Json::Number(Some(2)))));
    assert!(doc.get("elemtype").is_none());
    assert!(doc.get("").is_none());
}

#[test]
fn only_an_object_has_members() {
    assert!(Json::Null.get("a").is_none());
    assert!(Json::Array(vec![]).get("a").is_none());
    assert!(Json::String("a".to_string()).get("a").is_none());
    assert!(Json::Null.as_object().is_none());
    assert!(Json::Null.as_array().is_none());
    assert!(Json::Null.as_str().is_none());
    assert!(Json::Object(vec![]).as_array().is_none());
    assert!(Json::Array(vec![]).as_object().is_none());
    assert!(Json::Number(Some(1)).as_str().is_none());
}
