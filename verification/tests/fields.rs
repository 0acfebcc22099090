use bugzilla_query::schema::{
    int32_of, int32s_of, int64_of, is_named, other_members, read_bool, read_int32, read_int32s,
    read_int64, read_opt_int32, read_opt_int64, read_opt_text, read_opt_texts, read_text,
    read_texts, text_of, texts_of,
};
use bugzilla_query::{DecodeError, Json, Number};

fn members(source: &str) -> Vec<(String, Json)> {
    match Json::parse(source).unwrap() {
        Json::Object(members) => members,
        other => panic!("not an object: {:?}", other),
    }
}

fn integer(n: i64) -> Json {
    Json::Number(Number { int: Some(n), text: n.to_string() })
}

#[test]
fn required_text_field() {
    let o = members(r#"{"a": "x", "b": 1, "c": null}"#);
    assert_eq!(read_text(&o, "a"), Ok("x".to_string()));
    assert_eq!(read_text(&o, "b"), Err(DecodeError::Invalid("b")));
    assert_eq!(read_text(&o, "c"), Err(DecodeError::Invalid("c")));
    assert_eq!(read_text(&o, "d"), Err(DecodeError::Missing("d")));
}

#[test]
fn optional_text_field() {
    let o = members(r#"{"a": "x", "b": 1, "c": null}"#);
    assert_eq!(read_opt_text(&o, "a"), Ok(Some("x".to_string())));
    assert_eq!(read_opt_text(&o, "b"), Err(DecodeError::Invalid("b")));
    assert_eq!(read_opt_text(&o, "c"), Ok(None));
    assert_eq!(read_opt_text(&o, "d"), Ok(None));
}

#[test]
fn required_bool_field() {
    let o = members(r#"{"a": true, "b": false, "c": 0}"#);
    assert_eq!(read_bool(&o, "a"), Ok(true));
    assert_eq!(read_bool(&o, "b"), Ok(false));
    assert_eq!(read_bool(&o, "c"), Err(DecodeError::Invalid("c")));
    assert_eq!(read_bool(&o, "d"), Err(DecodeError::Missing("d")));
}

#[test]
fn integer_fields_of_32_bits() {
    let o = members(r#"{"a": 5, "b": 2147483648, "c": "5", "d": null, "e": 5.0}"#);
    assert_eq!(read_int32(&o, "a"), Ok(5));
    assert_eq!(read_int32(&o, "b"), Err(DecodeError::Invalid("b")));
    assert_eq!(read_int32(&o, "c"), Err(DecodeError::Invalid("c")));
    assert_eq!(read_int32(&o, "d"), Err(DecodeError::Invalid("d")));
    assert_eq!(read_int32(&o, "e"), Err(DecodeError::Invalid("e")));
    assert_eq!(read_int32(&o, "f"), Err(DecodeError::Missing("f")));
    assert_eq!(read_opt_int32(&o, "a"), Ok(Some(5)));
    assert_eq!(read_opt_int32(&o, "b"), Err(DecodeError::Invalid("b")));
    assert_eq!(read_opt_int32(&o, "d"), Ok(None));
    assert_eq!(read_opt_int32(&o, "f"), Ok(None));
}

#[test]
fn integer_fields_of_64_bits() {
    let o = members(r#"{"a": 2147483648, "b": 9223372036854775808, "c": null}"#);
    assert_eq!(read_int64(&o, "a"), Ok(2147483648));
    assert_eq!(read_int64(&o, "b"), Err(DecodeError::Invalid("b")));
    assert_eq!(read_int64(&o, "c"), Err(DecodeError::Invalid("c")));
    assert_eq!(read_int64(&o, "d"), Err(DecodeError::Missing("d")));
    assert_eq!(read_opt_int64(&o, "a"), Ok(Some(2147483648)));
    assert_eq!(read_opt_int64(&o, "c"), Ok(None));
    assert_eq!(read_opt_int64(&o, "d"), Ok(None));
}

#[test]
fn list_fields() {
    let o = members(r#"{"a": ["x", "y"], "b": [], "c": [1, 2], "d": ["x", 1], "e": "x", "f": null}"#);
    assert_eq!(read_texts(&o, "a"), Ok(vec!["x".to_string(), "y".to_string()]));
    assert_eq!(read_texts(&o, "b"), Ok(Vec::new()));
    assert_eq!(read_texts(&o, "c"), Err(DecodeError::Invalid("c")));
    assert_eq!(read_texts(&o, "d"), Err(DecodeError::Invalid("d")));
    assert_eq!(read_texts(&o, "e"), Err(DecodeError::Invalid("e")));
    assert_eq!(read_texts(&o, "g"), Err(DecodeError::Missing("g")));
    assert_eq!(read_opt_texts(&o, "a"), Ok(Some(vec!["x".to_string(), "y".to_string()])));
    assert_eq!(read_opt_texts(&o, "f"), Ok(None));
    assert_eq!(read_opt_texts(&o, "g"), Ok(None));
    assert_eq!(read_opt_texts(&o, "e"), Err(DecodeError::Invalid("e")));
    assert_eq!(read_int32s(&o, "c"), Ok(vec![1, 2]));
    assert_eq!(read_int32s(&o, "b"), Ok(Vec::new()));
    assert_eq!(read_int32s(&o, "a"), Err(DecodeError::Invalid("a")));
    assert_eq!(read_int32s(&o, "g"), Err(DecodeError::Missing("g")));
}

#[test]
fn single_values() {
    assert_eq!(text_of(&Json::Text("x".to_string()), "n"), Ok("x".to_string()));
    assert_eq!(text_of(&Json::Null, "n"), Err(DecodeError::Invalid("n")));
    assert_eq!(int32_of(&integer(-7), "n"), Ok(-7));
    assert_eq!(int32_of(&integer(4294967296), "n"), Err(DecodeError::Invalid("n")));
    assert_eq!(int64_of(&integer(4294967296), "n"), Ok(4294967296));
    let fraction = Json::Number(Number { int: None, text: "0.5".to_string() });
    assert_eq!(int64_of(&fraction, "n"), Err(DecodeError::Invalid("n")));
    let list = Json::Array(vec![integer(1), integer(2), integer(3)]);
    assert_eq!(int32s_of(&list, "n"), Ok(vec![1, 2, 3]));
    assert_eq!(texts_of(&list, "n"), Err(DecodeError::Invalid("n")));
    assert_eq!(texts_of(&Json::Bool(true), "n"), Err(DecodeError::Invalid("n")));
}

#[test]
fn names_are_compared_whole() {
    let names = ["id", "name"];
    assert!(is_named(&names, &"id".to_string()));
    assert!(is_named(&names, &"name".to_string()));
    assert!(!is_named(&names, &"nam".to_string()));
    assert!(!is_named(&names, &"names".to_string()));
    assert!(!is_named(&names, &"".to_string()));
    assert!(!is_named(&[], &"id".to_string()));
}

#[test]
fn other_members_keep_their_order() {
    let o = vec![
        ("z".to_string(), integer(1)),
        ("id".to_string(), integer(2)),
        ("a".to_string(), integer(3)),
        ("z".to_string(), integer(4)),
    ];
    let rest = other_members(&o, &["id", "name"]);
    let expected = vec![
        ("z".to_string(), integer(1)),
        ("a".to_string(), integer(3)),
        ("z".to_string(), integer(4)),
    ];
    assert_eq!(rest, expected);
    assert_eq!(other_members(&o, &[]), o);
    assert_eq!(other_members(&o, &["z", "id", "a"]), Vec::new());
}
