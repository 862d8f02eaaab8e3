use drone_telemetry::json::parse::parse;
use drone_telemetry::json::object::{field, member};
use drone_telemetry::json::wire::Wire;
use drone_telemetry::json::{Json, Member, Number};

fn entry(key: &str, value: Json) -> Member {
    Member { key: key.to_string(), value }
}

#[test]
fn scalars_are_parsed() {
    assert_eq!(parse("null"), Some(Json::Null));
    assert_eq!(parse("true"), Some(Json::Bool(true)));
    assert_eq!(parse("false"), Some(Json::Bool(false)));
    assert_eq!(parse("\"70-1-0\""), Some(Json::Text("70-1-0".to_string())));
    assert_eq!(parse("\"\""), Some(Json::Text(String::new())));
}

#[test]
fn numbers_are_parsed_as_written() {
    assert_eq!(parse("0"), Some(Json::Number(Number::PosInt(0))));
    assert_eq!(parse("12"), Some(Json::Number(Number::PosInt(12))));
    assert_eq!(parse("18446744073709551615"), Some(Json::Number(Number::PosInt(u64::MAX))));
    assert_eq!(parse("-3"), Some(Json::Number(Number::NegInt(-3))));
    assert_eq!(
        parse("-9223372036854775808"),
        Some(Json::Number(Number::NegInt(i64::MIN)))
    );
    assert_eq!(parse("1.5"), Some(Json::Number(Number::Float(1.5f64.to_bits()))));
    assert_eq!(parse("12.0"), Some(Json::Number(Number::Float(12.0f64.to_bits()))));
    assert_eq!(parse("-2e3"), Some(Json::Number(Number::Float((-2000.0f64).to_bits()))));
    assert_eq!(
        parse("18446744073709551616"),
        Some(Json::Number(Number::Float(18446744073709551616.0f64.to_bits())))
    );
}

#[test]
fn arrays_are_parsed_in_order() {
    assert_eq!(parse("[]"), Some(Json::Array(vec![])));
    assert_eq!(
        parse("[1, \"a\", [null]]"),
        Some(Json::Array(vec![
            Json::Number(Number::PosInt(1)),
            Json::Text("a".to_string()),
            Json::Array(vec![Json::Null]),
        ]))
    );
}

#[test]
fn objects_are_parsed_with_their_members() {
    assert_eq!(parse("{}"), Some(Json::Object(vec![])));
    let json = parse("{\"b\": {\"c\": [true]}, \"a\": 1}").unwrap();
    assert_eq!(member(&json, "a"), Some(&Json::Number(Number::PosInt(1))));
    let inner = member(&json, "b").unwrap();
    assert_eq!(member(inner, "c"), Some(&Json::Array(vec![Json::Bool(true)])));
    assert_eq!(member(&json, "c"), None);
    match json {
        Json::Object(members) => assert_eq!(members.len(), 2),
        other => panic!("no object: {other:?}"),
    }
}

#[test]
fn text_that_is_no_json_is_not_parsed() {
    for text in ["", "{", "[1,]", "{\"a\" 1}", "nul", "1 2", "'a'", "{\"a\": 1}}"] {
        assert_eq!(parse(text), None, "{text}");
    }
}

#[test]
fn last_member_of_a_name_counts() {
    let json = Json::Object(vec![
        entry("a", Json::Bool(false)),
        entry("b", Json::Null),
        entry("a", Json::Bool(true)),
    ]);
    assert_eq!(member(&json, "a"), Some(&Json::Bool(true)));
    assert_eq!(member(&json, "b"), Some(&Json::Null));
    assert_eq!(member(&json, "c"), None);
    assert_eq!(member(&Json::Array(vec![]), "a"), None);
}

#[test]
fn field_is_found_by_name_or_by_position() {
    let object = Json::Object(vec![entry("total", Json::Null), entry("used", Json::Bool(true))]);
    assert_eq!(field(&object, "used", 1, 2), Some(&Json::Bool(true)));
    assert_eq!(field(&object, "free", 1, 2), None);
    let array = Json::Array(vec![Json::Null, Json::Bool(true)]);
    assert_eq!(field(&array, "used", 1, 2), Some(&Json::Bool(true)));
    assert_eq!(field(&array, "used", 1, 3), None);
    assert_eq!(field(&array, "used", 2, 2), None);
    assert_eq!(field(&Json::Null, "used", 1, 2), None);
}

#[test]
fn copy_equals_the_document() {
    let json = parse("{\"a\": [1, 2.5, {\"b\": null}], \"c\": \"d\"}").unwrap();
    assert_eq!(json.clone(), json);
}

#[test]
fn integers_decode_within_their_bounds() {
    let number = |n: Number| Json::Number(n);
    assert_eq!(i32::from_json(&number(Number::PosInt(5))), Some(5));
    assert_eq!(i32::from_json(&number(Number::NegInt(-5))), Some(-5));
    assert_eq!(i32::from_json(&number(Number::PosInt(1 << 31))), None);
    assert_eq!(i32::from_json(&number(Number::NegInt(-(1 << 31) - 1))), None);
    assert_eq!(i32::from_json(&number(Number::Float(5.0f64.to_bits()))), None);
    assert_eq!(u32::from_json(&number(Number::PosInt(u32::MAX as u64))), Some(u32::MAX));
    assert_eq!(u32::from_json(&number(Number::PosInt(1 << 32))), None);
    assert_eq!(u32::from_json(&number(Number::NegInt(-1))), None);
    assert_eq!(i64::from_json(&number(Number::PosInt(i64::MAX as u64))), Some(i64::MAX));
    assert_eq!(i64::from_json(&number(Number::PosInt(1 << 63))), None);
    assert_eq!(i64::from_json(&number(Number::NegInt(i64::MIN))), Some(i64::MIN));
    assert_eq!(i32::from_json(&Json::Text("5".to_string())), None);
}

#[test]
fn integers_encode_by_their_sign() {
    assert_eq!(5i32.to_json(), Json::Number(Number::PosInt(5)));
    assert_eq!(0i32.to_json(), Json::Number(Number::PosInt(0)));
    assert_eq!((-5i32).to_json(), Json::Number(Number::NegInt(-5)));
    assert_eq!(i64::MIN.to_json(), Json::Number(Number::NegInt(i64::MIN)));
    assert_eq!(7u32.to_json(), Json::Number(Number::PosInt(7)));
}

#[test]
fn lists_decode_element_by_element() {
    let list = parse("[1, 2, 3]").unwrap();
    assert_eq!(Vec::<i32>::from_json(&list), Some(vec![1, 2, 3]));
    assert_eq!(vec![1, 2, 3].to_json(), list);
    let mixed = parse("[1, \"2\", 3]").unwrap();
    assert_eq!(Vec::<i32>::from_json(&mixed), None);
    assert_eq!(Vec::<i32>::from_json(&parse("{}").unwrap()), None);
    assert_eq!(Vec::<String>::from_json(&parse("[]").unwrap()), Some(vec![]));
}

#[test]
fn any_document_is_a_widget_value() {
    let json = parse("{\"a\": [1, null]}").unwrap();
    assert_eq!(Json::from_json(&json), Some(json.clone()));
    assert_eq!(json.to_json(), json);
}
