//! The JSON encoder's exact output.

use lantern::json::{json_to_string, JsonValue};

#[test]
fn scalars() {
    assert_eq!(json_to_string(&JsonValue::Null), "null");
    assert_eq!(json_to_string(&JsonValue::Bool(true)), "true");
    assert_eq!(json_to_string(&JsonValue::Bool(false)), "false");
    assert_eq!(json_to_string(&JsonValue::Int(0)), "0");
    assert_eq!(json_to_string(&JsonValue::Int(42)), "42");
    assert_eq!(json_to_string(&JsonValue::Int(-7)), "-7");
    assert_eq!(
        json_to_string(&JsonValue::Int(i64::MIN)),
        "-9223372036854775808"
    );
    assert_eq!(
        json_to_string(&JsonValue::Int(i64::MAX)),
        "9223372036854775807"
    );
    assert_eq!(
        json_to_string(&JsonValue::UInt(18446744073709551615)),
        "18446744073709551615"
    );
    assert_eq!(json_to_string(&JsonValue::Num(String::from("1.5"))), "1.5");
}

#[test]
fn strings_escape() {
    assert_eq!(
        json_to_string(&JsonValue::Str(String::from("hi"))),
        "\"hi\""
    );
    assert_eq!(
        json_to_string(&JsonValue::Str(String::from("a\"b\\c"))),
        "\"a\\\"b\\\\c\""
    );
    assert_eq!(
        json_to_string(&JsonValue::Str(String::from("l1\nl2\tend\r"))),
        "\"l1\\nl2\\tend\\r\""
    );
    assert_eq!(
        json_to_string(&JsonValue::Str(String::from("\u{8}\u{c}\u{1}\u{1f}"))),
        "\"\\b\\f\\u0001\\u001f\""
    );
    assert_eq!(
        json_to_string(&JsonValue::Str(String::from("héllo ☃"))),
        "\"héllo ☃\""
    );
}

#[test]
fn arrays_and_objects() {
    let v = JsonValue::Arr(vec![
        JsonValue::Int(1),
        JsonValue::Arr(vec![]),
        JsonValue::Str(String::from("x")),
    ]);
    assert_eq!(json_to_string(&v), "[1,[],\"x\"]");

    let o = JsonValue::Obj(vec![
        (String::from("a"), JsonValue::Int(1)),
        (
            String::from("b"),
            JsonValue::Obj(vec![(String::from("c"), JsonValue::Null)]),
        ),
    ]);
    assert_eq!(json_to_string(&o), "{\"a\":1,\"b\":{\"c\":null}}");
    assert_eq!(json_to_string(&JsonValue::Obj(vec![])), "{}");
}

#[test]
fn matches_serde_json_rendering() {
    // the encoder's compact form is serde_json's compact form
    let v = JsonValue::Obj(vec![
        (String::from("k\ney"), JsonValue::Arr(vec![JsonValue::Int(-3)])),
        (String::from("s"), JsonValue::Str(String::from("a\"b"))),
    ]);
    let mine = json_to_string(&v);
    let serde_value: serde_json::Value = serde_json::from_str(&mine).unwrap();
    assert_eq!(serde_json::to_string(&serde_value).unwrap(), mine);
}
