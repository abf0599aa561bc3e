use amqp_harness::error::ErrorKind;
use amqp_harness::json::{inject_token, JsonValue};
use amqp_harness::json_text::json_to_string;

fn obj(members: Vec<(&str, JsonValue)>) -> JsonValue {
    JsonValue::Obj(members.into_iter().map(|(k, v)| (k.to_string(), v)).collect())
}

#[test]
fn writes_every_json_form() {
    let value = obj(vec![
        ("a", JsonValue::Arr(vec![
            JsonValue::Num("1".to_string()),
            JsonValue::Bool(true),
            JsonValue::Null,
            JsonValue::Str("x".to_string()),
        ])),
        ("b", JsonValue::Obj(Vec::new())),
    ]);
    assert_eq!(json_to_string(&value), "{\"a\":[1,true,null,\"x\"],\"b\":{}}");
}

#[test]
fn writes_escapes() {
    let value = JsonValue::Str("a\"b\\c\nd\re\tf\u{1}g".to_string());
    assert_eq!(json_to_string(&value), "\"a\\\"b\\\\c\\nd\\re\\tf\\u0001g\"");
}

#[test]
fn writes_unicode_verbatim() {
    let value = JsonValue::Str("héllo→".to_string());
    assert_eq!(json_to_string(&value), "\"héllo→\"");
}

#[test]
fn injects_token_when_absent() {
    let mut request = obj(vec![
        ("header", JsonValue::Obj(Vec::new())),
        ("body", JsonValue::Str("payload".to_string())),
    ]);
    inject_token(&mut request, "secret").expect("header object accepts the token");
    assert_eq!(
        json_to_string(&request),
        "{\"header\":{\"token\":\"secret\"},\"body\":\"payload\"}"
    );
}

#[test]
fn token_injection_is_idempotent() {
    let mut request = obj(vec![("header", JsonValue::Obj(Vec::new()))]);
    inject_token(&mut request, "secret").expect("first injection");
    let once = json_to_string(&request);
    inject_token(&mut request, "secret").expect("second injection");
    assert_eq!(json_to_string(&request), once);
}

#[test]
fn injection_keeps_existing_token() {
    let mut request = obj(vec![(
        "header",
        obj(vec![("token", JsonValue::Str("already".to_string()))]),
    )]);
    inject_token(&mut request, "new").expect("existing token is kept");
    assert_eq!(json_to_string(&request), "{\"header\":{\"token\":\"already\"}}");
}

#[test]
fn injection_fails_without_header() {
    let mut request = obj(vec![("body", JsonValue::Null)]);
    let error = inject_token(&mut request, "secret").expect_err("no header member");
    assert_eq!(error.kind(), ErrorKind::InternalFailure);
    assert_eq!(error.message(), "failed to get header");
    assert_eq!(json_to_string(&request), "{\"body\":null}");
}

#[test]
fn injection_fails_on_non_object_header() {
    let mut request = obj(vec![("header", JsonValue::Str("nope".to_string()))]);
    let error = inject_token(&mut request, "secret").expect_err("header must be an object");
    assert_eq!(error.kind(), ErrorKind::InternalFailure);
    assert_eq!(error.message(), "failed to get header as object");
    assert_eq!(json_to_string(&request), "{\"header\":\"nope\"}");
}
