use unetic_core::json::{Json, clone_json, json_diff, json_equal};

fn text(s: &str) -> Json {
    Json::Text(s.to_string())
}

fn num(s: &str) -> Json {
    Json::Number(s.to_string())
}

fn obj(entries: Vec<(&str, Json)>) -> Json {
    Json::Object(entries.into_iter().map(|(k, v)| (k.to_string(), v)).collect())
}

#[test]
fn equal_values_have_no_difference() {
    let a = obj(vec![("x", num("1")), ("y", Json::Array(vec![Json::Bool(true), Json::Null]))]);
    let b = obj(vec![("y", Json::Array(vec![Json::Bool(true), Json::Null])), ("x", num("1"))]);
    assert!(json_equal(&a, &b));
    assert_eq!(json_diff(&a, &b), None);
    assert_eq!(json_diff(&Json::Null, &Json::Null), None);
}

#[test]
fn object_difference_lists_changed_added_and_removed_keys() {
    let a = obj(vec![
        ("x", num("1")),
        ("y", obj(vec![("z", Json::Bool(true)), ("w", num("2"))])),
        ("gone", text("v")),
    ]);
    let b = obj(vec![
        ("x", num("1")),
        ("y", obj(vec![("z", Json::Bool(false)), ("w", num("2"))])),
        ("new", Json::Array(vec![num("1")])),
    ]);
    let expected = obj(vec![
        ("y", obj(vec![("z", Json::Bool(false))])),
        ("new", Json::Array(vec![num("1")])),
        ("gone", Json::Null),
    ]);
    assert_eq!(json_diff(&a, &b), Some(expected));
}

#[test]
fn non_object_difference_is_the_new_value() {
    let a = Json::Array(vec![num("1"), num("2")]);
    let b = Json::Array(vec![num("1"), num("3")]);
    assert_eq!(json_diff(&a, &b), Some(Json::Array(vec![num("1"), num("3")])));
    assert_eq!(json_diff(&text("a"), &num("1")), Some(num("1")));
    assert_eq!(json_diff(&obj(vec![]), &Json::Null), Some(Json::Null));
    assert_eq!(json_diff(&Json::Null, &obj(vec![("k", Json::Null)])), Some(obj(vec![("k", Json::Null)])));
}

#[test]
fn number_text_distinguishes_integer_from_float() {
    assert!(!json_equal(&num("1"), &num("1.0")));
    assert_eq!(json_diff(&num("1"), &num("1.0")), Some(num("1.0")));
}

#[test]
fn equality_sees_missing_and_extra_keys() {
    let a = obj(vec![("a", Json::Null)]);
    let b = obj(vec![("a", Json::Null), ("b", Json::Null)]);
    assert!(!json_equal(&a, &b));
    assert!(!json_equal(&b, &a));
    assert_eq!(json_diff(&b, &a), Some(obj(vec![("b", Json::Null)])));
    assert_eq!(clone_json(&b), b);
}

#[test]
fn unknown_method_answer_carries_error_and_state_without_result() {
    let error = obj(vec![("message", text("unknown Unetic method: nope"))]);
    let state = obj(vec![("revision", num("3"))]);
    let r = unetic_core::api::error_response(error, state);
    assert_eq!(
        r,
        obj(vec![
            ("api_version", num("1")),
            ("ok", Json::Bool(false)),
            ("error", obj(vec![("message", text("unknown Unetic method: nope"))])),
            ("state", obj(vec![("revision", num("3"))])),
        ])
    );
    let ok = unetic_core::api::ok_response(Json::Null, Json::Null);
    assert_eq!(
        ok,
        obj(vec![
            ("api_version", num("1")),
            ("ok", Json::Bool(true)),
            ("result", Json::Null),
            ("state", Json::Null),
        ])
    );
}
