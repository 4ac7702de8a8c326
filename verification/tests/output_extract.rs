use replybot::json::{extract_output_text, parse_responses_result, JsonValue};

fn text_obj(ty: &str, text: &str) -> JsonValue {
    JsonValue::Obj(vec![
        ("type".to_string(), JsonValue::Str(ty.to_string())),
        ("text".to_string(), JsonValue::Str(text.to_string())),
    ])
}

#[test]
fn extract_single_output_text() {
    let v = JsonValue::Obj(vec![(
        "output".to_string(),
        JsonValue::Arr(vec![text_obj("output_text", "hello")]),
    )]);
    let mut out = String::new();
    extract_output_text(&v, &mut out);
    assert_eq!(out, "hello");
}

#[test]
fn extract_multiple_output_text_joined_with_newlines() {
    let v = JsonValue::Obj(vec![(
        "output".to_string(),
        JsonValue::Arr(vec![
            text_obj("output_text", "line1"),
            text_obj("other", "ignored"),
            text_obj("output_text", "line2"),
        ]),
    )]);
    let mut out = String::new();
    extract_output_text(&v, &mut out);
    assert_eq!(out, "line1\nline2");
}

#[test]
fn ignore_when_no_text() {
    let v = JsonValue::Obj(vec![(
        "output".to_string(),
        JsonValue::Arr(vec![text_obj("other", "x")]),
    )]);
    let mut out = String::new();
    extract_output_text(&v, &mut out);
    assert!(out.is_empty());
}

#[test]
fn extract_recurses_into_nested_values() {
    let inner = JsonValue::Obj(vec![(
        "content".to_string(),
        JsonValue::Arr(vec![text_obj("output_text", "deep")]),
    )]);
    let v = JsonValue::Arr(vec![JsonValue::Null, inner, JsonValue::Bool(true)]);
    let mut out = String::new();
    extract_output_text(&v, &mut out);
    assert_eq!(out, "deep");
}

#[test]
fn parse_result_reads_id_status_and_text() {
    let v = JsonValue::Obj(vec![
        ("id".to_string(), JsonValue::Str("resp_1".to_string())),
        ("status".to_string(), JsonValue::Str("completed".to_string())),
        (
            "output".to_string(),
            JsonValue::Arr(vec![text_obj("output_text", "answer")]),
        ),
    ]);
    let r = parse_responses_result(&v);
    assert_eq!(r.id, "resp_1");
    assert_eq!(r.status.as_deref(), Some("completed"));
    assert_eq!(r.text, "answer");
}

#[test]
fn parse_result_defaults_when_fields_missing() {
    let v = JsonValue::Obj(vec![("other".to_string(), JsonValue::Num("3".to_string()))]);
    let r = parse_responses_result(&v);
    assert_eq!(r.id, "");
    assert_eq!(r.status.as_deref(), Some(""));
    assert_eq!(r.text, "");
}
