use phi_media::event::VideoUploadEvent;
use phi_media::id::Id;
use serde_json::Value;

fn roundtrip(json: &str) -> Value {
    serde_json::from_str::<Value>(json).expect("event json must parse")
}

#[test]
fn biz_test_already_existed_event() {
    let test = VideoUploadEvent::existed(&Id("test".to_string())).formated();

    let string = test.to_json();
    let json: Value = roundtrip(&string);

    assert_eq!(
        json,
        roundtrip("{\"id\":\"test\",\"progress\":-1,\"state\":\"already_existed\"}")
    );
}

#[test]
fn biz_test_already_progress() {
    let test = VideoUploadEvent::wip(&Id("test".to_string()), 16).formated();

    let string = test.to_json();
    let json: Value = roundtrip(&string);

    assert_eq!(
        json,
        roundtrip("{\"id\":\"test\",\"progress\":16,\"state\":\"wip\"}")
    );
}

#[test]
fn biz_test_ok() {
    let test = VideoUploadEvent::ok(&Id("test".to_string())).formated();

    let string = test.to_json();
    let json: Value = roundtrip(&string);

    assert_eq!(
        json,
        roundtrip("{\"id\":\"test\",\"progress\":100,\"state\":\"ok\"}")
    );
}

#[test]
fn material_test_already_existed_event() {
    let test = VideoUploadEvent::existed(&Id("test".to_string())).formated();

    let string = test.to_json();
    let json: Value = roundtrip(&string);

    assert_eq!(
        json,
        roundtrip("{\"id\":\"test\",\"progress\":-1,\"state\":\"already_existed\"}")
    );
}

#[test]
fn material_test_already_progress() {
    let test = VideoUploadEvent::wip(&Id("test".to_string()), 16).formated();

    let string = test.to_json();
    let json: Value = roundtrip(&string);

    assert_eq!(
        json,
        roundtrip("{\"id\":\"test\",\"progress\":16,\"state\":\"wip\"}")
    );
}

#[test]
fn material_test_ok() {
    let test = VideoUploadEvent::ok(&Id("test".to_string())).formated();

    let string = test.to_json();
    let json: Value = roundtrip(&string);

    assert_eq!(
        json,
        roundtrip("{\"id\":\"test\",\"progress\":100,\"state\":\"ok\"}")
    );
}

#[test]
fn error_event_wire_form() {
    let test = VideoUploadEvent::error(&Id("test".to_string()), 15).formated();
    assert_eq!(test.id, "test");
    assert_eq!(test.progress, 15);
    assert_eq!(test.state, "error");
    assert_eq!(
        test.to_json(),
        "{\"id\":\"test\",\"progress\":15,\"state\":\"error\"}"
    );
}

#[test]
fn json_exact_bytes() {
    let test = VideoUploadEvent::existed(&Id("abc123".to_string())).formated();
    assert_eq!(
        test.to_json(),
        "{\"id\":\"abc123\",\"progress\":-1,\"state\":\"already_existed\"}"
    );
}

#[test]
fn json_escapes_special_characters() {
    let tricky = "a\"b\\c\nd\te\u{1}f".to_string();
    let event = VideoUploadEvent::wip(&Id(tricky.clone()), 1).formated();
    let json: Value = roundtrip(&event.to_json());
    // A lossless round trip through a JSON parser proves the escaping:
    // an unescaped quote or control character would break the parse or
    // change the recovered text.
    assert_eq!(json.get("id").and_then(Value::as_str), Some(tricky.as_str()));
    assert_eq!(json.get("progress").and_then(Value::as_i64), Some(1));
    assert_eq!(json.get("state").and_then(Value::as_str), Some("wip"));
}
