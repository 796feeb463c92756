use kaikei_voice::json::{read_bool, read_text, ObjectBuilder};
use kaikei_voice::server::{read_answer, request_body, service_url, ACTIVATE_PATH, VALIDATE_PATH};
use serde_json::Value;

fn value(text: &str) -> Value {
    serde_json::from_str(text).unwrap()
}

#[test]
fn services_have_addresses() {
    assert_eq!(
        service_url(ACTIVATE_PATH),
        "https://kaikei-license.yuya1129t.workers.dev/activate"
    );
    assert_eq!(
        service_url(VALIDATE_PATH),
        "https://kaikei-license.yuya1129t.workers.dev/validate"
    );
}

#[test]
fn request_says_key_and_device() {
    assert_eq!(
        request_body("K\"1", "dev").to_string(),
        r#"{"device_id":"dev","device_name":"Windows PC","key":"K\"1"}"#
    );
}

#[test]
fn answer_is_read() {
    let (ok, error) = read_answer(&value(r#"{"ok":true}"#));
    assert!(ok && error.is_none());
    let (ok, error) = read_answer(&value(r#"{"ok":false,"error":"limit"}"#));
    assert!(!ok);
    assert_eq!(error.as_deref(), Some("limit"));
}

#[test]
fn answer_without_a_verdict_is_a_refusal() {
    for text in [r#"{}"#, r#"{"ok":1}"#, r#"{"ok":"true"}"#, r#"{"ok":null}"#, "[true]", "true"] {
        let (ok, error) = read_answer(&value(text));
        assert!(!ok, "{}", text);
        assert!(error.is_none());
    }
    let (_, error) = read_answer(&value(r#"{"error":404}"#));
    assert!(error.is_none());
}

#[test]
fn members_are_read_by_kind() {
    let v = value(r#"{"b":true,"s":"x","n":7,"o":{"b":false}}"#);
    assert_eq!(read_bool(&v, "b"), Some(true));
    assert_eq!(read_bool(&v, "s"), None);
    assert_eq!(read_bool(&v, "missing"), None);
    assert_eq!(read_text(&v, "s").as_deref(), Some("x"));
    assert_eq!(read_text(&v, "b"), None);
    assert_eq!(read_text(&v, "missing"), None);
    assert_eq!(read_bool(&value("null"), "b"), None);
    assert_eq!(read_text(&value("\"s\""), "s"), None);
}

#[test]
fn objects_are_built() {
    let mut b = ObjectBuilder::new();
    assert_eq!(ObjectBuilder::new().build().to_string(), "{}");
    b.set_text("t", "x");
    b.set_whole("w", u64::MAX);
    b.set_bool("b", false);
    b.set_text("t", "y");
    assert_eq!(b.build().to_string(), r#"{"b":false,"t":"y","w":18446744073709551615}"#);
}
