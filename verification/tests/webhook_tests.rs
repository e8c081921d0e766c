use feishu_sdk::custom_bot::{BodyField, CustomBot};
use feishu_sdk::signer::sign;

fn keys_of(v: &serde_json::Value) -> Vec<String> {
    let mut ks: Vec<String> = v.as_object().unwrap().keys().cloned().collect();
    ks.sort();
    ks
}

#[test]
fn unsigned_message_has_exactly_msg_type_and_content() {
    let bot = CustomBot::new("https://example.invalid/hook".to_string(), None);
    let payload = bot.prepare(
        BodyField::Content,
        "text",
        b"{\"text\":\"hi\"}".to_vec(),
        1700000000,
    );
    let bytes = CustomBot::serialize_payload(&payload);
    let v: serde_json::Value = serde_json::from_slice(&bytes).unwrap();
    assert_eq!(keys_of(&v), vec!["content".to_string(), "msg_type".to_string()]);
    assert_eq!(v["msg_type"], serde_json::Value::String("text".to_string()));
    assert_eq!(v["content"]["text"], serde_json::Value::String("hi".to_string()));
}

#[test]
fn unsigned_message_body_from_clock_has_no_signature_fields() {
    let bot = CustomBot::new("https://example.invalid/hook".to_string(), None);
    let bytes = bot.message_body("text", b"{\"text\":\"hi\"}".to_vec());
    let v: serde_json::Value = serde_json::from_slice(&bytes).unwrap();
    assert_eq!(keys_of(&v), vec!["content".to_string(), "msg_type".to_string()]);
}

#[test]
fn signed_message_carries_timestamp_and_sign_as_a_pair() {
    let bot = CustomBot::new(
        "https://example.invalid/hook".to_string(),
        Some("abcd".to_string()),
    );
    let payload = bot.prepare(
        BodyField::Content,
        "text",
        b"{\"text\":\"hi\"}".to_vec(),
        1700000000,
    );
    assert_eq!(payload.timestamp.is_some(), payload.sign.is_some());
    let bytes = CustomBot::serialize_payload(&payload);
    let v: serde_json::Value = serde_json::from_slice(&bytes).unwrap();
    assert_eq!(
        keys_of(&v),
        vec![
            "content".to_string(),
            "msg_type".to_string(),
            "sign".to_string(),
            "timestamp".to_string()
        ]
    );
    // The transmitted timestamp is the very value that was signed.
    assert_eq!(v["timestamp"], serde_json::Value::Number(1700000000i64.into()));
    assert_eq!(
        v["sign"],
        serde_json::Value::String(sign(1700000000, "abcd"))
    );
}

#[test]
fn card_payload_uses_card_field() {
    let bot = CustomBot::new("https://example.invalid/hook".to_string(), None);
    let payload = bot.prepare(
        BodyField::Card,
        "interactive",
        b"{\"elements\":[]}".to_vec(),
        0,
    );
    let bytes = CustomBot::serialize_payload(&payload);
    let v: serde_json::Value = serde_json::from_slice(&bytes).unwrap();
    assert_eq!(keys_of(&v), vec!["card".to_string(), "msg_type".to_string()]);
    assert_eq!(v["msg_type"], serde_json::Value::String("interactive".to_string()));
}

#[test]
fn signed_card_body_from_clock_has_both_fields() {
    let bot = CustomBot::new(
        "https://example.invalid/hook".to_string(),
        Some("s3".to_string()),
    );
    let bytes = bot.card_body("interactive", b"{}".to_vec());
    let v: serde_json::Value = serde_json::from_slice(&bytes).unwrap();
    assert_eq!(
        keys_of(&v),
        vec![
            "card".to_string(),
            "msg_type".to_string(),
            "sign".to_string(),
            "timestamp".to_string()
        ]
    );
}

#[test]
fn escaped_message_type_round_trips() {
    let bot = CustomBot::new("u".to_string(), None);
    let payload = bot.prepare(BodyField::Content, "a\"b\\c\n\u{1}", b"null".to_vec(), 0);
    let bytes = CustomBot::serialize_payload(&payload);
    let v: serde_json::Value = serde_json::from_slice(&bytes).unwrap();
    assert_eq!(
        v["msg_type"],
        serde_json::Value::String("a\"b\\c\n\u{1}".to_string())
    );
}
