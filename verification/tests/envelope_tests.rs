use feishu_sdk::credential::{credential_or_error, Credential};
use feishu_sdk::envelope::{classify_envelope, is_auth_rejected, TransportError};

#[test]
fn success_with_payload_yields_the_payload() {
    let r = classify_envelope(0, "success".to_string(), Some(41i64));
    assert!(matches!(r, Ok(41)));
}

#[test]
fn success_without_payload_is_a_decode_error() {
    let r = classify_envelope::<i64>(0, "success".to_string(), None);
    assert!(matches!(r, Err(TransportError::Decode { .. })));
}

#[test]
fn nonzero_code_is_a_business_error_carrying_code_and_message() {
    let r = classify_envelope::<i64>(230002, "param invalid".to_string(), None);
    match r {
        Err(TransportError::Business { code, message }) => {
            assert_eq!(code, 230002);
            assert_eq!(message, "param invalid");
        }
        _ => panic!("expected a business error"),
    }
    // A payload beside a non-zero code is ignored, not returned.
    let r2 = classify_envelope(99999, "rate limited".to_string(), Some(1i64));
    assert!(matches!(r2, Err(TransportError::Business { .. })));
}

#[test]
fn auth_rejection_detection() {
    assert!(is_auth_rejected(401, 0));
    assert!(is_auth_rejected(200, 99991661));
    assert!(is_auth_rejected(200, 99991663));
    assert!(is_auth_rejected(200, 99991664));
    assert!(is_auth_rejected(200, 99991665));
    assert!(!is_auth_rejected(200, 0));
    assert!(!is_auth_rejected(500, 230002));
}

#[test]
fn error_labels() {
    let e = TransportError::Network { message: "boom".to_string() };
    assert_eq!(e.label(), "network error");
    let e = TransportError::Decode { message: String::new() };
    assert_eq!(e.label(), "decode error");
}

#[test]
fn failed_issuing_is_unobtainable() {
    let r = credential_or_error(None, "token endpoint down".to_string());
    match r {
        Err(TransportError::AuthUnobtainable { message }) => {
            assert_eq!(message, "token endpoint down");
        }
        _ => panic!("expected an unobtainable error"),
    }
    let c = Credential { token: "t".to_string(), expires_at: 10 };
    let r = credential_or_error(Some(c), String::new());
    assert!(matches!(r, Ok(Credential { .. })));
}
