use feishu_sdk::envelope::TransportError;
use feishu_sdk::transport::{decide, ApiRequest, Config, DispatchDecision, HttpOutcome};

#[test]
fn network_failure_is_surfaced_and_never_retried() {
    let o: HttpOutcome<i64> = HttpOutcome::Failed { message: "timeout".to_string() };
    match decide(0, o) {
        DispatchDecision::Done(Err(TransportError::Network { message })) => {
            assert_eq!(message, "timeout");
        }
        _ => panic!("expected a network error"),
    }
}

#[test]
fn first_rejection_earns_the_one_retry() {
    let o: HttpOutcome<i64> = HttpOutcome::Responded {
        http_status: 401,
        code: 0,
        msg: "unauthorized".to_string(),
        payload: None,
    };
    assert!(matches!(decide(0, o), DispatchDecision::RetryWithFreshCredential));
}

#[test]
fn second_rejection_is_fatal() {
    // Two rejections in a row: one retry after the first, AuthRejected after
    // the second — two HTTP attempts in all.
    let first: HttpOutcome<i64> = HttpOutcome::Responded {
        http_status: 200,
        code: 99991663,
        msg: "token invalid".to_string(),
        payload: None,
    };
    assert!(matches!(decide(0, first), DispatchDecision::RetryWithFreshCredential));
    let second: HttpOutcome<i64> = HttpOutcome::Responded {
        http_status: 200,
        code: 99991663,
        msg: "token invalid".to_string(),
        payload: None,
    };
    match decide(1, second) {
        DispatchDecision::Done(Err(TransportError::AuthRejected { code, message })) => {
            assert_eq!(code, 99991663);
            assert_eq!(message, "token invalid");
        }
        _ => panic!("expected the rejection to be surfaced"),
    }
}

#[test]
fn ordinary_responses_are_classified() {
    let ok: HttpOutcome<i64> = HttpOutcome::Responded {
        http_status: 200,
        code: 0,
        msg: "success".to_string(),
        payload: Some(7),
    };
    assert!(matches!(decide(0, ok), DispatchDecision::Done(Ok(7))));

    let decode: HttpOutcome<i64> = HttpOutcome::Responded {
        http_status: 200,
        code: 0,
        msg: "success".to_string(),
        payload: None,
    };
    assert!(matches!(
        decide(0, decode),
        DispatchDecision::Done(Err(TransportError::Decode { .. }))
    ));

    let business: HttpOutcome<i64> = HttpOutcome::Responded {
        http_status: 200,
        code: 1254001,
        msg: "table not found".to_string(),
        payload: None,
    };
    match decide(0, business) {
        DispatchDecision::Done(Err(TransportError::Business { code, message })) => {
            assert_eq!(code, 1254001);
            assert_eq!(message, "table not found");
        }
        _ => panic!("expected a business error"),
    }
}

#[test]
fn query_params_replace_and_insert() {
    let mut req = ApiRequest::new();
    req.set_query_param("page_size".to_string(), "10".to_string());
    req.set_query_param("page_token".to_string(), "abc".to_string());
    req.set_query_param("page_size".to_string(), "20".to_string());
    assert_eq!(req.query_params.len(), 2);
    let mut found = false;
    for (k, v) in &req.query_params {
        if k == "page_size" {
            assert_eq!(v, "20");
            found = true;
        }
    }
    assert!(found);
}

#[test]
fn config_holds_identity() {
    let c = Config::new("app".to_string(), "secret".to_string(), "https://api".to_string());
    assert_eq!(c.app_id, "app");
    assert_eq!(c.app_secret, "secret");
    assert_eq!(c.base_url, "https://api");
}
