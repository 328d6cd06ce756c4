use serde_json::Value;
use webapi_dispatch::response::{
    ok_member, read_body, wants_body, webapi_post, Exchange, WebApiError, STATUS_OK,
    STATUS_TOO_MANY_REQUESTS,
};
use webapi_dispatch::text::decimal_string;

fn answered(status: u16, body: &str) -> Exchange {
    Exchange::Answered { status, body: body.to_string() }
}

#[test]
fn status_constants() {
    assert_eq!(STATUS_OK, 200);
    assert_eq!(STATUS_TOO_MANY_REQUESTS, 429);
}

#[test]
fn decimal_of_small_and_large() {
    assert_eq!(decimal_string(0), "0");
    assert_eq!(decimal_string(7), "7");
    assert_eq!(decimal_string(10), "10");
    assert_eq!(decimal_string(429), "429");
    assert_eq!(decimal_string(65535), "65535");
    assert_eq!(decimal_string(u64::MAX), "18446744073709551615");
}

#[test]
fn body_is_wanted_only_with_200() {
    assert!(wants_body(200));
    assert!(!wants_body(201));
    assert!(!wants_body(429));
    assert!(!wants_body(0));
}

#[test]
fn ok_answer_gives_the_parsed_document() {
    let r = webapi_post(answered(200, "{\"Started\": 17}"));
    let expected: Value = serde_json::from_str("{\"Started\": 17}").unwrap();
    match r {
        Ok(v) => assert_eq!(v, expected),
        Err(e) => panic!("{:?}", e),
    }
}

#[test]
fn non_200_status_is_status_error() {
    for code in [0u16, 199, 201, 404, 429, 500, 503, 65535] {
        match webapi_post(answered(code, "{\"Started\": 17}")) {
            Err(WebApiError::StatusError(c)) => assert_eq!(c, code),
            other => panic!("{:?}", other),
        }
    }
}

#[test]
fn non_200_status_wins_over_err_marker() {
    match webapi_post(answered(500, "{\"Err\": \"boom\"}")) {
        Err(WebApiError::StatusError(500)) => {}
        other => panic!("{:?}", other),
    }
}

#[test]
fn broken_exchange_is_error_with_its_text() {
    match webapi_post(Exchange::Broken("connection refused".to_string())) {
        Err(WebApiError::Error(m)) => assert_eq!(m, "connection refused"),
        other => panic!("{:?}", other),
    }
}

#[test]
fn unparsable_body_is_error() {
    let parse_err = serde_json::from_str::<Value>("not json").unwrap_err();
    match webapi_post(answered(200, "not json")) {
        Err(WebApiError::Error(m)) => assert_eq!(m, format!("{:?}", parse_err)),
        other => panic!("{:?}", other),
    }
    match read_body("") {
        Err(WebApiError::Error(_)) => {}
        other => panic!("{:?}", other),
    }
}

#[test]
fn err_marker_at_200_is_error_not_status_error() {
    let body = "{\"Err\": \"worker crashed\"}";
    let doc: Value = serde_json::from_str(body).unwrap();
    match webapi_post(answered(200, body)) {
        Err(WebApiError::Error(m)) => assert_eq!(m, format!("{:?}", doc)),
        other => panic!("{:?}", other),
    }
}

#[test]
fn err_marker_with_null_value_is_still_a_failure() {
    match read_body("{\"Err\": null, \"Ok\": 1}") {
        Err(WebApiError::Error(_)) => {}
        other => panic!("{:?}", other),
    }
}

#[test]
fn nested_err_is_no_marker() {
    assert!(read_body("{\"Done\": {\"Err\": 1}}").is_ok());
    assert!(read_body("[{\"Err\": 1}]").is_ok());
    assert!(read_body("\"Err\"").is_ok());
}

#[test]
fn error_messages() {
    assert_eq!(WebApiError::StatusError(500).message(), "Err with code: 500");
    assert_eq!(WebApiError::StatusError(0).message(), "Err with code: 0");
    assert_eq!(WebApiError::Error("plain".to_string()).message(), "plain");
}

#[test]
fn ok_member_of_a_result() {
    let result: Value = serde_json::from_str("{\"Ok\": {\"proof\": [1, 2]}}").unwrap();
    let inner: Value = serde_json::from_str("{\"proof\": [1, 2]}").unwrap();
    assert_eq!(ok_member(&result), Some(inner));
    let other: Value = serde_json::from_str("{\"ok\": 1}").unwrap();
    assert_eq!(ok_member(&other), None);
    let list: Value = serde_json::from_str("[1]").unwrap();
    assert_eq!(ok_member(&list), None);
}
