//! Envelope classification: a nonzero code or a non-success status never
//! yields the typed payload; a clean envelope with the right shape does.

use seatalk_tgs::seatalk_api::api::ApiError;
use seatalk_tgs::seatalk_api::envelope::{
    check_envelope, interpret_message_code_response, interpret_token_response,
};

type E = ApiError<String>;

#[test]
fn clean_envelope_yields_token_payload() {
    let body = br#"{"code":0,"app_access_token":"tok-1","expire":1700000000}"#.to_vec();
    let t = interpret_token_response::<String>(200, body).expect("clean envelope");
    assert_eq!(t.app_access_token, "tok-1");
    assert_eq!(t.expire, 1700000000);
}

#[test]
fn nonzero_code_yields_remote_error_not_payload() {
    let body = br#"{"code":7,"message":"bad app id","app_access_token":"tok","expire":5}"#.to_vec();
    match interpret_token_response::<String>(200, body) {
        Err(ApiError::Seatalk { msg }) => assert_eq!(msg, "bad app id"),
        other => panic!("expected the remote message error, got {:?}", other),
    }
}

#[test]
fn missing_code_yields_unrecognized_error() {
    let body = br#"{"app_access_token":"tok","expire":5}"#.to_vec();
    match interpret_token_response::<String>(200, body) {
        Err(ApiError::SeatalkUnrecognized) => {},
        other => panic!("expected the unrecognized-shape error, got {:?}", other),
    }
}

#[test]
fn non_success_status_yields_remote_error_not_payload() {
    let body = br#"{"code":0,"app_access_token":"tok","expire":5,"message":"gone"}"#.to_vec();
    match interpret_token_response::<String>(404, body) {
        Err(ApiError::Seatalk { msg }) => assert_eq!(msg, "gone"),
        other => panic!("expected the remote message error, got {:?}", other),
    }
}

#[test]
fn object_message_yields_object_error() {
    let body = br#"{"code":3,"message":{"detail":"x"}}"#.to_vec();
    match check_envelope::<String>(200, body) {
        Err(ApiError::SeatalkObject) => {},
        other => panic!("expected the opaque object error, got {:?}", other),
    }
}

#[test]
fn non_json_body_yields_service_error_with_raw_bytes() {
    let body = b"<html>oops</html>".to_vec();
    match check_envelope::<String>(502, body.clone()) {
        Err(ApiError::SeatalkService { status, data }) => {
            assert_eq!(status, 502);
            assert_eq!(data, body);
        },
        other => panic!("expected the service error, got {:?}", other),
    }
}

#[test]
fn clean_envelope_with_wrong_shape_yields_data_type_error() {
    let body = br#"{"code":0,"expire":"soon"}"#.to_vec();
    match interpret_token_response::<String>(200, body) {
        Err(ApiError::DataType { typename }) => assert_eq!(typename, "AccessToken"),
        other => panic!("expected the shape-mismatch error, got {:?}", other),
    }
}

#[test]
fn clean_envelope_passes_check() {
    let body = br#"{"code":0}"#.to_vec();
    assert!(check_envelope::<String>(200, body).is_ok());
}

#[test]
fn status_edges_classify_correctly() {
    let ok_body = || br#"{"code":0}"#.to_vec();
    assert!(check_envelope::<String>(200, ok_body()).is_ok());
    assert!(check_envelope::<String>(299, ok_body()).is_ok());
    assert!(check_envelope::<String>(300, ok_body()).is_err());
    assert!(check_envelope::<String>(199, ok_body()).is_err());
}

#[test]
fn message_code_payload_is_decoded() {
    let body = br#"{"code":0,"message_id":"mid-77"}"#.to_vec();
    let c = interpret_message_code_response::<String>(200, body).expect("clean envelope");
    assert_eq!(c.code, 0);
    assert_eq!(c.message_id, "mid-77");
}

#[test]
fn message_code_missing_id_is_shape_mismatch() {
    let body = br#"{"code":0}"#.to_vec();
    match interpret_message_code_response::<String>(200, body) {
        Err(ApiError::DataType { typename }) => assert_eq!(typename, "MessageCode"),
        other => panic!("expected the shape-mismatch error, got {:?}", other),
    }
}

#[test]
fn client_error_constructor_wraps_source() {
    let e: E = ApiError::client("boom".to_string());
    match e {
        ApiError::Client { source } => assert_eq!(source, "boom"),
        other => panic!("expected the client error, got {:?}", other),
    }
}
