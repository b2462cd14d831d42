use gurufocus_api::connector::server_error;
use gurufocus_api::{decode_response, GuruFocusError};

#[test]
fn success_reply_is_parsed() {
    let value = decode_response(200, "{\"a\": [1, 2], \"b\": \"x\"}").unwrap();
    assert_eq!(value["a"][1], 2);
    assert_eq!(value["b"], "x");
    let value = decode_response(204, "[]").unwrap();
    assert!(value.as_array().unwrap().is_empty());
}

#[test]
fn malformed_success_reply_is_a_decode_error() {
    let r = decode_response(200, "{\"a\": ");
    assert!(matches!(r, Err(GuruFocusError::DecodeError(_))));
    let r = decode_response(200, "");
    assert!(matches!(r, Err(GuruFocusError::DecodeError(_))));
    let r = decode_response(200, "[1] trailing");
    assert!(matches!(r, Err(GuruFocusError::DecodeError(_))));
}

#[test]
fn forbidden_reply_carries_its_message() {
    let r = decode_response(403, "{\"error\": \"Access forbidden\"}");
    match r {
        Err(GuruFocusError::ServerError { status, message }) => {
            assert_eq!(status, 403);
            assert_eq!(message.as_deref(), Some("Access forbidden"));
        }
        other => panic!("unexpected {:?}", other),
    }
}

#[test]
fn error_reply_without_message_keeps_status() {
    match decode_response(500, "Internal Server Error") {
        Err(GuruFocusError::ServerError { status, message }) => {
            assert_eq!(status, 500);
            assert!(message.is_none());
        }
        other => panic!("unexpected {:?}", other),
    }
    match decode_response(404, "{\"detail\": \"missing\"}") {
        Err(GuruFocusError::ServerError { status, message }) => {
            assert_eq!(status, 404);
            assert!(message.is_none());
        }
        other => panic!("unexpected {:?}", other),
    }
    match decode_response(199, "{\"error\": \"early\"}") {
        Err(GuruFocusError::ServerError { status, message }) => {
            assert_eq!(status, 199);
            assert_eq!(message.as_deref(), Some("early"));
        }
        other => panic!("unexpected {:?}", other),
    }
}

#[test]
fn server_error_finds_the_error_member() {
    let members = vec![
        ("code".to_string(), "403".to_string()),
        ("error".to_string(), "Token expired".to_string()),
    ];
    match server_error(401, Some(members)) {
        GuruFocusError::ServerError { status, message } => {
            assert_eq!(status, 401);
            assert_eq!(message.as_deref(), Some("Token expired"));
        }
        other => panic!("unexpected {:?}", other),
    }
    match server_error(502, None) {
        GuruFocusError::ServerError { status, message } => {
            assert_eq!(status, 502);
            assert!(message.is_none());
        }
        other => panic!("unexpected {:?}", other),
    }
}
