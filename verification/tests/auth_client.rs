use p5136::auth_client::{
    auth_response_status_text, launcher_auth_operation, launcher_auth_outcome,
    launcher_auth_request_frame, response_body_length, LauncherAuthError, LauncherAuthMode,
};
use p5136::auth_protocol::{
    decode_auth_request, encode_auth_response, AuthOperation, AuthResponse, AuthStatus,
};

#[test]
fn auth_response_status_map_has_no_uncovered_status() {
    let statuses = [
        AuthStatus::Success,
        AuthStatus::InvalidRequest,
        AuthStatus::AccountExists,
        AuthStatus::AccountNotFound,
        AuthStatus::WrongPassword,
        AuthStatus::NicknameTaken,
        AuthStatus::RegistrationDisabled,
        AuthStatus::NicknameInvalid,
        AuthStatus::InternalError,
    ];
    for status in statuses {
        assert!(!auth_response_status_text(status).is_empty());
    }
}

#[test]
fn modes_map_to_operations() {
    assert_eq!(launcher_auth_operation(LauncherAuthMode::Register), AuthOperation::Register);
    assert_eq!(launcher_auth_operation(LauncherAuthMode::Login), AuthOperation::Login);
}

#[test]
fn request_frame_carries_the_mode_and_fields() {
    let frame = launcher_auth_request_frame(LauncherAuthMode::Register, "alice", "pw", "다오").unwrap();
    let request = decode_auth_request(&frame).unwrap();
    assert_eq!(request.operation, AuthOperation::Register);
    assert_eq!(request.username, "alice");
    assert_eq!(request.password, "pw");
    assert_eq!(request.nickname, "다오");
}

#[test]
fn refused_request_is_a_protocol_error_naming_the_codec_error() {
    match launcher_auth_request_frame(LauncherAuthMode::Login, "", "pw", "") {
        Err(LauncherAuthError::Protocol(message)) => {
            assert_eq!(message, "request encode failed: FrameTooLong")
        }
        other => panic!("unexpected {other:?}"),
    }
}

#[test]
fn response_header_is_checked() {
    assert_eq!(response_body_length(b"P5XA\x01\x00\x10\x00").unwrap(), 16);
    assert_eq!(response_body_length(b"P5XA\x09\x09\x00\x02").unwrap(), 512);
    match response_body_length(b"P5XB\x01\x00\x10\x00") {
        Err(LauncherAuthError::Protocol(message)) => assert_eq!(message, "unexpected response magic"),
        other => panic!("unexpected {other:?}"),
    }
    match response_body_length(b"P5XA\x01\x00\x01\x02") {
        Err(LauncherAuthError::Protocol(message)) => assert_eq!(message, "response frame too large"),
        other => panic!("unexpected {other:?}"),
    }
}

fn response_frame(status: AuthStatus, nickname: &str, message: &str) -> Vec<u8> {
    encode_auth_response(&AuthResponse {
        status,
        nickname: nickname.to_owned(),
        message: message.to_owned(),
    })
    .unwrap()
}

#[test]
fn accepted_account_returns_the_bound_nickname() {
    let outcome = launcher_auth_outcome(&response_frame(AuthStatus::Success, "다오", "welcome")).unwrap();
    assert_eq!(outcome.nickname, "다오");
    assert_eq!(outcome.status_message, "welcome");
}

#[test]
fn refused_account_reports_the_server_message_or_the_status_text() {
    match launcher_auth_outcome(&response_frame(AuthStatus::WrongPassword, "", "")) {
        Err(LauncherAuthError::Rejected(status, message)) => {
            assert_eq!(status, AuthStatus::WrongPassword);
            assert_eq!(message, "wrong password");
        }
        other => panic!("unexpected {other:?}"),
    }
    match launcher_auth_outcome(&response_frame(AuthStatus::AccountExists, "", "taken, sorry")) {
        Err(LauncherAuthError::Rejected(status, message)) => {
            assert_eq!(status, AuthStatus::AccountExists);
            assert_eq!(message, "taken, sorry");
        }
        other => panic!("unexpected {other:?}"),
    }
}

#[test]
fn undecodable_response_is_a_protocol_error_naming_the_codec_error() {
    match launcher_auth_outcome(b"P5XA\x02\x00\x00\x00") {
        Err(LauncherAuthError::Protocol(message)) => {
            assert_eq!(message, "response decode failed: InvalidVersion")
        }
        other => panic!("unexpected {other:?}"),
    }
    match launcher_auth_outcome(b"P5XA\x01\x00\x06\x00\x00\x01\x00\xff\x00\x00") {
        Err(LauncherAuthError::Protocol(message)) => {
            assert_eq!(message, "response decode failed: InvalidUtf8")
        }
        other => panic!("unexpected {other:?}"),
    }
}

#[test]
fn status_texts() {
    assert_eq!(auth_response_status_text(AuthStatus::Success), "ok");
    assert_eq!(
        auth_response_status_text(AuthStatus::AccountNotFound),
        "account not found or wrong password"
    );
    assert_eq!(auth_response_status_text(AuthStatus::InternalError), "server error");
}
