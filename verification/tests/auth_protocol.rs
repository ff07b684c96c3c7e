use p5136::auth_protocol::{
    decode_auth_request, decode_auth_response, encode_auth_request, encode_auth_response,
    AuthCodecError, AuthOperation, AuthRequest, AuthResponse, AuthStatus,
};

fn request(operation: AuthOperation, username: &str, password: &str, nickname: &str) -> AuthRequest {
    AuthRequest {
        operation,
        username: username.to_owned(),
        password: password.to_owned(),
        nickname: nickname.to_owned(),
    }
}

#[test]
fn request_round_trip() {
    let request = AuthRequest {
        operation: AuthOperation::Register,
        username: "alice".to_owned(),
        password: "s3cret".to_owned(),
        nickname: "다오".to_owned(),
    };
    let frame = encode_auth_request(&request).unwrap();
    assert_eq!(&frame[0..4], b"P5XA");
    let decoded = decode_auth_request(&frame).unwrap();
    assert_eq!(decoded, request);
}

#[test]
fn response_round_trip() {
    let response = AuthResponse {
        status: AuthStatus::Success,
        nickname: "다오".to_owned(),
        message: String::new(),
    };
    let frame = encode_auth_response(&response).unwrap();
    assert_eq!(&frame[0..4], b"P5XA");
    let decoded = decode_auth_response(&frame).unwrap();
    assert_eq!(decoded, response);
}

#[test]
fn rejects_bad_magic_and_oversized_body() {
    assert_eq!(
        decode_auth_request(b"XXXX\x01\x00\x04\x00junk").unwrap_err(),
        AuthCodecError::InvalidMagic
    );
    let request = AuthRequest {
        operation: AuthOperation::Register,
        username: "a".repeat(33),
        password: "p".to_owned(),
        nickname: "n".to_owned(),
    };
    assert_eq!(
        encode_auth_request(&request).unwrap_err(),
        AuthCodecError::FrameTooLong
    );
}

#[test]
fn request_frame_has_the_documented_layout() {
    let frame = encode_auth_request(&request(AuthOperation::Login, "ab", "c", "")).unwrap();
    assert_eq!(
        frame,
        vec![
            b'P', b'5', b'X', b'A', 1, 0, 10, 0, // header: magic, version 1, body length 10
            2, // login
            2, 0, b'a', b'b', // account
            1, 0, b'c', // password
            0, 0, // empty nickname
        ]
    );
}

#[test]
fn response_frame_has_the_documented_layout() {
    let response = AuthResponse {
        status: AuthStatus::NicknameTaken,
        nickname: "x".to_owned(),
        message: "no".to_owned(),
    };
    let frame = encode_auth_response(&response).unwrap();
    assert_eq!(
        frame,
        vec![b'P', b'5', b'X', b'A', 1, 0, 8, 0, 5, 1, 0, b'x', 2, 0, b'n', b'o']
    );
}

#[test]
fn encode_enforces_every_field_limit() {
    let ok = |u: &str, p: &str, n: &str| encode_auth_request(&request(AuthOperation::Register, u, p, n));
    assert_eq!(ok("", "p", "n").unwrap_err(), AuthCodecError::FrameTooLong);
    assert_eq!(ok("u", "", "n").unwrap_err(), AuthCodecError::FrameTooLong);
    assert_eq!(ok("u", &"p".repeat(65), "n").unwrap_err(), AuthCodecError::FrameTooLong);
    assert_eq!(ok("u", "p", &"n".repeat(129)).unwrap_err(), AuthCodecError::FrameTooLong);
    // the limits are in UTF-8 bytes: 11 three-byte characters are 33 bytes
    assert_eq!(ok(&"가".repeat(11), "p", "").unwrap_err(), AuthCodecError::FrameTooLong);
    assert!(ok(&"a".repeat(32), &"p".repeat(64), &"n".repeat(128)).is_ok());
    assert!(ok("u", "p", "").is_ok());

    let response = |n: &str, m: &str| AuthResponse {
        status: AuthStatus::Success,
        nickname: n.to_owned(),
        message: m.to_owned(),
    };
    assert_eq!(
        encode_auth_response(&response(&"n".repeat(129), "")).unwrap_err(),
        AuthCodecError::FrameTooLong
    );
    assert_eq!(
        encode_auth_response(&response("", &"m".repeat(257))).unwrap_err(),
        AuthCodecError::FrameTooLong
    );
    assert!(encode_auth_response(&response(&"n".repeat(128), &"m".repeat(256))).is_ok());
}

#[test]
fn decode_reports_each_malformed_frame() {
    let good = encode_auth_request(&request(AuthOperation::Login, "ab", "c", "")).unwrap();

    assert_eq!(decode_auth_request(&good[..7]).unwrap_err(), AuthCodecError::Truncated);
    assert_eq!(decode_auth_request(&good[..good.len() - 1]).unwrap_err(), AuthCodecError::Truncated);

    let mut version = good.clone();
    version[4] = 2;
    assert_eq!(decode_auth_request(&version).unwrap_err(), AuthCodecError::InvalidVersion);

    let mut operation = good.clone();
    operation[8] = 9;
    assert_eq!(decode_auth_request(&operation).unwrap_err(), AuthCodecError::InvalidOperation);

    let mut utf8 = good.clone();
    utf8[11] = 0xff;
    assert_eq!(decode_auth_request(&utf8).unwrap_err(), AuthCodecError::InvalidUtf8);

    // an extra body byte after the nickname
    let mut longer = good.clone();
    longer[6] = 11;
    longer.push(0);
    assert_eq!(
        decode_auth_request(&longer).unwrap_err(),
        AuthCodecError::ReservedLengthMismatch
    );

    // a field length that runs past the body
    let mut field = good.clone();
    field[9] = 50;
    assert_eq!(decode_auth_request(&field).unwrap_err(), AuthCodecError::Truncated);

    // an empty body
    assert_eq!(
        decode_auth_request(b"P5XA\x01\x00\x00\x00").unwrap_err(),
        AuthCodecError::Truncated
    );
}

#[test]
fn decode_ignores_bytes_after_the_announced_body() {
    let original = request(AuthOperation::Register, "alice", "pw", "rider");
    let mut frame = encode_auth_request(&original).unwrap();
    frame.extend_from_slice(b"trailing");
    assert_eq!(decode_auth_request(&frame).unwrap(), original);
}

#[test]
fn decode_accepts_what_encode_refuses() {
    // decoding does not enforce the sending limits: an empty account name decodes
    let frame = b"P5XA\x01\x00\x08\x00\x02\x00\x00\x01\x00p\x00\x00";
    let decoded = decode_auth_request(frame).unwrap();
    assert_eq!(decoded.username, "");
    assert_eq!(decoded.password, "p");
}

#[test]
fn unknown_status_bytes_read_as_internal_error() {
    assert_eq!(AuthStatus::from_u8(0), AuthStatus::Success);
    assert_eq!(AuthStatus::from_u8(7), AuthStatus::NicknameInvalid);
    assert_eq!(AuthStatus::from_u8(8), AuthStatus::InternalError);
    assert_eq!(AuthStatus::from_u8(200), AuthStatus::InternalError);
    let frame = b"P5XA\x01\x00\x05\x00\x63\x00\x00\x00\x00";
    assert_eq!(decode_auth_response(frame).unwrap().status, AuthStatus::InternalError);
}

#[test]
fn operation_bytes() {
    assert_eq!(AuthOperation::from_u8(1), Some(AuthOperation::Register));
    assert_eq!(AuthOperation::from_u8(2), Some(AuthOperation::Login));
    assert_eq!(AuthOperation::from_u8(0), None);
    assert_eq!(AuthOperation::from_u8(3), None);
}

#[test]
fn every_status_round_trips_with_text_fields() {
    for status in [
        AuthStatus::Success,
        AuthStatus::InvalidRequest,
        AuthStatus::AccountExists,
        AuthStatus::AccountNotFound,
        AuthStatus::WrongPassword,
        AuthStatus::NicknameTaken,
        AuthStatus::RegistrationDisabled,
        AuthStatus::NicknameInvalid,
        AuthStatus::InternalError,
    ] {
        let response = AuthResponse {
            status,
            nickname: "카트".to_owned(),
            message: "메시지 ✓".to_owned(),
        };
        let frame = encode_auth_response(&response).unwrap();
        assert_eq!(decode_auth_response(&frame).unwrap(), response);
    }
}
