//! Launcher authentication client: the decisions around one exchange.
//!
//! The connector speaks the `P5XA` request/response protocol against the
//! server's sidecar port (login port + 3).  A successful exchange returns the
//! account-bound rider nickname that is then written into the client launcher
//! profile before the game starts.  The socket work itself is done by the
//! caller; this module builds the request frame, checks the response header
//! and turns the response frame into the exchange's outcome.
use vstd::prelude::*;
use vstd::string::*;

use crate::text::starts_with_chars;

use crate::auth_protocol::{
    AuthCodecError, AuthOperation, AuthRequest, AuthRequestView, AuthResponseView, AuthStatus,
    decode_auth_response, encode_auth_request, frame_of, request_body, request_within_limits,
    spec_decode_response, AUTH_MAGIC, AUTH_MAX_FRAME_BYTES,
};

verus! {

#[verifier::external_type_specification]
#[verifier::external_body]
pub struct ExIoError(std::io::Error);

#[derive(Debug, Clone, Copy, PartialEq, Eq, Structural)]
pub enum LauncherAuthMode {
    Register,
    Login,
}

#[derive(Debug)]
pub enum LauncherAuthError {
    Io(std::io::Error),
    Timeout,
    Protocol(String),
    Rejected(AuthStatus, String),
}

/// Result of a successful launcher authentication exchange.
#[derive(Debug, Clone, PartialEq, Eq)]
pub struct LauncherAuthOutcome {
    pub nickname: String,
    pub status_message: String,
}

/// The operation that a launcher mode asks for.
pub open spec fn mode_operation(mode: LauncherAuthMode) -> AuthOperation {
    match mode {
        LauncherAuthMode::Register => AuthOperation::Register,
        LauncherAuthMode::Login => AuthOperation::Login,
    }
}

/// The human-readable text of a status.
pub open spec fn status_text(status: AuthStatus) -> Seq<char> {
    match status {
        AuthStatus::Success => "ok"@,
        AuthStatus::InvalidRequest => "invalid request"@,
        AuthStatus::AccountExists => "account already exists"@,
        AuthStatus::AccountNotFound => "account not found or wrong password"@,
        AuthStatus::WrongPassword => "wrong password"@,
        AuthStatus::NicknameTaken => "nickname already taken"@,
        AuthStatus::RegistrationDisabled => "registration disabled"@,
        AuthStatus::NicknameInvalid => "invalid nickname"@,
        AuthStatus::InternalError => "server error"@,
    }
}

/// The name under which a codec error is reported.
pub open spec fn codec_error_name(error: AuthCodecError) -> Seq<char> {
    match error {
        AuthCodecError::FrameTooLong => "FrameTooLong"@,
        AuthCodecError::Truncated => "Truncated"@,
        AuthCodecError::InvalidVersion => "InvalidVersion"@,
        AuthCodecError::InvalidMagic => "InvalidMagic"@,
        AuthCodecError::InvalidOperation => "InvalidOperation"@,
        AuthCodecError::InvalidUtf8 => "InvalidUtf8"@,
        AuthCodecError::ReservedLengthMismatch => "ReservedLengthMismatch"@,
    }
}

/// The request that a launcher sends for a mode and its three text fields.
pub open spec fn launcher_request(
    mode: LauncherAuthMode,
    username: Seq<char>,
    password: Seq<char>,
    nickname: Seq<char>,
) -> AuthRequestView {
    AuthRequestView { operation: mode_operation(mode), username, password, nickname }
}

/// The message that a refused request is reported with: the server's own
/// message, or the status text when the server sent none.
pub open spec fn rejection_message(response: AuthResponseView) -> Seq<char> {
    if response.message.len() == 0 {
        status_text(response.status)
    } else {
        response.message
    }
}

pub fn launcher_auth_operation(mode: LauncherAuthMode) -> (res: AuthOperation)
    ensures
        res == mode_operation(mode),
{
    match mode {
        LauncherAuthMode::Register => AuthOperation::Register,
        LauncherAuthMode::Login => AuthOperation::Login,
    }
}

pub fn auth_response_status_text(status: AuthStatus) -> (res: &'static str)
    ensures
        res@ == status_text(status),
        res@.len() > 0,
{
    proof {
        reveal_strlit("ok");
        reveal_strlit("invalid request");
        reveal_strlit("account already exists");
        reveal_strlit("account not found or wrong password");
        reveal_strlit("wrong password");
        reveal_strlit("nickname already taken");
        reveal_strlit("registration disabled");
        reveal_strlit("invalid nickname");
        reveal_strlit("server error");
    }
    match status {
        AuthStatus::Success => "ok",
        AuthStatus::InvalidRequest => "invalid request",
        AuthStatus::AccountExists => "account already exists",
        AuthStatus::AccountNotFound => "account not found or wrong password",
        AuthStatus::WrongPassword => "wrong password",
        AuthStatus::NicknameTaken => "nickname already taken",
        AuthStatus::RegistrationDisabled => "registration disabled",
        AuthStatus::NicknameInvalid => "invalid nickname",
        AuthStatus::InternalError => "server error",
    }
}

pub fn auth_codec_error_name(error: AuthCodecError) -> (res: &'static str)
    ensures
        res@ == codec_error_name(error),
{
    match error {
        AuthCodecError::FrameTooLong => "FrameTooLong",
        AuthCodecError::Truncated => "Truncated",
        AuthCodecError::InvalidVersion => "InvalidVersion",
        AuthCodecError::InvalidMagic => "InvalidMagic",
        AuthCodecError::InvalidOperation => "InvalidOperation",
        AuthCodecError::InvalidUtf8 => "InvalidUtf8",
        AuthCodecError::ReservedLengthMismatch => "ReservedLengthMismatch",
    }
}

/// The request frame of one exchange.  A request that the codec refuses is
/// reported as a protocol error naming the codec error.
pub fn launcher_auth_request_frame(
    mode: LauncherAuthMode,
    username: &str,
    password: &str,
    nickname: &str,
) -> (res: Result<Vec<u8>, LauncherAuthError>)
    ensures
        ({
            let request = launcher_request(mode, username@, password@, nickname@);
            match res {
                Ok(frame) => request_within_limits(request) && frame@ == frame_of(
                    request_body(request),
                ),
                Err(LauncherAuthError::Protocol(message)) => !request_within_limits(request)
                    && message@ == "request encode failed: "@ + codec_error_name(
                    AuthCodecError::FrameTooLong,
                ),
                Err(_) => false,
            }
        }),
{
    let request = AuthRequest {
        operation: launcher_auth_operation(mode),
        username: username.to_owned(),
        password: password.to_owned(),
        nickname: nickname.to_owned(),
    };
    match encode_auth_request(&request) {
        Ok(frame) => Ok(frame),
        Err(error) => {
            let message = "request encode failed: ".to_owned().concat(
                auth_codec_error_name(error),
            );
            Err(LauncherAuthError::Protocol(message))
        },
    }
}

/// Checks the fixed header of a response and returns the announced body
/// length.  The header must start with `P5XA` and may announce at most 512
/// body bytes.
pub fn response_body_length(header: &[u8; 8]) -> (res: Result<usize, LauncherAuthError>)
    ensures
        ({
            let magic_ok = header@.take(4) == crate::auth_protocol::magic_bytes();
            let announced = header@[6] + 256 * header@[7];
            match res {
                Ok(length) => magic_ok && announced <= AUTH_MAX_FRAME_BYTES && length
                    == announced,
                Err(LauncherAuthError::Protocol(message)) => if !magic_ok {
                    message@ == "unexpected response magic"@
                } else {
                    announced > AUTH_MAX_FRAME_BYTES && message@ == "response frame too large"@
                },
                Err(_) => false,
            }
        }),
{
    if header[0] != AUTH_MAGIC[0] || header[1] != AUTH_MAGIC[1] || header[2] != AUTH_MAGIC[2]
        || header[3] != AUTH_MAGIC[3] {
        assert(header@.take(4) != crate::auth_protocol::magic_bytes()) by {
            if header@.take(4) == crate::auth_protocol::magic_bytes() {
                assert(header@.take(4)[0] == header@[0]);
                assert(header@.take(4)[1] == header@[1]);
                assert(header@.take(4)[2] == header@[2]);
                assert(header@.take(4)[3] == header@[3]);
            }
        }
        return Err(LauncherAuthError::Protocol("unexpected response magic".to_owned()));
    }
    assert(header@.take(4) =~= crate::auth_protocol::magic_bytes());
    let body_length = header[6] as usize + 256 * (header[7] as usize);
    if body_length > AUTH_MAX_FRAME_BYTES {
        return Err(LauncherAuthError::Protocol("response frame too large".to_owned()));
    }
    Ok(body_length)
}

/// Turns a response frame into the exchange's outcome.  An accepted account
/// yields its bound nickname and the server's message; a refused one yields
/// the status and the server's message, or the status text when the server
/// sent none; a frame that does not decode is a protocol error naming the
/// codec error.
pub fn launcher_auth_outcome(response_frame: &[u8]) -> (res: Result<
    LauncherAuthOutcome,
    LauncherAuthError,
>)
    ensures
        match spec_decode_response(response_frame@) {
            Err(e) => res matches Err(LauncherAuthError::Protocol(message)) && message@
                == "response decode failed: "@ + codec_error_name(e),
            Ok(response) => if response.status == AuthStatus::Success {
                res matches Ok(outcome) && outcome.nickname@ == response.nickname
                    && outcome.status_message@ == response.message
            } else {
                res matches Err(LauncherAuthError::Rejected(status, message)) && status
                    == response.status && message@ == rejection_message(response)
            },
        },
{
    let response = match decode_auth_response(response_frame) {
        Ok(response) => response,
        Err(error) => {
            let message = "response decode failed: ".to_owned().concat(
                auth_codec_error_name(error),
            );
            return Err(LauncherAuthError::Protocol(message));
        },
    };
    if response.status == AuthStatus::Success {
        Ok(LauncherAuthOutcome { nickname: response.nickname, status_message: response.message })
    } else {
        let status = response.status;
        let message = if response.message.as_str().is_empty() {
            auth_response_status_text(status).to_owned()
        } else {
            response.message
        };
        Err(LauncherAuthError::Rejected(status, message))
    }
}

/// The name under which a status is reported in error texts.
pub open spec fn status_name(status: AuthStatus) -> Seq<char> {
    match status {
        AuthStatus::Success => "Ok"@,
        AuthStatus::InvalidRequest => "InvalidRequest"@,
        AuthStatus::AccountExists => "AccountExists"@,
        AuthStatus::AccountNotFound => "AccountNotFound"@,
        AuthStatus::WrongPassword => "WrongPassword"@,
        AuthStatus::NicknameTaken => "NicknameTaken"@,
        AuthStatus::RegistrationDisabled => "RegistrationDisabled"@,
        AuthStatus::NicknameInvalid => "NicknameInvalid"@,
        AuthStatus::InternalError => "InternalError"@,
    }
}

fn auth_status_name(status: AuthStatus) -> (res: &'static str)
    ensures
        res@ == status_name(status),
{
    match status {
        AuthStatus::Success => "Ok",
        AuthStatus::InvalidRequest => "InvalidRequest",
        AuthStatus::AccountExists => "AccountExists",
        AuthStatus::AccountNotFound => "AccountNotFound",
        AuthStatus::WrongPassword => "WrongPassword",
        AuthStatus::NicknameTaken => "NicknameTaken",
        AuthStatus::RegistrationDisabled => "RegistrationDisabled",
        AuthStatus::NicknameInvalid => "NicknameInvalid",
        AuthStatus::InternalError => "InternalError",
    }
}

/// `ToString::to_string` of a `std::io::Error`: its display text.  The text
/// comes from the operating system's description of the error, so nothing
/// is stated of it.
#[verifier::external_body]
fn io_error_text(error: &std::io::Error) -> String {
    error.to_string()
}

impl LauncherAuthError {
    /// The text under which the error is shown to the user.
    pub fn display_text(&self) -> (res: String)
        ensures
            match self {
                LauncherAuthError::Io(_) => starts_with_chars(
                    res@,
                    "launcher authentication I/O failure: "@,
                ),
                LauncherAuthError::Timeout => res@ == "launcher authentication timed out"@,
                LauncherAuthError::Protocol(message) => res@
                    == "launcher authentication protocol error: "@ + message@,
                LauncherAuthError::Rejected(status, message) => res@
                    == "launcher authentication rejected ("@ + status_name(*status) + "): "@
                    + message@,
            },
    {
        match self {
            LauncherAuthError::Io(error) => {
                let text = io_error_text(error);
                let res = "launcher authentication I/O failure: ".to_owned().concat(text.as_str());
                assert(res@.take("launcher authentication I/O failure: "@.len() as int)
                    =~= "launcher authentication I/O failure: "@);
                res
            },
            LauncherAuthError::Timeout => "launcher authentication timed out".to_owned(),
            LauncherAuthError::Protocol(message) => "launcher authentication protocol error: ".to_owned().concat(
                message.as_str(),
            ),
            LauncherAuthError::Rejected(status, message) => "launcher authentication rejected (".to_owned().concat(
                auth_status_name(*status),
            ).concat("): ").concat(message.as_str()),
        }
    }
}

} // verus!
