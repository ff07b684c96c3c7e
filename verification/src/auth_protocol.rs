//! Launcher authentication protocol (independent of the P5136 game wire).
//!
//! The launcher opens a short-lived TCP connection to the sidecar port and
//! exchanges a single request/response pair before launching the game.
//! Registering an account binds an account name, a password, and a rider
//! nickname; logging in validates the credentials and returns the bound
//! nickname.
//!
//! Every frame is `P5XA`, the little-endian protocol version, the
//! little-endian body length, and the body.  Text fields inside a body are
//! UTF-8 bytes preceded by their little-endian `u16` length.
use vstd::prelude::*;
use vstd::utf8::*;

verus! {

broadcast use vstd::utf8::group_utf8_lib;

pub const AUTH_PROTOCOL_VERSION: u16 = 1;

pub const AUTH_MAGIC: [u8; 4] = [0x50u8, 0x35u8, 0x58u8, 0x41u8];

pub const AUTH_HEADER_LENGTH: usize = 8;

pub const AUTH_MAX_USERNAME_BYTES: usize = 32;

pub const AUTH_MAX_PASSWORD_BYTES: usize = 64;

pub const AUTH_MAX_NICKNAME_BYTES: usize = 128;

pub const AUTH_MAX_MESSAGE_BYTES: usize = 256;

pub const AUTH_MAX_FRAME_BYTES: usize = 512;

/// What a launcher asks of the sidecar.
#[derive(Debug, Clone, Copy, PartialEq, Eq, Structural)]
pub enum AuthOperation {
    Register,
    Login,
}

/// The sidecar's verdict on a request.
#[derive(Debug, Clone, Copy, PartialEq, Eq, Structural)]
pub enum AuthStatus {
    Success,
    InvalidRequest,
    AccountExists,
    AccountNotFound,
    WrongPassword,
    NicknameTaken,
    RegistrationDisabled,
    NicknameInvalid,
    InternalError,
}

/// A launcher request.
#[derive(Debug, Clone, PartialEq, Eq)]
pub struct AuthRequest {
    pub operation: AuthOperation,
    pub username: String,
    pub password: String,
    /// Required for register; ignored for login.
    pub nickname: String,
}

/// The sidecar's answer.
#[derive(Debug, Clone, PartialEq, Eq)]
pub struct AuthResponse {
    pub status: AuthStatus,
    /// Bound nickname echo (login) or provisioned nickname (register).
    pub nickname: String,
    /// Human-readable message (usually empty on success).
    pub message: String,
}

#[derive(Debug, Clone, Copy, PartialEq, Eq, Structural)]
pub enum AuthCodecError {
    FrameTooLong,
    Truncated,
    InvalidVersion,
    InvalidMagic,
    InvalidOperation,
    InvalidUtf8,
    ReservedLengthMismatch,
}

/// The mathematical content of an [`AuthRequest`]: its text fields as characters.
pub struct AuthRequestView {
    pub operation: AuthOperation,
    pub username: Seq<char>,
    pub password: Seq<char>,
    pub nickname: Seq<char>,
}

/// The mathematical content of an [`AuthResponse`].
pub struct AuthResponseView {
    pub status: AuthStatus,
    pub nickname: Seq<char>,
    pub message: Seq<char>,
}

impl View for AuthRequest {
    type V = AuthRequestView;

    open spec fn view(&self) -> AuthRequestView {
        AuthRequestView {
            operation: self.operation,
            username: self.username@,
            password: self.password@,
            nickname: self.nickname@,
        }
    }
}

impl View for AuthResponse {
    type V = AuthResponseView;

    open spec fn view(&self) -> AuthResponseView {
        AuthResponseView { status: self.status, nickname: self.nickname@, message: self.message@ }
    }
}

// ---------------------------------------------------------------------------
// The wire format
// ---------------------------------------------------------------------------

/// The wire byte of an operation.
pub open spec fn operation_byte(operation: AuthOperation) -> u8 {
    match operation {
        AuthOperation::Register => 1,
        AuthOperation::Login => 2,
    }
}

/// The operation that a wire byte names, if any.
pub open spec fn operation_from_byte(value: u8) -> Option<AuthOperation> {
    if value == 1 {
        Some(AuthOperation::Register)
    } else if value == 2 {
        Some(AuthOperation::Login)
    } else {
        None
    }
}

/// The wire byte of a status.
pub open spec fn status_byte(status: AuthStatus) -> u8 {
    match status {
        AuthStatus::Success => 0,
        AuthStatus::InvalidRequest => 1,
        AuthStatus::AccountExists => 2,
        AuthStatus::AccountNotFound => 3,
        AuthStatus::WrongPassword => 4,
        AuthStatus::NicknameTaken => 5,
        AuthStatus::RegistrationDisabled => 6,
        AuthStatus::NicknameInvalid => 7,
        AuthStatus::InternalError => 8,
    }
}

/// The status that a wire byte names; unknown bytes read as an internal error.
pub open spec fn status_from_byte(value: u8) -> AuthStatus {
    if value == 0 {
        AuthStatus::Success
    } else if value == 1 {
        AuthStatus::InvalidRequest
    } else if value == 2 {
        AuthStatus::AccountExists
    } else if value == 3 {
        AuthStatus::AccountNotFound
    } else if value == 4 {
        AuthStatus::WrongPassword
    } else if value == 5 {
        AuthStatus::NicknameTaken
    } else if value == 6 {
        AuthStatus::RegistrationDisabled
    } else if value == 7 {
        AuthStatus::NicknameInvalid
    } else {
        AuthStatus::InternalError
    }
}

/// The two little-endian bytes of a 16-bit value.
pub open spec fn le_u16_bytes(value: int) -> Seq<u8> {
    seq![(value % 256) as u8, (value / 256) as u8]
}

/// The value of two little-endian bytes.
pub open spec fn le_u16_value(low: u8, high: u8) -> int {
    low + 256 * high
}

/// `P5XA`.
pub open spec fn magic_bytes() -> Seq<u8> {
    seq![0x50u8, 0x35u8, 0x58u8, 0x41u8]
}

/// A field as it stands in a body: its length, then its bytes.
pub open spec fn length_prefixed(bytes: Seq<u8>) -> Seq<u8> {
    le_u16_bytes(bytes.len() as int) + bytes
}

/// A complete frame around a body.
pub open spec fn frame_of(body: Seq<u8>) -> Seq<u8> {
    magic_bytes() + le_u16_bytes(AUTH_PROTOCOL_VERSION as int) + le_u16_bytes(body.len() as int)
        + body
}

/// The body of a request frame.
pub open spec fn request_body(request: AuthRequestView) -> Seq<u8> {
    seq![operation_byte(request.operation)] + length_prefixed(encode_utf8(request.username))
        + length_prefixed(encode_utf8(request.password)) + length_prefixed(
        encode_utf8(request.nickname),
    )
}

/// The body of a response frame.
pub open spec fn response_body(response: AuthResponseView) -> Seq<u8> {
    seq![status_byte(response.status)] + length_prefixed(encode_utf8(response.nickname))
        + length_prefixed(encode_utf8(response.message))
}

/// A request can be sent: a non-empty account name of at most 32 bytes, a
/// non-empty password of at most 64 bytes and a nickname of at most 128 bytes.
pub open spec fn request_within_limits(request: AuthRequestView) -> bool {
    &&& 0 < encode_utf8(request.username).len() <= AUTH_MAX_USERNAME_BYTES
    &&& 0 < encode_utf8(request.password).len() <= AUTH_MAX_PASSWORD_BYTES
    &&& encode_utf8(request.nickname).len() <= AUTH_MAX_NICKNAME_BYTES
}

/// A response can be sent: a nickname of at most 128 bytes and a message of
/// at most 256 bytes.
pub open spec fn response_within_limits(response: AuthResponseView) -> bool {
    &&& encode_utf8(response.nickname).len() <= AUTH_MAX_NICKNAME_BYTES
    &&& encode_utf8(response.message).len() <= AUTH_MAX_MESSAGE_BYTES
}

/// The body that a frame's header announces, or why the header is refused.
pub open spec fn spec_frame_body(frame: Seq<u8>) -> Result<Seq<u8>, AuthCodecError> {
    if frame.len() < AUTH_HEADER_LENGTH {
        Err(AuthCodecError::Truncated)
    } else if frame.take(4) != magic_bytes() {
        Err(AuthCodecError::InvalidMagic)
    } else if le_u16_value(frame[4], frame[5]) != AUTH_PROTOCOL_VERSION {
        Err(AuthCodecError::InvalidVersion)
    } else if AUTH_HEADER_LENGTH + le_u16_value(frame[6], frame[7]) > frame.len() {
        Err(AuthCodecError::Truncated)
    } else {
        Ok(frame.subrange(8, 8 + le_u16_value(frame[6], frame[7])))
    }
}

/// The length-prefixed field that starts at `cursor`, and the position after it.
pub open spec fn spec_read_field(input: Seq<u8>, cursor: int) -> Result<
    (Seq<u8>, int),
    AuthCodecError,
> {
    if cursor > input.len() || input.len() - cursor < 2 {
        Err(AuthCodecError::Truncated)
    } else if cursor + 2 + le_u16_value(input[cursor], input[cursor + 1]) > usize::MAX {
        Err(AuthCodecError::FrameTooLong)
    } else if cursor + 2 + le_u16_value(input[cursor], input[cursor + 1]) > input.len() {
        Err(AuthCodecError::Truncated)
    } else {
        let start = cursor + 2;
        let end = start + le_u16_value(input[cursor], input[cursor + 1]);
        Ok((input.subrange(start, end), end))
    }
}

/// What a request body decodes to.
pub open spec fn spec_decode_request_body(body: Seq<u8>) -> Result<AuthRequestView, AuthCodecError> {
    if body.len() == 0 {
        Err(AuthCodecError::Truncated)
    } else if operation_from_byte(body[0]) is None {
        Err(AuthCodecError::InvalidOperation)
    } else {
        match spec_read_field(body, 1) {
            Err(e) => Err(e),
            Ok((username, c1)) => match spec_read_field(body, c1) {
                Err(e) => Err(e),
                Ok((password, c2)) => match spec_read_field(body, c2) {
                    Err(e) => Err(e),
                    Ok((nickname, c3)) => {
                        if c3 != body.len() {
                            Err(AuthCodecError::ReservedLengthMismatch)
                        } else if !valid_utf8(username) || !valid_utf8(password) || !valid_utf8(
                            nickname,
                        ) {
                            Err(AuthCodecError::InvalidUtf8)
                        } else {
                            Ok(
                                AuthRequestView {
                                    operation: operation_from_byte(body[0])->0,
                                    username: decode_utf8(username),
                                    password: decode_utf8(password),
                                    nickname: decode_utf8(nickname),
                                },
                            )
                        }
                    },
                },
            },
        }
    }
}

/// What a request frame decodes to.
pub open spec fn spec_decode_request(frame: Seq<u8>) -> Result<AuthRequestView, AuthCodecError> {
    match spec_frame_body(frame) {
        Err(e) => Err(e),
        Ok(body) => spec_decode_request_body(body),
    }
}

/// What a response body decodes to.
pub open spec fn spec_decode_response_body(body: Seq<u8>) -> Result<
    AuthResponseView,
    AuthCodecError,
> {
    if body.len() == 0 {
        Err(AuthCodecError::Truncated)
    } else {
        match spec_read_field(body, 1) {
            Err(e) => Err(e),
            Ok((nickname, c1)) => match spec_read_field(body, c1) {
                Err(e) => Err(e),
                Ok((message, c2)) => {
                    if c2 != body.len() {
                        Err(AuthCodecError::ReservedLengthMismatch)
                    } else if !valid_utf8(nickname) || !valid_utf8(message) {
                        Err(AuthCodecError::InvalidUtf8)
                    } else {
                        Ok(
                            AuthResponseView {
                                status: status_from_byte(body[0]),
                                nickname: decode_utf8(nickname),
                                message: decode_utf8(message),
                            },
                        )
                    }
                },
            },
        }
    }
}

/// What a response frame decodes to.
pub open spec fn spec_decode_response(frame: Seq<u8>) -> Result<AuthResponseView, AuthCodecError> {
    match spec_frame_body(frame) {
        Err(e) => Err(e),
        Ok(body) => spec_decode_response_body(body),
    }
}

// ---------------------------------------------------------------------------
// Executable codec
// ---------------------------------------------------------------------------

impl AuthOperation {
    pub fn from_u8(value: u8) -> (res: Option<AuthOperation>)
        ensures
            res == operation_from_byte(value),
    {
        match value {
            1 => Some(AuthOperation::Register),
            2 => Some(AuthOperation::Login),
            _ => None,
        }
    }

    fn to_u8(self) -> (res: u8)
        ensures
            res == operation_byte(self),
    {
        match self {
            AuthOperation::Register => 1,
            AuthOperation::Login => 2,
        }
    }
}

impl AuthStatus {
    pub fn from_u8(value: u8) -> (res: AuthStatus)
        ensures
            res == status_from_byte(value),
    {
        match value {
            0 => AuthStatus::Success,
            1 => AuthStatus::InvalidRequest,
            2 => AuthStatus::AccountExists,
            3 => AuthStatus::AccountNotFound,
            4 => AuthStatus::WrongPassword,
            5 => AuthStatus::NicknameTaken,
            6 => AuthStatus::RegistrationDisabled,
            7 => AuthStatus::NicknameInvalid,
            _ => AuthStatus::InternalError,
        }
    }

    fn to_u8(self) -> (res: u8)
        ensures
            res == status_byte(self),
    {
        match self {
            AuthStatus::Success => 0,
            AuthStatus::InvalidRequest => 1,
            AuthStatus::AccountExists => 2,
            AuthStatus::AccountNotFound => 3,
            AuthStatus::WrongPassword => 4,
            AuthStatus::NicknameTaken => 5,
            AuthStatus::RegistrationDisabled => 6,
            AuthStatus::NicknameInvalid => 7,
            AuthStatus::InternalError => 8,
        }
    }
}

/// `std::str::from_utf8`, with its error dropped: the bytes are accepted
/// exactly when they are valid UTF-8, and the accepted string's UTF-8
/// encoding is the given bytes.
#[verifier::external_body]
fn str_from_utf8(bytes: &[u8]) -> (res: Option<&str>)
    ensures
        res is Some <==> valid_utf8(bytes@),
        res matches Some(text) ==> encode_utf8(text@) == bytes@,
{
    std::str::from_utf8(bytes).ok()
}

/// Decodes bytes as an owned UTF-8 string.
fn owned_utf8(bytes: &[u8]) -> (res: Option<String>)
    ensures
        res is Some <==> valid_utf8(bytes@),
        res matches Some(text) ==> text@ == decode_utf8(bytes@),
{
    match str_from_utf8(bytes) {
        Some(text) => {
            proof {
                encode_utf8_decode_utf8(text@);
            }
            Some(text.to_owned())
        },
        None => None,
    }
}

/// Appends bytes to a buffer.
fn append_bytes(output: &mut Vec<u8>, bytes: &[u8])
    ensures
        final(output)@ == old(output)@ + bytes@,
{
    let mut i: usize = 0;
    while i < bytes.len()
        invariant
            i <= bytes@.len(),
            output@ == old(output)@ + bytes@.take(i as int),
        decreases bytes@.len() - i,
    {
        output.push(bytes[i]);
        i = i + 1;
        assert(bytes@.take(i as int) =~= bytes@.take((i - 1) as int).push(bytes@[i - 1]));
    }
    assert(bytes@.take(i as int) =~= bytes@);
}

/// Appends a 16-bit value in little-endian order.
fn append_u16_le(output: &mut Vec<u8>, value: u16)
    ensures
        final(output)@ == old(output)@ + le_u16_bytes(value as int),
{
    output.push((value % 256) as u8);
    output.push((value / 256) as u8);
    assert(final(output)@ =~= old(output)@ + le_u16_bytes(value as int));
}

fn append_length_prefixed(output: &mut Vec<u8>, bytes: &[u8]) -> (res: Option<()>)
    ensures
        bytes@.len() <= 0xffff ==> res is Some && final(output)@ == old(output)@ + length_prefixed(
            bytes@,
        ),
        bytes@.len() > 0xffff ==> res is None && final(output)@ == old(output)@,
{
    if bytes.len() > 0xffff {
        return None;
    }
    let len = bytes.len() as u16;
    append_u16_le(output, len);
    append_bytes(output, bytes);
    assert(final(output)@ =~= old(output)@ + length_prefixed(bytes@));
    Some(())
}

fn read_length_prefixed<'a>(input: &'a [u8], cursor: &mut usize) -> (res: Result<
    &'a [u8],
    AuthCodecError,
>)
    ensures
        match res {
            Ok(field) => spec_read_field(input@, *old(cursor) as int) == Ok::<
                (Seq<u8>, int),
                AuthCodecError,
            >((field@, *final(cursor) as int)),
            Err(e) => spec_read_field(input@, *old(cursor) as int) == Err::<
                (Seq<u8>, int),
                AuthCodecError,
            >(e),
        },
{
    if *cursor > input.len() {
        return Err(AuthCodecError::Truncated);
    }
    let remaining = input.len() - *cursor;
    if remaining < 2 {
        return Err(AuthCodecError::Truncated);
    }
    let len = input[*cursor] as usize + 256 * (input[*cursor + 1] as usize);
    *cursor = *cursor + 2;
    let end = match cursor.checked_add(len) {
        Some(end) => end,
        None => return Err(AuthCodecError::FrameTooLong),
    };
    if end > input.len() {
        return Err(AuthCodecError::Truncated);
    }
    let field = &input[*cursor..end];
    *cursor = end;
    Ok(field)
}

/// Writes a frame around a body.
fn frame_body(body: &[u8]) -> (res: Vec<u8>)
    requires
        body@.len() <= 0xffff,
    ensures
        res@ == frame_of(body@),
{
    let mut output: Vec<u8> = Vec::new();
    output.push(AUTH_MAGIC[0]);
    output.push(AUTH_MAGIC[1]);
    output.push(AUTH_MAGIC[2]);
    output.push(AUTH_MAGIC[3]);
    append_u16_le(&mut output, AUTH_PROTOCOL_VERSION);
    append_u16_le(&mut output, body.len() as u16);
    append_bytes(&mut output, body);
    assert(output@ =~= frame_of(body@));
    output
}

/// Reads a frame's header and returns the body it announces.
fn read_frame_body(frame: &[u8]) -> (res: Result<&[u8], AuthCodecError>)
    ensures
        match res {
            Ok(body) => spec_frame_body(frame@) == Ok::<Seq<u8>, AuthCodecError>(body@),
            Err(e) => spec_frame_body(frame@) == Err::<Seq<u8>, AuthCodecError>(e),
        },
{
    if frame.len() < AUTH_HEADER_LENGTH {
        return Err(AuthCodecError::Truncated);
    }
    if frame[0] != AUTH_MAGIC[0] || frame[1] != AUTH_MAGIC[1] || frame[2] != AUTH_MAGIC[2]
        || frame[3] != AUTH_MAGIC[3] {
        assert(frame@.take(4) != magic_bytes()) by {
            if frame@.take(4) == magic_bytes() {
                assert(frame@.take(4)[0] == frame@[0]);
                assert(frame@.take(4)[1] == frame@[1]);
                assert(frame@.take(4)[2] == frame@[2]);
                assert(frame@.take(4)[3] == frame@[3]);
            }
        }
        return Err(AuthCodecError::InvalidMagic);
    }
    assert(frame@.take(4) =~= magic_bytes());
    let version = frame[4] as u16 + 256 * (frame[5] as u16);
    if version != AUTH_PROTOCOL_VERSION {
        return Err(AuthCodecError::InvalidVersion);
    }
    let body_len = frame[6] as usize + 256 * (frame[7] as usize);
    if AUTH_HEADER_LENGTH + body_len > frame.len() {
        return Err(AuthCodecError::Truncated);
    }
    Ok(&frame[AUTH_HEADER_LENGTH..AUTH_HEADER_LENGTH + body_len])
}

/// Encodes a launcher auth request frame.
pub fn encode_auth_request(request: &AuthRequest) -> (res: Result<Vec<u8>, AuthCodecError>)
    ensures
        match res {
            Ok(frame) => request_within_limits(request@) && frame@ == frame_of(
                request_body(request@),
            ),
            Err(e) => !request_within_limits(request@) && e == AuthCodecError::FrameTooLong,
        },
{
    let username = request.username.as_str().as_bytes();
    let password = request.password.as_str().as_bytes();
    let nickname = request.nickname.as_str().as_bytes();
    if username.len() == 0 || username.len() > AUTH_MAX_USERNAME_BYTES || password.len() == 0
        || password.len() > AUTH_MAX_PASSWORD_BYTES || nickname.len() > AUTH_MAX_NICKNAME_BYTES {
        return Err(AuthCodecError::FrameTooLong);
    }
    let mut body: Vec<u8> = Vec::new();
    body.push(request.operation.to_u8());
    let _ = append_length_prefixed(&mut body, username);
    let _ = append_length_prefixed(&mut body, password);
    let _ = append_length_prefixed(&mut body, nickname);
    assert(body@ =~= request_body(request@));
    if AUTH_HEADER_LENGTH + body.len() > AUTH_MAX_FRAME_BYTES {
        return Err(AuthCodecError::FrameTooLong);
    }
    Ok(frame_body(body.as_slice()))
}

/// Decodes a launcher auth request frame (used by the server side).
pub fn decode_auth_request(frame: &[u8]) -> (res: Result<AuthRequest, AuthCodecError>)
    ensures
        match res {
            Ok(request) => spec_decode_request(frame@) == Ok::<AuthRequestView, AuthCodecError>(
                request@,
            ),
            Err(e) => spec_decode_request(frame@) == Err::<AuthRequestView, AuthCodecError>(e),
        },
{
    let body = match read_frame_body(frame) {
        Ok(body) => body,
        Err(e) => return Err(e),
    };
    if body.len() == 0 {
        return Err(AuthCodecError::Truncated);
    }
    let operation = match AuthOperation::from_u8(body[0]) {
        Some(operation) => operation,
        None => return Err(AuthCodecError::InvalidOperation),
    };
    let mut cursor: usize = 1;
    let username = match read_length_prefixed(body, &mut cursor) {
        Ok(field) => field,
        Err(e) => return Err(e),
    };
    let password = match read_length_prefixed(body, &mut cursor) {
        Ok(field) => field,
        Err(e) => return Err(e),
    };
    let nickname = match read_length_prefixed(body, &mut cursor) {
        Ok(field) => field,
        Err(e) => return Err(e),
    };
    if cursor != body.len() {
        return Err(AuthCodecError::ReservedLengthMismatch);
    }
    let username = match owned_utf8(username) {
        Some(text) => text,
        None => return Err(AuthCodecError::InvalidUtf8),
    };
    let password = match owned_utf8(password) {
        Some(text) => text,
        None => return Err(AuthCodecError::InvalidUtf8),
    };
    let nickname = match owned_utf8(nickname) {
        Some(text) => text,
        None => return Err(AuthCodecError::InvalidUtf8),
    };
    Ok(AuthRequest { operation, username, password, nickname })
}

/// Encodes a launcher auth response frame.
pub fn encode_auth_response(response: &AuthResponse) -> (res: Result<Vec<u8>, AuthCodecError>)
    ensures
        match res {
            Ok(frame) => response_within_limits(response@) && frame@ == frame_of(
                response_body(response@),
            ),
            Err(e) => !response_within_limits(response@) && e == AuthCodecError::FrameTooLong,
        },
{
    let nickname = response.nickname.as_str().as_bytes();
    let message = response.message.as_str().as_bytes();
    if nickname.len() > AUTH_MAX_NICKNAME_BYTES || message.len() > AUTH_MAX_MESSAGE_BYTES {
        return Err(AuthCodecError::FrameTooLong);
    }
    let mut body: Vec<u8> = Vec::new();
    body.push(response.status.to_u8());
    let _ = append_length_prefixed(&mut body, nickname);
    let _ = append_length_prefixed(&mut body, message);
    assert(body@ =~= response_body(response@));
    if AUTH_HEADER_LENGTH + body.len() > AUTH_MAX_FRAME_BYTES {
        return Err(AuthCodecError::FrameTooLong);
    }
    Ok(frame_body(body.as_slice()))
}

/// Decodes a launcher auth response frame (used by the connector side).
pub fn decode_auth_response(frame: &[u8]) -> (res: Result<AuthResponse, AuthCodecError>)
    ensures
        match res {
            Ok(response) => spec_decode_response(frame@) == Ok::<
                AuthResponseView,
                AuthCodecError,
            >(response@),
            Err(e) => spec_decode_response(frame@) == Err::<AuthResponseView, AuthCodecError>(e),
        },
{
    let body = match read_frame_body(frame) {
        Ok(body) => body,
        Err(e) => return Err(e),
    };
    if body.len() == 0 {
        return Err(AuthCodecError::Truncated);
    }
    let status = AuthStatus::from_u8(body[0]);
    let mut cursor: usize = 1;
    let nickname = match read_length_prefixed(body, &mut cursor) {
        Ok(field) => field,
        Err(e) => return Err(e),
    };
    let message = match read_length_prefixed(body, &mut cursor) {
        Ok(field) => field,
        Err(e) => return Err(e),
    };
    if cursor != body.len() {
        return Err(AuthCodecError::ReservedLengthMismatch);
    }
    let nickname = match owned_utf8(nickname) {
        Some(text) => text,
        None => return Err(AuthCodecError::InvalidUtf8),
    };
    let message = match owned_utf8(message) {
        Some(text) => text,
        None => return Err(AuthCodecError::InvalidUtf8),
    };
    Ok(AuthResponse { status, nickname, message })
}

// ---------------------------------------------------------------------------
// Laws of the codec
// ---------------------------------------------------------------------------

proof fn lemma_le_u16_round_trip(value: int)
    requires
        0 <= value <= 0xffff,
    ensures
        le_u16_value(le_u16_bytes(value)[0], le_u16_bytes(value)[1]) == value,
{
}

proof fn lemma_le_u16_bytes_of_value(low: u8, high: u8)
    ensures
        le_u16_bytes(le_u16_value(low, high)) == seq![low, high],
{
    let v = le_u16_value(low, high);
    assert(v % 256 == low as int);
    assert(v / 256 == high as int);
    assert(le_u16_bytes(v) =~= seq![low, high]);
}

/// Reading a field from `pre + length_prefixed(field) + post` at the end of
/// `pre` gives the field back and stops right after it.
proof fn lemma_read_written_field(pre: Seq<u8>, field: Seq<u8>, post: Seq<u8>)
    requires
        field.len() <= 0xffff,
        pre.len() + 2 + field.len() + post.len() <= usize::MAX,
    ensures
        spec_read_field(pre + length_prefixed(field) + post, pre.len() as int) == Ok::<
            (Seq<u8>, int),
            AuthCodecError,
        >((field, (pre.len() + 2 + field.len()) as int)),
{
    let input = pre + length_prefixed(field) + post;
    let c = pre.len() as int;
    lemma_le_u16_round_trip(field.len() as int);
    assert(input[c] == le_u16_bytes(field.len() as int)[0]);
    assert(input[c + 1] == le_u16_bytes(field.len() as int)[1]);
    assert(input.subrange(c + 2, c + 2 + field.len()) =~= field);
}

/// A field that was read stands in its input as a length prefix and its bytes.
proof fn lemma_read_field_shape(input: Seq<u8>, cursor: int)
    requires
        0 <= cursor,
        spec_read_field(input, cursor) is Ok,
    ensures
        ({
            let (field, end) = spec_read_field(input, cursor)->Ok_0;
            &&& field.len() <= 0xffff
            &&& end == cursor + 2 + field.len()
            &&& end <= input.len()
            &&& input.subrange(cursor, end) == length_prefixed(field)
        }),
{
    let (field, end) = spec_read_field(input, cursor)->Ok_0;
    lemma_le_u16_bytes_of_value(input[cursor], input[cursor + 1]);
    assert(input.subrange(cursor, end) =~= length_prefixed(field));
}

/// The header of a frame written around a body announces exactly that body.
proof fn lemma_frame_body_of(body: Seq<u8>)
    requires
        body.len() <= 0xffff,
    ensures
        spec_frame_body(frame_of(body)) == Ok::<Seq<u8>, AuthCodecError>(body),
{
    let frame = frame_of(body);
    lemma_le_u16_round_trip(1);
    lemma_le_u16_round_trip(body.len() as int);
    assert(frame.take(4) =~= magic_bytes());
    assert(frame[4] == le_u16_bytes(1)[0]);
    assert(frame[5] == le_u16_bytes(1)[1]);
    assert(frame[6] == le_u16_bytes(body.len() as int)[0]);
    assert(frame[7] == le_u16_bytes(body.len() as int)[1]);
    assert(frame.subrange(8, 8 + body.len() as int) =~= body);
}

/// A frame whose header is accepted begins with a frame written around the
/// body it announces.
proof fn lemma_frame_body_shape(frame: Seq<u8>)
    requires
        spec_frame_body(frame) is Ok,
    ensures
        frame_of(spec_frame_body(frame)->Ok_0) == frame.take(
            8 + le_u16_value(frame[6], frame[7]),
        ),
{
    let body = spec_frame_body(frame)->Ok_0;
    lemma_le_u16_bytes_of_value(frame[4], frame[5]);
    lemma_le_u16_bytes_of_value(frame[6], frame[7]);
    assert(frame.take(4)[0] == frame[0]);
    assert(frame.take(4)[1] == frame[1]);
    assert(frame.take(4)[2] == frame[2]);
    assert(frame.take(4)[3] == frame[3]);
    assert(frame_of(body) =~= frame.take(8 + le_u16_value(frame[6], frame[7])));
}

/// Round trip of requests: a request within the limits, once encoded, decodes
/// to the same operation, account name, password and nickname.
#[verifier::spinoff_prover]
pub proof fn lemma_request_round_trip(request: AuthRequestView)
    requires
        request_within_limits(request),
    ensures
        spec_decode_request(frame_of(request_body(request))) == Ok::<
            AuthRequestView,
            AuthCodecError,
        >(request),
{
    let u = encode_utf8(request.username);
    let p = encode_utf8(request.password);
    let n = encode_utf8(request.nickname);
    let op = seq![operation_byte(request.operation)];
    let body = request_body(request);
    assert(body.len() <= 7 + 32 + 64 + 128);
    lemma_frame_body_of(body);
    assert(body =~= op + length_prefixed(u) + (length_prefixed(p) + length_prefixed(n)));
    lemma_read_written_field(op, u, length_prefixed(p) + length_prefixed(n));
    let c1 = 3 + u.len();
    assert(body =~= (op + length_prefixed(u)) + length_prefixed(p) + length_prefixed(n));
    lemma_read_written_field(op + length_prefixed(u), p, length_prefixed(n));
    let c2 = c1 + 2 + p.len();
    assert(body =~= (op + length_prefixed(u) + length_prefixed(p)) + length_prefixed(n) + Seq::<
        u8,
    >::empty());
    lemma_read_written_field(op + length_prefixed(u) + length_prefixed(p), n, Seq::<u8>::empty());
    assert(body[0] == operation_byte(request.operation));
}

/// Canonical requests: when a frame decodes to a request within the limits,
/// encoding that request writes back the frame's header and body byte for
/// byte (anything after the announced body is not part of the frame).
#[verifier::spinoff_prover]
pub proof fn lemma_request_frame_canonical(frame: Seq<u8>)
    requires
        spec_decode_request(frame) is Ok,
        request_within_limits(spec_decode_request(frame)->Ok_0),
    ensures
        frame_of(request_body(spec_decode_request(frame)->Ok_0)) == frame.take(
            8 + le_u16_value(frame[6], frame[7]),
        ),
{
    let request = spec_decode_request(frame)->Ok_0;
    let body = spec_frame_body(frame)->Ok_0;
    lemma_frame_body_shape(frame);
    let (u, c1) = spec_read_field(body, 1)->Ok_0;
    lemma_read_field_shape(body, 1);
    let (p, c2) = spec_read_field(body, c1)->Ok_0;
    lemma_read_field_shape(body, c1);
    let (n, c3) = spec_read_field(body, c2)->Ok_0;
    lemma_read_field_shape(body, c2);
    assert(encode_utf8(request.username) == u);
    assert(encode_utf8(request.password) == p);
    assert(encode_utf8(request.nickname) == n);
    assert(operation_byte(request.operation) == body[0]);
    assert(body =~= seq![body[0]] + body.subrange(1, c1) + body.subrange(c1, c2) + body.subrange(
        c2,
        c3,
    ));
    assert(request_body(request) =~= body);
}

/// Round trip of responses: a response within the limits, once encoded,
/// decodes to the same status, nickname and message.
#[verifier::spinoff_prover]
pub proof fn lemma_response_round_trip(response: AuthResponseView)
    requires
        response_within_limits(response),
    ensures
        spec_decode_response(frame_of(response_body(response))) == Ok::<
            AuthResponseView,
            AuthCodecError,
        >(response),
{
    let n = encode_utf8(response.nickname);
    let m = encode_utf8(response.message);
    let st = seq![status_byte(response.status)];
    let body = response_body(response);
    assert(body.len() <= 5 + 128 + 256);
    lemma_frame_body_of(body);
    assert(body =~= st + length_prefixed(n) + length_prefixed(m));
    lemma_read_written_field(st, n, length_prefixed(m));
    assert(body =~= (st + length_prefixed(n)) + length_prefixed(m) + Seq::<u8>::empty());
    lemma_read_written_field(st + length_prefixed(n), m, Seq::<u8>::empty());
    assert(body[0] == status_byte(response.status));
}

/// Canonical responses: when a frame decodes to a response within the limits
/// whose status byte is a known one, encoding that response writes back the
/// frame's header and body byte for byte.
#[verifier::spinoff_prover]
pub proof fn lemma_response_frame_canonical(frame: Seq<u8>)
    requires
        spec_decode_response(frame) is Ok,
        response_within_limits(spec_decode_response(frame)->Ok_0),
        spec_frame_body(frame)->Ok_0[0] <= 8,
    ensures
        frame_of(response_body(spec_decode_response(frame)->Ok_0)) == frame.take(
            8 + le_u16_value(frame[6], frame[7]),
        ),
{
    let response = spec_decode_response(frame)->Ok_0;
    let body = spec_frame_body(frame)->Ok_0;
    lemma_frame_body_shape(frame);
    let (n, c1) = spec_read_field(body, 1)->Ok_0;
    lemma_read_field_shape(body, 1);
    let (m, c2) = spec_read_field(body, c1)->Ok_0;
    lemma_read_field_shape(body, c1);
    assert(encode_utf8(response.nickname) == n);
    assert(encode_utf8(response.message) == m);
    assert(status_byte(response.status) == body[0]);
    assert(body =~= seq![body[0]] + body.subrange(1, c1) + body.subrange(c1, c2));
    assert(response_body(response) =~= body);
}

/// A frame is read only as far as its header announces: bytes after the
/// announced body change nothing that a request frame decodes to.
pub proof fn lemma_request_trailing_bytes_ignored(frame: Seq<u8>, extra: Seq<u8>)
    requires
        spec_frame_body(frame) is Ok,
    ensures
        spec_decode_request(frame + extra) == spec_decode_request(frame),
{
    lemma_trailing_bytes_ignored(frame, extra);
}

/// Bytes after the announced body change nothing that a response frame
/// decodes to.
pub proof fn lemma_response_trailing_bytes_ignored(frame: Seq<u8>, extra: Seq<u8>)
    requires
        spec_frame_body(frame) is Ok,
    ensures
        spec_decode_response(frame + extra) == spec_decode_response(frame),
{
    lemma_trailing_bytes_ignored(frame, extra);
}

proof fn lemma_trailing_bytes_ignored(frame: Seq<u8>, extra: Seq<u8>)
    requires
        spec_frame_body(frame) is Ok,
    ensures
        spec_frame_body(frame + extra) == spec_frame_body(frame),
{
    let whole = frame + extra;
    assert(whole.take(4) =~= frame.take(4));
    assert(whole[4] == frame[4]);
    assert(whole[5] == frame[5]);
    assert(whole[6] == frame[6]);
    assert(whole[7] == frame[7]);
    let n = le_u16_value(frame[6], frame[7]);
    assert(whole.subrange(8, 8 + n) =~= frame.subrange(8, 8 + n));
}

/// The wire byte of every status is fixed: 0 success, 1 invalid request,
/// 2 account exists, 3 account not found, 4 wrong password, 5 nickname taken,
/// 6 registration disabled, 7 nickname invalid, 8 internal error.  An encoded
/// response body starts with that byte, a status byte is read back as that
/// status (any byte from 8 on as an internal error), and so is the first byte
/// of every response body that decodes.
pub proof fn lemma_status_wire_bytes(response: AuthResponseView, byte: u8, body: Seq<u8>)
    ensures
        response.status is Success ==> response_body(response)[0] == 0,
        response.status is InvalidRequest ==> response_body(response)[0] == 1,
        response.status is AccountExists ==> response_body(response)[0] == 2,
        response.status is AccountNotFound ==> response_body(response)[0] == 3,
        response.status is WrongPassword ==> response_body(response)[0] == 4,
        response.status is NicknameTaken ==> response_body(response)[0] == 5,
        response.status is RegistrationDisabled ==> response_body(response)[0] == 6,
        response.status is NicknameInvalid ==> response_body(response)[0] == 7,
        response.status is InternalError ==> response_body(response)[0] == 8,
        byte == 0 ==> status_from_byte(byte) is Success,
        byte == 1 ==> status_from_byte(byte) is InvalidRequest,
        byte == 2 ==> status_from_byte(byte) is AccountExists,
        byte == 3 ==> status_from_byte(byte) is AccountNotFound,
        byte == 4 ==> status_from_byte(byte) is WrongPassword,
        byte == 5 ==> status_from_byte(byte) is NicknameTaken,
        byte == 6 ==> status_from_byte(byte) is RegistrationDisabled,
        byte == 7 ==> status_from_byte(byte) is NicknameInvalid,
        byte >= 8 ==> status_from_byte(byte) is InternalError,
        spec_decode_response_body(body) matches Ok(r) ==> {
            &&& (body[0] == 0 <==> r.status is Success)
            &&& (body[0] == 1 <==> r.status is InvalidRequest)
            &&& (body[0] == 2 <==> r.status is AccountExists)
            &&& (body[0] == 3 <==> r.status is AccountNotFound)
            &&& (body[0] == 4 <==> r.status is WrongPassword)
            &&& (body[0] == 5 <==> r.status is NicknameTaken)
            &&& (body[0] == 6 <==> r.status is RegistrationDisabled)
            &&& (body[0] == 7 <==> r.status is NicknameInvalid)
            &&& (body[0] >= 8 <==> r.status is InternalError)
        },
{
}

} // verus!
