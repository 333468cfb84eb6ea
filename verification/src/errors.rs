//! Error texts and the HTTP error value returned by the handlers.
use vstd::prelude::*;

verus! {

/// HTTP status code for a rejected request.
pub const STATUS_BAD_REQUEST: u16 = 400;

/// HTTP status code for a missing or wrong credential.
pub const STATUS_UNAUTHORIZED: u16 = 401;

/// HTTP status code for a failure on the server's side.
pub const STATUS_INTERNAL_SERVER_ERROR: u16 = 500;

/// The failures that the server reports, each with a fixed text.
#[derive(Debug, Clone, Copy, PartialEq, Eq, Structural)]
pub enum ErrorMessage {
    EmptyPassword,
    HashingError,
    Unauthorized,
    InvalidCredentials,
    TokenFailed,
    UserNotExist,
    EmailError,
    CreateUserFailed,
    UserAlreadyExist,
    InvalidInput,
    CreateRoomFailed,
    FetchAllUsersFailed,
    FailedMessage,
    SocketFailed,
    AddMemberFailed,
    AddMemberFailedV2,
    RoomNotFound,
    FailedToGetMsg,
    RoomAlreadyExist,
    MemberNotExist,
}

/// The text that belongs to each failure.
pub open spec fn error_text(m: ErrorMessage) -> Seq<char> {
    match m {
        ErrorMessage::EmptyPassword => "Password Input is empty!!"@,
        ErrorMessage::HashingError => "Password Hashing Failed!!"@,
        ErrorMessage::Unauthorized => "Function failed: Unauthorized"@,
        ErrorMessage::InvalidCredentials => "Function Failed: InvalidCredentials"@,
        ErrorMessage::TokenFailed => "Failed to initialize token"@,
        ErrorMessage::UserNotExist => "Server Failed, User does not exist"@,
        ErrorMessage::CreateUserFailed => "Failed to create user"@,
        ErrorMessage::UserAlreadyExist => "Failed to create user, User already exists!!"@,
        ErrorMessage::InvalidInput => "Invalid Input!!"@,
        ErrorMessage::CreateRoomFailed => "Failed to create room"@,
        ErrorMessage::FetchAllUsersFailed => "Failed to fetch all users"@,
        ErrorMessage::FailedMessage => "Failed to send message"@,
        ErrorMessage::SocketFailed => "Failed to create websocket connection"@,
        ErrorMessage::AddMemberFailed => "Failed to add room member"@,
        ErrorMessage::AddMemberFailedV2 => "Failed to add room member, they dont exist"@,
        ErrorMessage::RoomNotFound => "Failed to find room, it does not exist"@,
        ErrorMessage::FailedToGetMsg => "Failed to get messages"@,
        ErrorMessage::RoomAlreadyExist => "Chat room already exists"@,
        ErrorMessage::MemberNotExist => "room member doesnt exist!!"@,
        ErrorMessage::EmailError => "Failed to send email!!"@,
    }
}

impl ErrorMessage {
    /// The text of this failure.
    pub fn return_err(&self) -> (res: String)
        ensures
            res@ == error_text(*self),
    {
        match self {
            ErrorMessage::EmptyPassword => String::from_str("Password Input is empty!!"),
            ErrorMessage::HashingError => String::from_str("Password Hashing Failed!!"),
            ErrorMessage::Unauthorized => String::from_str("Function failed: Unauthorized"),
            ErrorMessage::InvalidCredentials => String::from_str(
                "Function Failed: InvalidCredentials",
            ),
            ErrorMessage::TokenFailed => String::from_str("Failed to initialize token"),
            ErrorMessage::UserNotExist => String::from_str("Server Failed, User does not exist"),
            ErrorMessage::CreateUserFailed => String::from_str("Failed to create user"),
            ErrorMessage::UserAlreadyExist => String::from_str(
                "Failed to create user, User already exists!!",
            ),
            ErrorMessage::InvalidInput => String::from_str("Invalid Input!!"),
            ErrorMessage::CreateRoomFailed => String::from_str("Failed to create room"),
            ErrorMessage::FetchAllUsersFailed => String::from_str("Failed to fetch all users"),
            ErrorMessage::FailedMessage => String::from_str("Failed to send message"),
            ErrorMessage::SocketFailed => String::from_str(
                "Failed to create websocket connection",
            ),
            ErrorMessage::AddMemberFailed => String::from_str("Failed to add room member"),
            ErrorMessage::AddMemberFailedV2 => String::from_str(
                "Failed to add room member, they dont exist",
            ),
            ErrorMessage::RoomNotFound => String::from_str("Failed to find room, it does not exist"),
            ErrorMessage::FailedToGetMsg => String::from_str("Failed to get messages"),
            ErrorMessage::RoomAlreadyExist => String::from_str("Chat room already exists"),
            ErrorMessage::MemberNotExist => String::from_str("room member doesnt exist!!"),
            ErrorMessage::EmailError => String::from_str("Failed to send email!!"),
        }
    }
}

/// The JSON body sent with every error response.
pub struct ErrorResponse {
    pub status: String,
    pub message: String,
}

/// An error answer: a message and the HTTP status it is sent with.
#[derive(Debug, Clone)]
pub struct HttpError {
    pub message: String,
    pub status: u16,
}

impl HttpError {
    /// This error carries exactly this status and this message.
    pub open spec fn has(&self, status: u16, message: Seq<char>) -> bool {
        self.status == status && self.message@ == message
    }

    /// A "400 Bad Request" error with the given message.
    pub fn bad_service(message: String) -> (res: HttpError)
        ensures
            res.has(STATUS_BAD_REQUEST, message@),
    {
        HttpError { message, status: STATUS_BAD_REQUEST }
    }

    /// A "401 Unauthorized" error with the given message.
    pub fn unauthorized(message: String) -> (res: HttpError)
        ensures
            res.has(STATUS_UNAUTHORIZED, message@),
    {
        HttpError { message, status: STATUS_UNAUTHORIZED }
    }

    /// A "500 Internal Server Error" error with the given message.
    pub fn server_error(message: String) -> (res: HttpError)
        ensures
            res.has(STATUS_INTERNAL_SERVER_ERROR, message@),
    {
        HttpError { message, status: STATUS_INTERNAL_SERVER_ERROR }
    }

    /// The status and JSON body of the response that answers with this error:
    /// the body says `"fail"` and repeats the message.
    pub fn into_http_response(self) -> (res: (u16, ErrorResponse))
        ensures
            res.0 == self.status,
            res.1.status@ == "fail"@,
            res.1.message@ == self.message@,
    {
        let status = self.status;
        let body = ErrorResponse { message: self.message.clone(), status: String::from_str("fail") };
        (status, body)
    }
}

/// A "400 Bad Request" error whose message is the text of `m`.
pub open spec fn bad_request_with(e: HttpError, m: ErrorMessage) -> bool {
    e.has(STATUS_BAD_REQUEST, error_text(m))
}

/// A "401 Unauthorized" error whose message is the text of `m`.
pub open spec fn unauthorized_with(e: HttpError, m: ErrorMessage) -> bool {
    e.has(STATUS_UNAUTHORIZED, error_text(m))
}

/// A "500 Internal Server Error" error whose message is the text of `m`.
pub open spec fn server_error_with(e: HttpError, m: ErrorMessage) -> bool {
    e.has(STATUS_INTERNAL_SERVER_ERROR, error_text(m))
}

/// A "400 Bad Request" error carrying the text of `m`.
pub fn bad_request_of(m: ErrorMessage) -> (res: HttpError)
    ensures
        bad_request_with(res, m),
{
    HttpError::bad_service(m.return_err())
}

/// A "401 Unauthorized" error carrying the text of `m`.
pub fn unauthorized_of(m: ErrorMessage) -> (res: HttpError)
    ensures
        unauthorized_with(res, m),
{
    HttpError::unauthorized(m.return_err())
}

/// A "500 Internal Server Error" error carrying the text of `m`.
pub fn server_error_of(m: ErrorMessage) -> (res: HttpError)
    ensures
        server_error_with(res, m),
{
    HttpError::server_error(m.return_err())
}

/// Each failure has its own text: two failures with the same text are the same.
pub proof fn lemma_error_text_distinct(a: ErrorMessage, b: ErrorMessage)
    requires
        error_text(a) == error_text(b),
    ensures
        a == b,
{
    reveal_strlit("Password Input is empty!!");
    reveal_strlit("Password Hashing Failed!!");
    reveal_strlit("Function failed: Unauthorized");
    reveal_strlit("Function Failed: InvalidCredentials");
    reveal_strlit("Failed to initialize token");
    reveal_strlit("Server Failed, User does not exist");
    reveal_strlit("Failed to create user");
    reveal_strlit("Failed to create user, User already exists!!");
    reveal_strlit("Invalid Input!!");
    reveal_strlit("Failed to create room");
    reveal_strlit("Failed to fetch all users");
    reveal_strlit("Failed to send message");
    reveal_strlit("Failed to create websocket connection");
    reveal_strlit("Failed to add room member");
    reveal_strlit("Failed to add room member, they dont exist");
    reveal_strlit("Failed to find room, it does not exist");
    reveal_strlit("Failed to get messages");
    reveal_strlit("Chat room already exists");
    reveal_strlit("room member doesnt exist!!");
    reveal_strlit("Failed to send email!!");
    if a != b {
        let ta = error_text(a);
        let tb = error_text(b);
        if ta.len() == tb.len() {
            assert(exists|i: int| 0 <= i < ta.len() && ta[i] != tb[i]) by {
                assert(ta[0] != tb[0] || ta[1] != tb[1] || ta[7] != tb[7] || ta[10] != tb[10] || ta[17] != tb[17]);
            }
        }
    }
}

} // verus!
