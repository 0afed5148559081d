use vstd::prelude::*;
use crate::error::{error_type_name, ErrorResponse, ErrorTypes};

verus! {

/// Why an authentication step was refused.
#[derive(Debug, Clone, Copy, PartialEq, Eq, Structural)]
pub enum AuthErrors {
    JwtTokenExpired,
    RefreshTokenExpired,
    BadData,
    UserAlreadyExists,
    UserNotExists,
    InvalidCreds,
    InternalError,
}

/// The HTTP status that answers each refusal.
pub open spec fn auth_status(e: AuthErrors) -> u16 {
    match e {
        AuthErrors::JwtTokenExpired => 401,
        AuthErrors::RefreshTokenExpired => 403,
        AuthErrors::BadData => 400,
        AuthErrors::UserAlreadyExists => 409,
        AuthErrors::UserNotExists => 400,
        AuthErrors::InvalidCreds => 401,
        AuthErrors::InternalError => 500,
    }
}

/// The wire error kind of each refusal.
pub open spec fn auth_wire_type(e: AuthErrors) -> ErrorTypes {
    match e {
        AuthErrors::JwtTokenExpired => ErrorTypes::JwtTokenExpired,
        AuthErrors::RefreshTokenExpired => ErrorTypes::RefreshTokenExpired,
        AuthErrors::BadData => ErrorTypes::BadData,
        AuthErrors::UserAlreadyExists => ErrorTypes::UserAlreadyExists,
        AuthErrors::UserNotExists => ErrorTypes::UserNotExists,
        AuthErrors::InvalidCreds => ErrorTypes::InvalidCreds,
        AuthErrors::InternalError => ErrorTypes::InternalError,
    }
}

impl AuthErrors {
    pub fn status(&self) -> (r: u16)
        ensures
            r == auth_status(*self),
    {
        match self {
            AuthErrors::JwtTokenExpired => 401,
            AuthErrors::RefreshTokenExpired => 403,
            AuthErrors::BadData => 400,
            AuthErrors::UserAlreadyExists => 409,
            AuthErrors::UserNotExists => 400,
            AuthErrors::InvalidCreds => 401,
            AuthErrors::InternalError => 500,
        }
    }

    pub fn wire_type(&self) -> (r: ErrorTypes)
        ensures
            r == auth_wire_type(*self),
    {
        match self {
            AuthErrors::JwtTokenExpired => ErrorTypes::JwtTokenExpired,
            AuthErrors::RefreshTokenExpired => ErrorTypes::RefreshTokenExpired,
            AuthErrors::BadData => ErrorTypes::BadData,
            AuthErrors::UserAlreadyExists => ErrorTypes::UserAlreadyExists,
            AuthErrors::UserNotExists => ErrorTypes::UserNotExists,
            AuthErrors::InvalidCreds => ErrorTypes::InvalidCreds,
            AuthErrors::InternalError => ErrorTypes::InternalError,
        }
    }

    /// The name of the refusal, the same as that of its wire kind.
    pub fn as_str(&self) -> (r: &'static str)
        ensures
            r@ == error_type_name(auth_wire_type(*self)),
    {
        self.wire_type().as_str()
    }
}

/// A refused authentication step: what went wrong and a message for the client.
pub struct AuthError {
    error_type: AuthErrors,
    message: String,
}

impl AuthError {
    pub fn new(error_type: AuthErrors, message: &str) -> (r: Self)
        ensures
            r.kind() == error_type,
            r.message_view() == message@,
    {
        AuthError { error_type, message: message.to_owned() }
    }

    pub closed spec fn kind(&self) -> AuthErrors {
        self.error_type
    }

    pub closed spec fn message_view(&self) -> Seq<char> {
        self.message@
    }

    pub fn error_type(&self) -> (r: AuthErrors)
        ensures
            r == self.kind(),
    {
        self.error_type
    }

    pub fn message(&self) -> (r: &str)
        ensures
            r@ == self.message_view(),
    {
        self.message.as_str()
    }

    pub fn status(&self) -> (r: u16)
        ensures
            r == auth_status(self.kind()),
    {
        self.error_type.status()
    }

    /// The body sent to the client for this refusal.
    pub fn to_response(&self) -> (r: ErrorResponse)
        ensures
            r.error_type@ == error_type_name(auth_wire_type(self.kind())),
            r.error_msg@ == self.message_view(),
    {
        ErrorResponse::new(self.error_type.wire_type(), self.message.as_str())
    }
}

/// Why a vault step failed.
#[derive(Debug, Clone, Copy, PartialEq, Eq, Structural)]
pub enum StorageErrors {
    NotFound,
    DecryptionFailed,
    InternalError,
}

pub open spec fn storage_status(e: StorageErrors) -> u16 {
    match e {
        StorageErrors::NotFound => 404,
        StorageErrors::DecryptionFailed => 500,
        StorageErrors::InternalError => 500,
    }
}

pub open spec fn storage_error_name(e: StorageErrors) -> Seq<char> {
    match e {
        StorageErrors::NotFound => "not_found"@,
        StorageErrors::DecryptionFailed => "decryption_failed"@,
        StorageErrors::InternalError => "internal_error"@,
    }
}

impl StorageErrors {
    pub fn status(&self) -> (r: u16)
        ensures
            r == storage_status(*self),
    {
        match self {
            StorageErrors::NotFound => 404,
            StorageErrors::DecryptionFailed => 500,
            StorageErrors::InternalError => 500,
        }
    }

    pub fn as_str(&self) -> (r: &'static str)
        ensures
            r@ == storage_error_name(*self),
    {
        match self {
            StorageErrors::NotFound => "not_found",
            StorageErrors::DecryptionFailed => "decryption_failed",
            StorageErrors::InternalError => "internal_error",
        }
    }
}

/// A failed vault step: what went wrong and a message for the client.
pub struct StorageError {
    error_type: StorageErrors,
    message: String,
}

impl StorageError {
    pub fn new(error_type: StorageErrors, message: &str) -> (r: Self)
        ensures
            r.kind() == error_type,
            r.message_view() == message@,
    {
        StorageError { error_type, message: message.to_owned() }
    }

    pub closed spec fn kind(&self) -> StorageErrors {
        self.error_type
    }

    pub closed spec fn message_view(&self) -> Seq<char> {
        self.message@
    }

    pub fn error_type(&self) -> (r: StorageErrors)
        ensures
            r == self.kind(),
    {
        self.error_type
    }

    pub fn message(&self) -> (r: &str)
        ensures
            r@ == self.message_view(),
    {
        self.message.as_str()
    }

    pub fn status(&self) -> (r: u16)
        ensures
            r == storage_status(self.kind()),
    {
        self.error_type.status()
    }

    /// The body sent to the client for this failure.
    pub fn to_response(&self) -> (r: ErrorResponse)
        ensures
            r.error_type@ == storage_error_name(self.kind()),
            r.error_msg@ == self.message_view(),
    {
        ErrorResponse { error_type: self.error_type.as_str().to_owned(), error_msg: self.message.clone() }
    }
}

/// An unexpected failure while serving a request, answered with status 500. The cause is kept
/// for the server's log; the client sees only a generic message.
pub struct AppError {
    pub message: String,
}

/// The message of every internal error sent to a client.
pub open spec fn internal_error_message() -> Seq<char> {
    "Something went wrong"@
}

impl AppError {
    pub fn new(message: &str) -> (r: Self)
        ensures
            r.message@ == message@,
    {
        AppError { message: message.to_owned() }
    }

    pub fn status(&self) -> (r: u16)
        ensures
            r == 500,
    {
        500
    }

    /// The body sent to the client: an internal error with a generic message, whatever the cause.
    pub fn to_response(&self) -> (r: ErrorResponse)
        ensures
            r.error_type@ == error_type_name(ErrorTypes::InternalError),
            r.error_msg@ == internal_error_message(),
    {
        ErrorResponse::new(ErrorTypes::InternalError, "Something went wrong")
    }
}

} // verus!
