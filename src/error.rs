use vstd::prelude::*;

verus! {

/// The kinds of error that travel over the wire, each with a fixed name.
#[derive(Debug, Clone, Copy, PartialEq, Eq, Structural)]
pub enum ErrorTypes {
    InternalError,
    JwtTokenExpired,
    BadData,
    UserNotExists,
    NotEnoughPermissions,
    InvalidResetToken,
    UserAlreadyExists,
    RefreshTokenExpired,
    InvalidCreds,
    NoAuthHeader,
}

/// The wire name of each error kind.
pub open spec fn error_type_name(t: ErrorTypes) -> Seq<char> {
    match t {
        ErrorTypes::InternalError => "internal_error"@,
        ErrorTypes::JwtTokenExpired => "jwt_token_expired"@,
        ErrorTypes::BadData => "bad_data"@,
        ErrorTypes::UserNotExists => "user_not_exists"@,
        ErrorTypes::NotEnoughPermissions => "not_enough_permissions"@,
        ErrorTypes::InvalidResetToken => "invalid_reset_token"@,
        ErrorTypes::UserAlreadyExists => "user_already_exists"@,
        ErrorTypes::RefreshTokenExpired => "refresh_token_expired"@,
        ErrorTypes::InvalidCreds => "invalid_creds"@,
        ErrorTypes::NoAuthHeader => "no_auth_header"@,
    }
}

impl ErrorTypes {
    pub fn as_str(&self) -> (r: &'static str)
        ensures
            r@ == error_type_name(*self),
    {
        match self {
            ErrorTypes::InternalError => "internal_error",
            ErrorTypes::JwtTokenExpired => "jwt_token_expired",
            ErrorTypes::UserNotExists => "user_not_exists",
            ErrorTypes::NotEnoughPermissions => "not_enough_permissions",
            ErrorTypes::BadData => "bad_data",
            ErrorTypes::InvalidResetToken => "invalid_reset_token",
            ErrorTypes::UserAlreadyExists => "user_already_exists",
            ErrorTypes::RefreshTokenExpired => "refresh_token_expired",
            ErrorTypes::InvalidCreds => "invalid_creds",
            ErrorTypes::NoAuthHeader => "no_auth_header",
        }
    }
}

/// The one shape of every error body.
pub struct ErrorResponse {
    pub error_type: String,
    pub error_msg: String,
}

impl ErrorResponse {
    pub fn new(error_type: ErrorTypes, error_msg: &str) -> (r: Self)
        ensures
            r.error_type@ == error_type_name(error_type),
            r.error_msg@ == error_msg@,
    {
        ErrorResponse { error_type: error_type.as_str().to_owned(), error_msg: error_msg.to_owned() }
    }
}

} // verus!
