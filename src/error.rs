use vstd::prelude::*;

verus! {

/// Why a presented token was not accepted. Callers surface all three alike
/// (unauthorized); the distinction is kept for the service itself.
#[derive(Debug, Clone, Copy, PartialEq, Eq, Structural)]
pub enum TokenFailure {
    /// Not three dot-separated parts, an unexpected header, or an unreadable payload.
    Malformed,
    /// The signature does not match the header and payload under the secret.
    BadSignature,
    /// Correctly signed, but past its expiry.
    Expired,
}

/// Failures of the identity core, each with a message for the caller.
#[derive(Debug, Clone)]
pub enum AppError {
    DatabaseError(String),
    AuthError(String),
    TokenError(String),
    HashError(String),
    ValidationError(String),
    NotFound(String),
    Forbidden(String),
    InternalError(String),
    BadRequest(String),
}

/// The HTTP status with which a failure is answered.
pub open spec fn status_of(e: AppError) -> u16 {
    match e {
        AppError::DatabaseError(_) => 500,
        AppError::AuthError(_) => 401,
        AppError::TokenError(_) => 401,
        AppError::HashError(_) => 500,
        AppError::ValidationError(_) => 400,
        AppError::NotFound(_) => 404,
        AppError::Forbidden(_) => 403,
        AppError::InternalError(_) => 500,
        AppError::BadRequest(_) => 400,
    }
}

/// The message a failure carries.
pub open spec fn message_of(e: AppError) -> Seq<char> {
    match e {
        AppError::DatabaseError(m) => m@,
        AppError::AuthError(m) => m@,
        AppError::TokenError(m) => m@,
        AppError::HashError(m) => m@,
        AppError::ValidationError(m) => m@,
        AppError::NotFound(m) => m@,
        AppError::Forbidden(m) => m@,
        AppError::InternalError(m) => m@,
        AppError::BadRequest(m) => m@,
    }
}

impl AppError {
    /// The HTTP status code for this failure.
    pub fn status_code(&self) -> (r: u16)
        ensures
            r == status_of(*self),
    {
        match self {
            AppError::DatabaseError(_) => 500,
            AppError::AuthError(_) => 401,
            AppError::TokenError(_) => 401,
            AppError::HashError(_) => 500,
            AppError::ValidationError(_) => 400,
            AppError::NotFound(_) => 404,
            AppError::Forbidden(_) => 403,
            AppError::InternalError(_) => 500,
            AppError::BadRequest(_) => 400,
        }
    }

    /// The message carried by this failure.
    pub fn message(&self) -> (r: String)
        ensures
            r@ == message_of(*self),
    {
        match self {
            AppError::DatabaseError(m) => m.clone(),
            AppError::AuthError(m) => m.clone(),
            AppError::TokenError(m) => m.clone(),
            AppError::HashError(m) => m.clone(),
            AppError::ValidationError(m) => m.clone(),
            AppError::NotFound(m) => m.clone(),
            AppError::Forbidden(m) => m.clone(),
            AppError::InternalError(m) => m.clone(),
            AppError::BadRequest(m) => m.clone(),
        }
    }
}

impl TokenFailure {
    /// The caller-facing failure: every token failure reads the same.
    pub fn to_app_error(&self) -> (r: AppError)
        ensures
            r is TokenError,
            message_of(r) == invalid_token_message(),
    {
        proof {
            reveal_strlit("Invalid token");
        }
        AppError::TokenError(String::from_str("Invalid token"))
    }
}

pub open spec fn invalid_token_message() -> Seq<char> {
    seq!['I', 'n', 'v', 'a', 'l', 'i', 'd', ' ', 't', 'o', 'k', 'e', 'n']
}

} // verus!
