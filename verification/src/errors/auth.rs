use vstd::prelude::*;

use vstd::string::StringExecFns;

verus! {

/// Why a request was not let through.
#[derive(Debug, Clone, Copy, PartialEq, Eq, Structural)]
pub enum AuthError {
    MissingBearer,
    Unauthorized,
    BadWallet,
    AuthFailed,
    InvalidSession,
}

impl AuthError {
    /// The HTTP status that reports the error: always 401.
    pub fn status_code(&self) -> (r: u16)
        ensures
            r == 401,
    {
        401
    }

    /// A sentence for the response body.
    pub fn message(&self) -> (r: String)
        ensures
            r@ == match *self {
                AuthError::MissingBearer => "Missing bearer auth token in header"@,
                AuthError::Unauthorized =>
                    "This session is not authorized to operate on this resource"@,
                AuthError::BadWallet =>
                    "Attempted to operate on a wallet not associated with this session"@,
                AuthError::AuthFailed => "Failed to start session, please try again"@,
                AuthError::InvalidSession =>
                    "The provided token either does not exist, or has expired"@,
            },
    {
        match self {
            AuthError::MissingBearer => String::from_str("Missing bearer auth token in header"),
            AuthError::Unauthorized => String::from_str(
                "This session is not authorized to operate on this resource",
            ),
            AuthError::BadWallet => String::from_str(
                "Attempted to operate on a wallet not associated with this session",
            ),
            AuthError::AuthFailed => String::from_str("Failed to start session, please try again"),
            AuthError::InvalidSession => String::from_str(
                "The provided token either does not exist, or has expired",
            ),
        }
    }
}

} // verus!
