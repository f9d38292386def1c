pub mod auth;
pub mod krist;
pub mod subs;

use vstd::prelude::*;

use crate::errors::auth::AuthError;
use crate::errors::subs::SubsError;

verus! {

/// What the native endpoints can refuse.
#[derive(Debug, Clone, Copy, PartialEq, Eq, Structural)]
pub enum KromerError {
    Auth(AuthError),
    Subs(SubsError),
}

impl KromerError {
    /// The HTTP status that reports the error.
    pub fn status_code(&self) -> (r: u16)
        ensures
            r == match *self {
                KromerError::Auth(_) => 401u16,
                KromerError::Subs(e) => e.spec_status_code(),
            },
    {
        match self {
            KromerError::Auth(e) => e.status_code(),
            KromerError::Subs(e) => e.status_code(),
        }
    }
}

} // verus!
