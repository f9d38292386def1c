use vstd::prelude::*;

use vstd::string::StringExecFns;

verus! {

/// What the hub can refuse.
#[derive(Debug, Clone, Copy, PartialEq, Eq, Structural)]
pub enum WebSocketServerError {
    /// The hand-off token was never issued, was used already, or has expired.
    TokenNotFound,
}

impl WebSocketServerError {
    /// A sentence for logs and responses.
    pub fn message(&self) -> (r: String)
        ensures
            r@ == "Token not found"@,
    {
        String::from_str("Token not found")
    }
}

} // verus!
