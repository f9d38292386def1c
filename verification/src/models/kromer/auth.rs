use vstd::prelude::*;

verus! {

/// Returned on successful authorization: the session's token, when it
/// expires, and the wallet it stands for.
#[derive(Debug, Clone, PartialEq)]
pub struct AuthenticatedResponse {
    pub token: u128,
    pub expires: i64,
    pub address: String,
}

impl AuthenticatedResponse {
    /// The answer to a login, from what the registry returned.
    pub fn login(registered: (u128, i64, String)) -> (r: Self)
        ensures
            r.token == registered.0,
            r.expires == registered.1,
            r.address == registered.2,
    {
        AuthenticatedResponse { token: registered.0, expires: registered.1, address: registered.2 }
    }
}

} // verus!
