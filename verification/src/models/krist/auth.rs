use vstd::prelude::*;

verus! {

/// The body of a login request.
#[derive(Debug, Clone, PartialEq, PartialOrd)]
pub struct LoginDetails {
    pub private_key: String,
}

/// Whether a private key is the right one for its wallet, and if so which
/// wallet that is.
#[derive(Debug, Clone, PartialEq, PartialOrd)]
pub struct AddressAuthenticationResponse {
    pub ok: bool,
    pub authed: bool,
    pub address: Option<String>,
}

} // verus!
