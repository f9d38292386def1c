use vstd::prelude::*;

verus! {

/// What the Krist-compatible endpoints can refuse.
#[derive(Debug, Clone, Copy, PartialEq, Eq, Structural)]
pub enum KristError {
    /// The private key could not be checked against its wallet.
    AuthFailed,
    /// The hand-off token is no identifier, was never issued, was used
    /// already, or has expired.
    InvalidWebsocketToken,
    /// The server does not know its own public address.
    ServerConfigError,
}

impl KristError {
    /// The stable code that names the error on the wire.
    pub open spec fn spec_code(self) -> Seq<char> {
        match self {
            KristError::AuthFailed => "auth_failed"@,
            KristError::InvalidWebsocketToken => "invalid_websocket_token"@,
            KristError::ServerConfigError => "server_config_error"@,
        }
    }

    /// The stable code that names the error on the wire.
    pub fn code(&self) -> (r: &'static str)
        ensures
            r@ == self.spec_code(),
    {
        match self {
            KristError::AuthFailed => "auth_failed",
            KristError::InvalidWebsocketToken => "invalid_websocket_token",
            KristError::ServerConfigError => "server_config_error",
        }
    }

    /// A sentence for the response body.
    pub fn message(&self) -> (r: &'static str)
        ensures
            r@ == match *self {
                KristError::AuthFailed => "Authentication failed"@,
                KristError::InvalidWebsocketToken => "Invalid websocket token"@,
                KristError::ServerConfigError => "Server configuration error"@,
            },
    {
        match self {
            KristError::AuthFailed => "Authentication failed",
            KristError::InvalidWebsocketToken => "Invalid websocket token",
            KristError::ServerConfigError => "Server configuration error",
        }
    }

    /// The HTTP status that reports the error.
    pub fn status_code(&self) -> (r: u16)
        ensures
            r == match *self {
                KristError::AuthFailed => 401u16,
                KristError::InvalidWebsocketToken => 403u16,
                KristError::ServerConfigError => 500u16,
            },
    {
        match self {
            KristError::AuthFailed => 401,
            KristError::InvalidWebsocketToken => 403,
            KristError::ServerConfigError => 500,
        }
    }
}

} // verus!
