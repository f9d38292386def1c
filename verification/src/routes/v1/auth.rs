use vstd::prelude::*;

use crate::auth::{
    logout_at, spec_expiry, spec_logout, spec_logout_touch, spec_read_bearer, spec_register,
    AuthSessions,
};
use crate::clock::now_millis;
use crate::database::wallet::VerifyResponse;
use crate::errors::auth::AuthError;
use crate::models::kromer::auth::AuthenticatedResponse;

verus! {

/// Begins a session for the wallet that a private key belongs to, where
/// `verification` is what checking the key against the store came to
/// (`None` if the check could not be made). Sessions last for one hour and
/// then must be renewed.
pub fn login(sessions: &mut AuthSessions, verification: Option<&VerifyResponse>) -> (r: Result<
    AuthenticatedResponse,
    AuthError,
>)
    ensures
        match r {
            Ok(response) => {
                &&& verification.is_some() && verification.unwrap().authed
                &&& response.address@ == verification.unwrap().model.address@
                &&& exists|now: i64|
                    response.expires == spec_expiry(now) && final(sessions)@ == spec_register(
                        old(sessions)@,
                        response.token,
                        response.address@,
                        now,
                    )
            },
            Err(e) => {
                &&& e == AuthError::InvalidSession
                &&& !(verification.is_some() && verification.unwrap().authed)
                &&& final(sessions)@ == old(sessions)@
            },
        },
{
    match sessions.register_pk(verification) {
        Ok(registered) => Ok(AuthenticatedResponse::login(registered)),
        Err(e) => Err(e),
    }
}

/// Ends the session that the bearer token of a request names.
pub fn logout(sessions: &mut AuthSessions, token: Option<&str>) -> (r: Result<(), AuthError>)
    ensures
        exists|now: i64|
            {
                &&& final(sessions)@ == #[trigger] spec_logout_touch(
                    old(sessions)@,
                    spec_read_bearer(token),
                    now,
                )
                &&& r.is_ok() == spec_logout(old(sessions)@, spec_read_bearer(token), now).is_ok()
                &&& r.is_err() ==> spec_logout(old(sessions)@, spec_read_bearer(token), now)
                    == Err::<Seq<char>, AuthError>(r.unwrap_err())
            },
{
    let now = now_millis();
    match logout_at(sessions, token, now) {
        Ok(_) => Ok(()),
        Err(e) => Err(e),
    }
}

} // verus!
