use vstd::prelude::*;

use crate::database::wallet::VerifyResponse;
use crate::models::krist::websockets::{WebSocketMessage, WebSocketMessageResponse};
use crate::websockets::types::common::{SessionOp, SessionView};
use crate::websockets::WebSocketServer;

verus! {

/// Whether a key check lets a login through: the check was made and the key
/// is the right one.
pub open spec fn spec_login_accepted(verification: Option<&VerifyResponse>) -> bool {
    verification.is_some() && verification.unwrap().authed
}

/// What a login does to the sessions of a hub, and what it is answered with.
pub open spec fn login_post(
    before: Map<u128, SessionView>,
    after: Map<u128, SessionView>,
    uuid: u128,
    private_key: String,
    verification: Option<&VerifyResponse>,
    msg_id: Option<usize>,
    r: WebSocketMessage,
) -> bool {
    if spec_login_accepted(verification) && before.contains_key(uuid) {
        &&& after == before.insert(
            uuid,
            before[uuid].apply(
                SessionOp::Login { address: verification.unwrap().model.address, private_key },
            ),
        )
        &&& r.is_login_accepted(msg_id, verification.unwrap().model@)
    } else {
        &&& after == before
        &&& r.is_login_refused(msg_id)
    }
}

/// What a logout does to the sessions of a hub, and what it is answered with.
pub open spec fn logout_post(
    before: Map<u128, SessionView>,
    after: Map<u128, SessionView>,
    uuid: u128,
    msg_id: Option<usize>,
    r: WebSocketMessage,
) -> bool {
    if before.contains_key(uuid) {
        &&& after == before.insert(uuid, before[uuid].apply(SessionOp::Logout))
        &&& r.is_logout_reply(msg_id)
    } else {
        &&& after == before
        &&& r.is_error(msg_id, "session_not_found"@)
    }
}

/// Logs the session `uuid` in with `private_key`, given what checking the
/// key against the store came to (`None` if the check could not be made).
///
/// If the key is right and the session is live, the session takes the
/// wallet's address and keeps the key, and the reply names the wallet. In
/// every other case nothing changes and the reply says no more than that the
/// session is a guest.
pub fn perform_login(
    server: &mut WebSocketServer,
    uuid: &u128,
    private_key: String,
    verification: Option<&VerifyResponse>,
    msg_id: Option<usize>,
) -> (r: WebSocketMessage)
    ensures
        final(server).tokens_view() == old(server).tokens_view(),
        login_post(
            old(server).sessions_view(),
            final(server).sessions_view(),
            *uuid,
            private_key,
            verification,
            msg_id,
            r,
        ),
{
    let guest = WebSocketMessageResponse::Login { is_guest: true, address: None };
    match verification {
        Some(response) => {
            if response.authed {
                let op = SessionOp::Login { address: response.model.address.clone(), private_key };
                if server.update_session(uuid, &op) {
                    WebSocketMessage::response(
                        msg_id,
                        WebSocketMessageResponse::Login {
                            is_guest: false,
                            address: Some(response.model.duplicate()),
                        },
                    )
                } else {
                    WebSocketMessage::response(msg_id, guest)
                }
            } else {
                WebSocketMessage::response(msg_id, guest)
            }
        },
        None => WebSocketMessage::response(msg_id, guest),
    }
}

/// Logs the session `uuid` out: it becomes a guest and forgets its key. A
/// session that is gone is answered with the error `session_not_found`.
pub fn perform_logout(server: &mut WebSocketServer, uuid: &u128, msg_id: Option<usize>) -> (r:
    WebSocketMessage)
    ensures
        final(server).tokens_view() == old(server).tokens_view(),
        logout_post(old(server).sessions_view(), final(server).sessions_view(), *uuid, msg_id, r),
{
    let op = SessionOp::Logout;
    if server.update_session(uuid, &op) {
        WebSocketMessage::response(msg_id, WebSocketMessageResponse::Logout { is_guest: true })
    } else {
        WebSocketMessage::error(msg_id, "session_not_found", "Session not found")
    }
}

} // verus!
