use vstd::prelude::*;

use crate::models::kromer::websockets::SessionCountResponse;
use crate::websockets::WebSocketServer;

verus! {

/// How many sockets are connected.
pub fn ws_session_get_count(server: &WebSocketServer) -> (r: SessionCountResponse)
    ensures
        r.count == server.sessions_view().dom().len(),
{
    SessionCountResponse { count: server.session_count() }
}

} // verus!
