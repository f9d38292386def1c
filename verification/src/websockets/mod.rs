pub mod errors;
pub mod handler;
pub mod maps;
pub mod routes;
pub mod types;
pub mod utils;

use vstd::prelude::*;

use crate::ids::fresh_uuid;
use crate::models::krist::websockets::{EventView, WebSocketEvent};
use crate::seqs::{lemma_push_contains, lemma_push_no_duplicates};
use crate::websockets::errors::WebSocketServerError;
use crate::websockets::maps::{
    session_entries, sessions_ids, sessions_insert, sessions_read, sessions_remove,
    sessions_update, sessions_with_capacity, token_entries, tokens_insert, tokens_remove,
    tokens_with_capacity,
};
use crate::websockets::types::common::{
    SessionOp, SessionView, TokenView, WebSocketSessionData, WebSocketSubscriptionType,
    WebSocketTokenData,
};

verus! {

/// Time between two heartbeats of a connection, in milliseconds.
pub const HEARTBEAT_INTERVAL: u64 = 5_000;

/// How long a connection may stay silent before it is dropped, in milliseconds.
pub const CLIENT_TIMEOUT: u64 = 10_000;

/// Lifetime of a hand-off token, in milliseconds.
pub const TOKEN_EXPIRATION: u64 = 30_000;

/// How many identifiers `obtain_token` draws before it gives up.
pub const TOKEN_DRAWS: u32 = 16;

/// The set of tokens once `data` is stored under a free `id`.
pub open spec fn spec_obtain(tokens: Map<u128, TokenView>, id: u128, data: TokenView) -> Map<
    u128,
    TokenView,
> {
    if tokens.contains_key(id) {
        tokens
    } else {
        tokens.insert(id, data)
    }
}

/// Whether every one of the drawn ids names a token that waits already.
pub open spec fn all_taken(tokens: Map<u128, TokenView>, draws: Seq<u128>) -> bool {
    forall|i: int| 0 <= i < draws.len() ==> tokens.contains_key(#[trigger] draws[i])
}

/// What using the token `id` yields, and the set of tokens afterwards.
pub open spec fn spec_use(tokens: Map<u128, TokenView>, id: u128) -> (
    Result<TokenView, WebSocketServerError>,
    Map<u128, TokenView>,
) {
    if tokens.contains_key(id) {
        (Ok(tokens[id]), tokens.remove(id))
    } else {
        (Err(WebSocketServerError::TokenNotFound), tokens)
    }
}

/// A token that was obtained can be used exactly once: the first use hands
/// back what was stored and takes the token away, and every later use fails
/// with `TokenNotFound`.
pub proof fn lemma_token_used_once(tokens: Map<u128, TokenView>, id: u128, data: TokenView)
    requires
        !tokens.contains_key(id),
    ensures
        ({
            let issued = spec_obtain(tokens, id, data);
            let (first, after_first) = spec_use(issued, id);
            let (second, after_second) = spec_use(after_first, id);
            &&& first == Ok::<TokenView, WebSocketServerError>(data)
            &&& after_first == tokens
            &&& second == Err::<TokenView, WebSocketServerError>(
                WebSocketServerError::TokenNotFound,
            )
            &&& after_second == tokens
        }),
{
    assert(tokens.insert(id, data).remove(id) =~= tokens);
}

/// The hub: every live WebSocket session and every token waiting for its
/// connection.
#[derive(Debug)]
pub struct WebSocketServer {
    pub sessions: scc::HashMap<u128, WebSocketSessionData>,
    pub pending_tokens: scc::HashMap<u128, WebSocketTokenData>,
}

impl Default for WebSocketServer {
    fn default() -> (r: Self)
        ensures
            r.sessions_view() == Map::<u128, SessionView>::empty(),
            r.tokens_view() == Map::<u128, TokenView>::empty(),
    {
        Self::new()
    }
}

impl WebSocketServer {
    /// The live sessions, by connection id.
    pub open spec fn sessions_view(&self) -> Map<u128, SessionView> {
        session_entries(self.sessions)
    }

    /// The tokens waiting to be used, by token id.
    pub open spec fn tokens_view(&self) -> Map<u128, TokenView> {
        token_entries(self.pending_tokens)
    }

    pub fn new() -> (r: Self)
        ensures
            r.sessions_view() == Map::<u128, SessionView>::empty(),
            r.tokens_view() == Map::<u128, TokenView>::empty(),
    {
        WebSocketServer {
            sessions: sessions_with_capacity(100),
            pending_tokens: tokens_with_capacity(50),
        }
    }

    /// Registers the connection `uuid` with the identity its token carried
    /// and the default subscriptions. A connection id that is live already
    /// keeps its session; the result tells whether the session was added.
    pub fn insert_session(&mut self, uuid: u128, data: WebSocketTokenData) -> (inserted: bool)
        ensures
            inserted == !old(self).sessions_view().contains_key(uuid),
            inserted ==> final(self).sessions_view() == old(self).sessions_view().insert(
                uuid,
                SessionView::fresh(data@),
            ),
            !inserted ==> final(self).sessions_view() == old(self).sessions_view(),
            final(self).tokens_view() == old(self).tokens_view(),
    {
        let session = WebSocketSessionData::from_token(data);
        sessions_insert(&mut self.sessions, uuid, session)
    }

    /// Forgets the connection `uuid`. Cleaning up twice is harmless; the
    /// result tells whether this call removed the session.
    pub fn cleanup_session(&mut self, uuid: &u128) -> (removed: bool)
        ensures
            removed == old(self).sessions_view().contains_key(*uuid),
            final(self).sessions_view() == old(self).sessions_view().remove(*uuid),
            final(self).tokens_view() == old(self).tokens_view(),
    {
        sessions_remove(&mut self.sessions, *uuid)
    }

    /// Stores `token_data` under `uuid` if that id is free, and hands it back
    /// if it is taken.
    pub fn obtain_token_as(&mut self, uuid: u128, token_data: WebSocketTokenData) -> (r: Result<
        (),
        WebSocketTokenData,
    >)
        ensures
            r.is_ok() == !old(self).tokens_view().contains_key(uuid),
            final(self).tokens_view() == spec_obtain(old(self).tokens_view(), uuid, token_data@),
            r.is_err() ==> r.unwrap_err()@ == token_data@,
            final(self).sessions_view() == old(self).sessions_view(),
    {
        tokens_insert(&mut self.pending_tokens, uuid, token_data)
    }

    /// Issues a hand-off token for `token_data` under a freshly drawn id,
    /// drawing again when the id is taken. The token is stored under the
    /// first drawn id that is free. Only if `TOKEN_DRAWS` ids in a row were
    /// all taken does it give up, and then it leaves the hub as it was; so a
    /// hub in which no token waits always issues one.
    ///
    /// The caller is expected to call [`Self::expire_token`] for the id once
    /// `TOKEN_EXPIRATION` has passed.
    pub fn obtain_token(&mut self, token_data: WebSocketTokenData) -> (r: Option<u128>)
        ensures
            match r {
                Some(uuid) => !old(self).tokens_view().contains_key(uuid)
                    && final(self).tokens_view() == old(self).tokens_view().insert(
                    uuid,
                    token_data@,
                ),
                None => final(self).tokens_view() == old(self).tokens_view() && exists|
                    draws: Seq<u128>,
                |
                    draws.len() == TOKEN_DRAWS && #[trigger] all_taken(
                        old(self).tokens_view(),
                        draws,
                    ),
            },
            (forall|id: u128| !old(self).tokens_view().contains_key(id)) ==> r.is_some(),
            final(self).sessions_view() == old(self).sessions_view(),
    {
        let mut data = token_data;
        let mut draws: u32 = 0;
        let ghost mut drawn: Seq<u128> = Seq::empty();
        while draws < TOKEN_DRAWS
            invariant
                draws <= TOKEN_DRAWS,
                data@ == token_data@,
                self.tokens_view() == old(self).tokens_view(),
                self.sessions_view() == old(self).sessions_view(),
                drawn.len() == draws,
                all_taken(old(self).tokens_view(), drawn),
            decreases TOKEN_DRAWS - draws,
        {
            let uuid = fresh_uuid();
            match self.obtain_token_as(uuid, data) {
                Ok(()) => {
                    return Some(uuid);
                },
                Err(back) => {
                    data = back;
                },
            }
            proof {
                let before = drawn;
                drawn = drawn.push(uuid);
                assert forall|i: int| 0 <= i < drawn.len() implies old(
                    self,
                ).tokens_view().contains_key(#[trigger] drawn[i]) by {
                    if i < before.len() {
                        assert(drawn[i] == before[i]);
                    }
                }
            }
            draws += 1;
        }
        proof {
            assert(old(self).tokens_view().contains_key(drawn[0]));
        }
        None
    }

    /// Takes the token `uuid`: the first use hands back what was stored, any
    /// later use finds nothing.
    pub fn use_token(&mut self, uuid: &u128) -> (r: Result<
        WebSocketTokenData,
        WebSocketServerError,
    >)
        ensures
            match r {
                Ok(data) => spec_use(old(self).tokens_view(), *uuid).0 == Ok::<
                    TokenView,
                    WebSocketServerError,
                >(data@),
                Err(e) => spec_use(old(self).tokens_view(), *uuid).0 == Err::<
                    TokenView,
                    WebSocketServerError,
                >(e),
            },
            final(self).tokens_view() == spec_use(old(self).tokens_view(), *uuid).1,
            final(self).sessions_view() == old(self).sessions_view(),
    {
        match tokens_remove(&mut self.pending_tokens, *uuid) {
            Some(data) => Ok(data),
            None => {
                assert(self.tokens_view() =~= old(self).tokens_view());
                Err(WebSocketServerError::TokenNotFound)
            },
        }
    }

    /// Drops the token `uuid` if nobody used it; the result tells whether it
    /// was still waiting.
    pub fn expire_token(&mut self, uuid: &u128) -> (expired: bool)
        ensures
            expired == old(self).tokens_view().contains_key(*uuid),
            final(self).tokens_view() == old(self).tokens_view().remove(*uuid),
            final(self).sessions_view() == old(self).sessions_view(),
    {
        tokens_remove(&mut self.pending_tokens, *uuid).is_some()
    }

    /// Applies one mutation to the session `uuid`, if it is live.
    pub fn update_session(&mut self, uuid: &u128, op: &SessionOp) -> (found: bool)
        ensures
            found == old(self).sessions_view().contains_key(*uuid),
            found ==> final(self).sessions_view() == old(self).sessions_view().insert(
                *uuid,
                old(self).sessions_view()[*uuid].apply(*op),
            ),
            !found ==> final(self).sessions_view() == old(self).sessions_view(),
            final(self).tokens_view() == old(self).tokens_view(),
    {
        sessions_update(&mut self.sessions, *uuid, op)
    }

    /// Adds `event` to the subscriptions of the session `uuid`. Subscribing
    /// twice changes nothing; a session that is gone is left alone.
    pub fn subscribe_to_event(&mut self, uuid: &u128, event: WebSocketSubscriptionType) -> (found:
        bool)
        ensures
            found == old(self).sessions_view().contains_key(*uuid),
            found ==> final(self).sessions_view() == old(self).sessions_view().insert(
                *uuid,
                old(self).sessions_view()[*uuid].apply(SessionOp::Subscribe(event)),
            ),
            !found ==> final(self).sessions_view() == old(self).sessions_view(),
            final(self).tokens_view() == old(self).tokens_view(),
    {
        let op = SessionOp::Subscribe(event);
        self.update_session(uuid, &op)
    }

    /// Removes `event` from the subscriptions of the session `uuid`.
    /// Unsubscribing twice changes nothing; a session that is gone is left
    /// alone.
    pub fn unsubscribe_from_event(&mut self, uuid: &u128, event: &WebSocketSubscriptionType) -> (found:
        bool)
        ensures
            found == old(self).sessions_view().contains_key(*uuid),
            found ==> final(self).sessions_view() == old(self).sessions_view().insert(
                *uuid,
                old(self).sessions_view()[*uuid].apply(SessionOp::Unsubscribe(*event)),
            ),
            !found ==> final(self).sessions_view() == old(self).sessions_view(),
            final(self).tokens_view() == old(self).tokens_view(),
    {
        let op = SessionOp::Unsubscribe(*event);
        self.update_session(uuid, &op)
    }

    /// The subscriptions of the session `uuid`, in no particular order;
    /// nothing for a session that is gone.
    pub fn get_subscription_list(&self, uuid: &u128) -> (r: Vec<WebSocketSubscriptionType>)
        ensures
            r@.no_duplicates(),
            r@.to_set() == if self.sessions_view().contains_key(*uuid) {
                self.sessions_view()[*uuid].subscriptions
            } else {
                Set::empty()
            },
    {
        match sessions_read(&self.sessions, *uuid) {
            Some(data) => data.subscription_list(),
            None => {
                let r: Vec<WebSocketSubscriptionType> = Vec::new();
                assert(r@.to_set() =~= Set::empty());
                r
            },
        }
    }

    /// A copy of the session `uuid`, if it is live.
    pub fn fetch_session_data(&self, uuid: &u128) -> (r: Option<WebSocketSessionData>)
        ensures
            r.is_some() == self.sessions_view().contains_key(*uuid),
            r.is_some() ==> r.unwrap()@ == self.sessions_view()[*uuid],
    {
        sessions_read(&self.sessions, *uuid)
    }

    /// Whether the live session `uuid` is to receive `event`.
    pub open spec fn is_target(&self, uuid: u128, event: EventView) -> bool {
        self.sessions_view().contains_key(uuid) && event.wanted_by(self.sessions_view()[uuid])
    }

    /// The connections that are to receive `event`: every live session that
    /// the broadcast filter lets through, each once, in no particular order.
    ///
    /// The caller writes to each of them and reports the ones whose write
    /// failed to [`Self::cleanup_failed`].
    pub fn broadcast_event(&self, event: &WebSocketEvent) -> (targets: Vec<u128>)
        ensures
            targets@.no_duplicates(),
            forall|uuid: u128| targets@.contains(uuid) <==> self.is_target(uuid, event@),
    {
        let ids = sessions_ids(&self.sessions);
        let mut targets: Vec<u128> = Vec::new();
        let mut i: usize = 0;
        while i < ids.len()
            invariant
                i <= ids.len(),
                ids@.no_duplicates(),
                ids@.to_set() == self.sessions_view().dom(),
                targets@.no_duplicates(),
                forall|uuid: u128|
                    targets@.contains(uuid) <==> ids@.take(i as int).contains(uuid)
                        && self.is_target(uuid, event@),
            decreases ids.len() - i,
        {
            let id = ids[i];
            let ghost before = targets@;
            proof {
                assert(ids@.to_set().contains(id));
                assert(ids@.take(i + 1) == ids@.take(i as int).push(id));
                lemma_push_contains(ids@.take(i as int), id);
                if ids@.take(i as int).contains(id) {
                    let j = choose|j: int| 0 <= j < i && ids@.take(i as int)[j] == id;
                    assert(ids@[j] == ids@[i as int]);
                }
            }
            let wanted = match sessions_read(&self.sessions, id) {
                Some(data) => data.wants(event),
                None => false,
            };
            if wanted {
                targets.push(id);
                proof {
                    lemma_push_contains(before, id);
                    lemma_push_no_duplicates(before, id);
                }
            }
            i += 1;
        }
        assert(ids@.take(ids.len() as int) == ids@);
        assert forall|uuid: u128| targets@.contains(uuid) <==> self.is_target(uuid, event@) by {
            if self.is_target(uuid, event@) {
                assert(ids@.to_set().contains(uuid));
            }
        }
        targets
    }

    /// The connections an unfiltered broadcast goes to: every live session,
    /// each once, in no particular order.
    pub fn broadcast(&self) -> (targets: Vec<u128>)
        ensures
            targets@.no_duplicates(),
            targets@.to_set() == self.sessions_view().dom(),
    {
        sessions_ids(&self.sessions)
    }

    /// Drops every session in `failed`: the connections whose write failed
    /// during a broadcast.
    pub fn cleanup_failed(&mut self, failed: &Vec<u128>)
        ensures
            final(self).sessions_view() == old(self).sessions_view().remove_keys(failed@.to_set()),
            final(self).tokens_view() == old(self).tokens_view(),
    {
        let mut i: usize = 0;
        assert(failed@.take(0).to_set() =~= Set::empty());
        assert(self.sessions_view() =~= old(self).sessions_view().remove_keys(Set::empty()));
        while i < failed.len()
            invariant
                i <= failed.len(),
                self.sessions_view() == old(self).sessions_view().remove_keys(
                    failed@.take(i as int).to_set(),
                ),
                self.tokens_view() == old(self).tokens_view(),
            decreases failed.len() - i,
        {
            let ghost before = self.sessions_view();
            self.cleanup_session(&failed[i]);
            proof {
                assert(failed@.take(i + 1) == failed@.take(i as int).push(failed@[i as int]));
                failed@.take(i as int).lemma_push_to_set_commute(failed@[i as int]);
                assert(before.remove(failed@[i as int]) =~= old(self).sessions_view().remove_keys(
                    failed@.take(i + 1).to_set(),
                ));
            }
            i += 1;
        }
        assert(failed@.take(failed.len() as int) == failed@);
    }

    /// How many sessions are live.
    pub fn session_count(&self) -> (r: usize)
        ensures
            r == self.sessions_view().dom().len(),
    {
        let ids = sessions_ids(&self.sessions);
        proof {
            ids@.unique_seq_to_set();
        }
        ids.len()
    }
}

} // verus!
