//! The hub's concurrent collections, and what the verifier is told about
//! them. The contracts of the operations in this file are taken on trust from
//! the `scc` crate: each says what the crate's documentation says of the
//! method that the body calls, over the named content of the collection.

use vstd::prelude::*;

use crate::websockets::types::common::{
    SessionOp, SessionView, TokenView, WebSocketSessionData, WebSocketTokenData,
};

verus! {

/// The codes of the subscriptions that a session's set holds.
pub uninterp spec fn subscribed_codes(s: scc::HashSet<u8>) -> Set<u8>;

/// The live sessions of a hub, by connection id.
pub uninterp spec fn session_entries(m: scc::HashMap<u128, WebSocketSessionData>) -> Map<
    u128,
    SessionView,
>;

/// The hand-off tokens still waiting to be used, by token id.
pub uninterp spec fn token_entries(m: scc::HashMap<u128, WebSocketTokenData>) -> Map<
    u128,
    TokenView,
>;

/// `scc::HashSet::new`: a set that holds nothing.
#[verifier::external_body]
pub(crate) fn codes_new() -> (s: scc::HashSet<u8>)
    ensures
        subscribed_codes(s) == Set::<u8>::empty(),
{
    scc::HashSet::new()
}

/// `scc::HashSet::insert_sync`: the set gains `code`; the result tells
/// whether it was new.
#[verifier::external_body]
pub(crate) fn codes_insert(s: &mut scc::HashSet<u8>, code: u8) -> (added: bool)
    ensures
        subscribed_codes(*final(s)) == subscribed_codes(*old(s)).insert(code),
        added == !subscribed_codes(*old(s)).contains(code),
{
    s.insert_sync(code).is_ok()
}

/// `scc::HashSet::remove_sync`: the set loses `code`; the result tells
/// whether it was there.
#[verifier::external_body]
pub(crate) fn codes_remove(s: &mut scc::HashSet<u8>, code: u8) -> (removed: bool)
    ensures
        subscribed_codes(*final(s)) == subscribed_codes(*old(s)).remove(code),
        removed == subscribed_codes(*old(s)).contains(code),
{
    s.remove_sync(&code).is_some()
}

/// `scc::HashSet::contains_sync`: membership.
#[verifier::external_body]
pub(crate) fn codes_contains(s: &scc::HashSet<u8>, code: u8) -> (r: bool)
    ensures
        r == subscribed_codes(*s).contains(code),
{
    s.contains_sync(&code)
}

/// `scc::HashMap::with_capacity`: a map that holds nothing.
#[verifier::external_body]
pub(crate) fn sessions_with_capacity(capacity: usize) -> (m: scc::HashMap<
    u128,
    WebSocketSessionData,
>)
    ensures
        session_entries(m) == (Map::<u128, SessionView>::empty()),
{
    scc::HashMap::with_capacity(capacity)
}

/// `scc::HashMap::insert_sync`: the entry is added unless the key is held
/// already, in which case nothing changes.
#[verifier::external_body]
pub(crate) fn sessions_insert(
    m: &mut scc::HashMap<u128, WebSocketSessionData>,
    id: u128,
    data: WebSocketSessionData,
) -> (inserted: bool)
    ensures
        inserted == !session_entries(*old(m)).contains_key(id),
        inserted ==> session_entries(*final(m)) == session_entries(*old(m)).insert(id, data@),
        !inserted ==> session_entries(*final(m)) == session_entries(*old(m)),
{
    m.insert_sync(id, data).is_ok()
}

/// `scc::HashMap::remove_sync`: the entry leaves the map; the result tells
/// whether there was one.
#[verifier::external_body]
pub(crate) fn sessions_remove(m: &mut scc::HashMap<u128, WebSocketSessionData>, id: u128) -> (removed:
    bool)
    ensures
        removed == session_entries(*old(m)).contains_key(id),
        session_entries(*final(m)) == session_entries(*old(m)).remove(id),
{
    m.remove_sync(&id).is_some()
}

/// `scc::HashMap::update_sync`: if the key is held, its value is changed in
/// place by `WebSocketSessionData::apply`; otherwise nothing changes.
#[verifier::external_body]
pub(crate) fn sessions_update(
    m: &mut scc::HashMap<u128, WebSocketSessionData>,
    id: u128,
    op: &SessionOp,
) -> (found: bool)
    ensures
        found == session_entries(*old(m)).contains_key(id),
        found ==> session_entries(*final(m)) == session_entries(*old(m)).insert(
            id,
            session_entries(*old(m))[id].apply(*op),
        ),
        !found ==> session_entries(*final(m)) == session_entries(*old(m)),
{
    m.update_sync(&id, |_, v| v.apply(op)).is_some()
}

/// `scc::HashMap::read_sync`: a copy of the value under the key, made by
/// `WebSocketSessionData::duplicate`, if the key is held.
#[verifier::external_body]
pub(crate) fn sessions_read(m: &scc::HashMap<u128, WebSocketSessionData>, id: u128) -> (r: Option<
    WebSocketSessionData,
>)
    ensures
        r.is_some() == session_entries(*m).contains_key(id),
        r.is_some() ==> r.unwrap()@ == session_entries(*m)[id],
{
    m.read_sync(&id, |_, v| v.duplicate())
}

/// `scc::HashMap::iter_sync`: every key is visited, in an order the crate
/// does not fix, and once, since nobody resizes the map meanwhile: the hub
/// owns its map.
#[verifier::external_body]
pub(crate) fn sessions_ids(m: &scc::HashMap<u128, WebSocketSessionData>) -> (r: Vec<u128>)
    ensures
        r@.no_duplicates(),
        r@.to_set() == session_entries(*m).dom(),
{
    let mut out = Vec::new();
    m.iter_sync(|k, _| keep_id(&mut out, k));
    out
}

/// Notes down one key of a walk over a map, and asks for the next.
pub(crate) fn keep_id(out: &mut Vec<u128>, id: &u128) -> (more: bool)
    ensures
        more,
        final(out)@ == old(out)@.push(*id),
{
    out.push(*id);
    true
}

/// `scc::HashMap::with_capacity`: a map that holds nothing.
#[verifier::external_body]
pub(crate) fn tokens_with_capacity(capacity: usize) -> (m: scc::HashMap<u128, WebSocketTokenData>)
    ensures
        token_entries(m) == (Map::<u128, TokenView>::empty()),
{
    scc::HashMap::with_capacity(capacity)
}

/// `scc::HashMap::insert_sync`: the entry is added unless the key is held
/// already, in which case nothing changes and the value comes back.
#[verifier::external_body]
pub(crate) fn tokens_insert(
    m: &mut scc::HashMap<u128, WebSocketTokenData>,
    id: u128,
    data: WebSocketTokenData,
) -> (r: Result<(), WebSocketTokenData>)
    ensures
        r.is_ok() == !token_entries(*old(m)).contains_key(id),
        r.is_ok() ==> token_entries(*final(m)) == token_entries(*old(m)).insert(id, data@),
        r.is_err() ==> token_entries(*final(m)) == token_entries(*old(m)) && r.unwrap_err()@
            == data@,
{
    match m.insert_sync(id, data) {
        Ok(()) => Ok(()),
        Err((_, v)) => Err(v),
    }
}

/// `scc::HashMap::remove_sync`: the entry leaves the map and its value is
/// handed out, if there was one.
#[verifier::external_body]
pub(crate) fn tokens_remove(m: &mut scc::HashMap<u128, WebSocketTokenData>, id: u128) -> (r: Option<
    WebSocketTokenData,
>)
    ensures
        r.is_some() == token_entries(*old(m)).contains_key(id),
        r.is_some() ==> r.unwrap()@ == token_entries(*old(m))[id],
        token_entries(*final(m)) == token_entries(*old(m)).remove(id),
{
    m.remove_sync(&id).map(|kv| kv.1)
}

} // verus!
