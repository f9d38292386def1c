//! Bearer sessions for the authenticated endpoints.
//!
//! A session is a random identifier bound to a wallet address for one hour.
//! Expired sessions are purged whenever one is touched, so callers never see
//! a session past its expiry whether or not anyone sweeps the registry.

use vstd::prelude::*;

use crate::clock::now_millis;
use crate::errors::auth::AuthError;
use crate::ids::{fresh_uuid, parse_uuid, uuid_from_text};
use crate::database::wallet::VerifyResponse;
use crate::text::str_eq;

verus! {

/// Lifetime of a bearer session, in milliseconds.
pub const SESSION_TTL: i64 = 3_600_000;

/// What the registry holds of one session.
pub ghost struct BearerSession {
    pub address: Seq<char>,
    pub expires_at: i64,
}

/// The sessions a registry holds, by session id.
pub uninterp spec fn bearer_entries(m: dashmap::DashMap<u128, (String, i64)>) -> Map<
    u128,
    BearerSession,
>;

/// `dashmap::DashMap::new`: a map that holds nothing.
#[verifier::external_body]
fn bearer_new() -> (m: dashmap::DashMap<u128, (String, i64)>)
    ensures
        bearer_entries(m) == (Map::<u128, BearerSession>::empty()),
{
    dashmap::DashMap::new()
}

/// `dashmap::DashMap::insert`: the entry is stored under the key, in place
/// of any entry that was there.
#[verifier::external_body]
fn bearer_insert(m: &mut dashmap::DashMap<u128, (String, i64)>, id: u128, addr: String, exp: i64)
    ensures
        bearer_entries(*final(m)) == bearer_entries(*old(m)).insert(
            id,
            BearerSession { address: addr@, expires_at: exp },
        ),
{
    m.insert(id, (addr, exp));
}

/// `dashmap::DashMap::remove`: the entry leaves the map and its address is
/// handed out, if there was one.
#[verifier::external_body]
fn bearer_remove(m: &mut dashmap::DashMap<u128, (String, i64)>, id: u128) -> (r: Option<String>)
    ensures
        r.is_some() == bearer_entries(*old(m)).contains_key(id),
        r.is_some() ==> r.unwrap()@ == bearer_entries(*old(m))[id].address,
        bearer_entries(*final(m)) == bearer_entries(*old(m)).remove(id),
{
    m.remove(&id).map(|kv| kv.1.0)
}

/// `dashmap::DashMap::get`: a copy of the entry under the key, if there is
/// one.
#[verifier::external_body]
fn bearer_get(m: &dashmap::DashMap<u128, (String, i64)>, id: u128) -> (r: Option<(String, i64)>)
    ensures
        r.is_some() == bearer_entries(*m).contains_key(id),
        r.is_some() ==> r.unwrap().0@ == bearer_entries(*m)[id].address && r.unwrap().1
            == bearer_entries(*m)[id].expires_at,
{
    m.get(&id).map(|e| (e.value().0.clone(), e.value().1))
}

/// `dashmap::DashMap::retain`: the entries for which `is_live` answers true
/// stay, the others are discarded.
#[verifier::external_body]
fn bearer_retain_live(m: &mut dashmap::DashMap<u128, (String, i64)>, now: i64)
    ensures
        bearer_entries(*final(m)) == spec_vacuum(bearer_entries(*old(m)), now),
{
    m.retain(|_, v| is_live(v.1, now));
}

/// When a session registered at `now` expires: an hour later, or at the end
/// of representable time if that comes first.
pub open spec fn spec_expiry(now: i64) -> i64 {
    if now + SESSION_TTL > i64::MAX {
        i64::MAX
    } else {
        (now + SESSION_TTL) as i64
    }
}

/// A session is usable strictly before its expiry.
pub open spec fn spec_is_live(expires_at: i64, now: i64) -> bool {
    now < expires_at
}

/// The registry once `address` is registered under `id` at `now`.
pub open spec fn spec_register(
    s: Map<u128, BearerSession>,
    id: u128,
    address: Seq<char>,
    now: i64,
) -> Map<u128, BearerSession> {
    s.insert(id, BearerSession { address, expires_at: spec_expiry(now) })
}

/// Whether `id` names a session that is usable at `now`.
pub open spec fn spec_session_exists(s: Map<u128, BearerSession>, id: u128, now: i64) -> bool {
    s.contains_key(id) && spec_is_live(s[id].expires_at, now)
}

/// The registry after `id` was touched at `now`: an expired session is gone.
pub open spec fn spec_touch(s: Map<u128, BearerSession>, id: u128, now: i64) -> Map<
    u128,
    BearerSession,
> {
    if s.contains_key(id) && !spec_is_live(s[id].expires_at, now) {
        s.remove(id)
    } else {
        s
    }
}

/// Whether the session `id` may act for `address` at `now`; `None` if there
/// is no usable session.
pub open spec fn spec_is_authed_addr(
    s: Map<u128, BearerSession>,
    id: u128,
    address: Seq<char>,
    now: i64,
) -> Option<bool> {
    if spec_session_exists(s, id, now) {
        Some(s[id].address == address)
    } else {
        None
    }
}

/// The address the session `id` stands for at `now`, if it is usable.
pub open spec fn spec_get_address(s: Map<u128, BearerSession>, id: u128, now: i64) -> Option<
    Seq<char>,
> {
    if spec_session_exists(s, id, now) {
        Some(s[id].address)
    } else {
        None
    }
}

/// The registry once every session that has expired at `now` is swept out.
pub open spec fn spec_vacuum(s: Map<u128, BearerSession>, now: i64) -> Map<u128, BearerSession> {
    s.restrict(Set::new(|id: u128| s.contains_key(id) && spec_is_live(s[id].expires_at, now)))
}

/// A registered session answers for as long as it lives and not a moment
/// longer: asked at any time `t`, the registry knows the session exactly when
/// `t` is before the expiry that `register` returned, and then tells
/// whether the address asked about is the registered one. No sweep is
/// needed for that, and the lazy purge does not disturb it.
pub proof fn lemma_session_ttl(
    s: Map<u128, BearerSession>,
    id: u128,
    address: Seq<char>,
    now: i64,
    probe: Seq<char>,
    t: i64,
)
    ensures
        ({
            let registered = spec_register(s, id, address, now);
            let expires_at = spec_expiry(now);
            &&& t < expires_at ==> spec_is_authed_addr(registered, id, probe, t) == Some(
                probe == address,
            )
            &&& t >= expires_at ==> spec_is_authed_addr(registered, id, probe, t).is_none()
            &&& t < expires_at ==> spec_touch(registered, id, t) == registered
            &&& t >= expires_at ==> !spec_touch(registered, id, t).contains_key(id)
        }),
{
}

/// Sweeping changes no answer: a session is known after a sweep at `now`
/// exactly when it was known before, for every later moment.
pub proof fn lemma_vacuum_keeps_answers(
    s: Map<u128, BearerSession>,
    now: i64,
    id: u128,
    probe: Seq<char>,
    t: i64,
)
    requires
        now <= t,
    ensures
        spec_is_authed_addr(spec_vacuum(s, now), id, probe, t) == spec_is_authed_addr(
            s,
            id,
            probe,
            t,
        ),
{
}

/// Whether a session that expires at `expires_at` is usable at `now`.
pub fn is_live(expires_at: i64, now: i64) -> (r: bool)
    ensures
        r == spec_is_live(expires_at, now),
{
    now < expires_at
}

/// When a session registered at `now` expires.
pub fn expiry(now: i64) -> (r: i64)
    ensures
        r == spec_expiry(now),
{
    if now > i64::MAX - SESSION_TTL {
        i64::MAX
    } else {
        now + SESSION_TTL
    }
}

/// The registry of bearer sessions.
#[derive(Debug)]
pub struct AuthSessions {
    sessions: dashmap::DashMap<u128, (String, i64)>,
}

impl View for AuthSessions {
    type V = Map<u128, BearerSession>;

    closed spec fn view(&self) -> Map<u128, BearerSession> {
        bearer_entries(self.sessions)
    }
}

impl Default for AuthSessions {
    fn default() -> (r: Self)
        ensures
            r@ == Map::<u128, BearerSession>::empty(),
    {
        Self::new()
    }
}

impl AuthSessions {
    /// A registry without sessions.
    pub fn new() -> (r: Self)
        ensures
            r@ == Map::<u128, BearerSession>::empty(),
    {
        AuthSessions { sessions: bearer_new() }
    }

    /// Removes the sessions that have expired at `now`.
    pub fn vacuum_at(&mut self, now: i64)
        ensures
            final(self)@ == spec_vacuum(old(self)@, now),
    {
        bearer_retain_live(&mut self.sessions, now);
    }

    /// Removes expired sessions.
    pub fn vacuum(&mut self)
        ensures
            exists|now: i64| final(self)@ == spec_vacuum(old(self)@, now),
    {
        let now = now_millis();
        self.vacuum_at(now);
    }

    /// Registers `addr` under the session id `id` at `now`, and returns the
    /// id with the session's expiry.
    pub fn register_as(&mut self, id: u128, addr: String, now: i64) -> (r: (u128, i64))
        ensures
            r == (id, spec_expiry(now)),
            final(self)@ == spec_register(old(self)@, id, addr@, now),
    {
        let exp = expiry(now);
        bearer_insert(&mut self.sessions, id, addr, exp);
        (id, exp)
    }

    /// Registers a new session. `addr` is expected to be a valid address.
    pub fn register(&mut self, addr: String) -> (r: (u128, i64))
        ensures
            exists|now: i64|
                r.1 == spec_expiry(now) && final(self)@ == spec_register(
                    old(self)@,
                    r.0,
                    addr@,
                    now,
                ),
    {
        let id = fresh_uuid();
        let now = now_millis();
        self.register_as(id, addr, now)
    }

    /// Registers a new session for the wallet that a private key was checked
    /// against. `verification` is the outcome of that check; `None` stands
    /// for a check that could not be made.
    pub fn register_pk(&mut self, verification: Option<&VerifyResponse>) -> (r: Result<
        (u128, i64, String),
        AuthError,
    >)
        ensures
            match r {
                Ok((id, exp, address)) => {
                    &&& verification.is_some() && verification.unwrap().authed
                    &&& address@ == verification.unwrap().model.address@
                    &&& exists|now: i64|
                        exp == spec_expiry(now) && final(self)@ == spec_register(
                            old(self)@,
                            id,
                            address@,
                            now,
                        )
                },
                Err(e) => {
                    &&& e == AuthError::InvalidSession
                    &&& !(verification.is_some() && verification.unwrap().authed)
                    &&& final(self)@ == old(self)@
                },
            },
    {
        match verification {
            Some(res) => {
                if res.authed {
                    let (id, exp) = self.register(res.model.address.clone());
                    Ok((id, exp, res.model.address.clone()))
                } else {
                    Err(AuthError::InvalidSession)
                }
            },
            None => Err(AuthError::InvalidSession),
        }
    }

    /// Revokes a session, returning the address it stood for.
    pub fn revoke(&mut self, id: u128) -> (r: Result<String, AuthError>)
        ensures
            match r {
                Ok(address) => old(self)@.contains_key(id) && address@ == old(self)@[id].address,
                Err(e) => !old(self)@.contains_key(id) && e == AuthError::InvalidSession,
            },
            final(self)@ == old(self)@.remove(id),
    {
        match bearer_remove(&mut self.sessions, id) {
            Some(address) => Ok(address),
            None => Err(AuthError::InvalidSession),
        }
    }

    /// Checks at `now` whether the session `id` may act for `addr`. `None`
    /// if `id` is not a usable session; an expired one is purged.
    pub fn is_authed_addr_at(&mut self, id: u128, addr: &str, now: i64) -> (r: Option<bool>)
        ensures
            r == spec_is_authed_addr(old(self)@, id, addr@, now),
            final(self)@ == spec_touch(old(self)@, id, now),
    {
        match bearer_get(&self.sessions, id) {
            None => None,
            Some((actual_addr, exp)) => {
                if !is_live(exp, now) {
                    bearer_remove(&mut self.sessions, id);
                    None
                } else {
                    Some(str_eq(addr, actual_addr.as_str()))
                }
            },
        }
    }

    /// Checks if a given id is authorized to operate on an address. Returns
    /// `None` if `id` is not an active session.
    pub fn is_authed_addr(&mut self, id: u128, addr: &str) -> (r: Option<bool>)
        ensures
            exists|now: i64|
                r == spec_is_authed_addr(old(self)@, id, addr@, now) && final(self)@ == spec_touch(
                    old(self)@,
                    id,
                    now,
                ),
    {
        let now = now_millis();
        self.is_authed_addr_at(id, addr, now)
    }

    /// The address the session `id` stands for at `now`; an expired session
    /// is purged.
    pub fn get_address_at(&mut self, id: u128, now: i64) -> (r: Option<String>)
        ensures
            r.deep_view() == spec_get_address(old(self)@, id, now),
            final(self)@ == spec_touch(old(self)@, id, now),
    {
        match bearer_get(&self.sessions, id) {
            None => None,
            Some((actual_addr, exp)) => {
                if !is_live(exp, now) {
                    bearer_remove(&mut self.sessions, id);
                    None
                } else {
                    Some(actual_addr)
                }
            },
        }
    }

    /// The address the session `id` stands for, if it is active.
    pub fn get_address(&mut self, id: u128) -> (r: Option<String>)
        ensures
            exists|now: i64|
                r.deep_view() == spec_get_address(old(self)@, id, now) && final(self)@
                    == spec_touch(old(self)@, id, now),
    {
        let now = now_millis();
        self.get_address_at(id, now)
    }

    /// Whether `id` is a usable session at `now`; an expired one is purged.
    pub fn session_exists_at(&mut self, id: u128, now: i64) -> (r: bool)
        ensures
            r == spec_session_exists(old(self)@, id, now),
            final(self)@ == spec_touch(old(self)@, id, now),
    {
        match bearer_get(&self.sessions, id) {
            None => false,
            Some((_, exp)) => {
                if !is_live(exp, now) {
                    bearer_remove(&mut self.sessions, id);
                    false
                } else {
                    true
                }
            },
        }
    }

    /// Whether `id` is an active session.
    pub fn session_exists(&mut self, id: u128) -> (r: bool)
        ensures
            exists|now: i64|
                r == spec_session_exists(old(self)@, id, now) && final(self)@ == spec_touch(
                    old(self)@,
                    id,
                    now,
                ),
    {
        let now = now_millis();
        self.session_exists_at(id, now)
    }
}

/// What a bearer credential is worth at `now`: `parsed` is what the token
/// text spelled, `None` where the request carried no credential at all.
pub open spec fn spec_admit(
    s: Map<u128, BearerSession>,
    parsed: Option<Option<u128>>,
    now: i64,
) -> Result<u128, AuthError> {
    match parsed {
        None => Err(AuthError::MissingBearer),
        Some(None) => Err(AuthError::InvalidSession),
        Some(Some(id)) => if spec_session_exists(s, id, now) {
            Ok(id)
        } else {
            Err(AuthError::InvalidSession)
        },
    }
}

/// The registry after a credential was checked at `now`.
pub open spec fn spec_admit_touch(
    s: Map<u128, BearerSession>,
    parsed: Option<Option<u128>>,
    now: i64,
) -> Map<u128, BearerSession> {
    match parsed {
        Some(Some(id)) => spec_touch(s, id, now),
        _ => s,
    }
}

/// Decides at `now` what a bearer credential is worth once its text was
/// read: `parsed` is `None` where the request carried no credential, and
/// holds what the token spelled otherwise.
pub fn admit_bearer(sessions: &mut AuthSessions, parsed: Option<Option<u128>>, now: i64) -> (r:
    Result<u128, AuthError>)
    ensures
        r == spec_admit(old(sessions)@, parsed, now),
        final(sessions)@ == spec_admit_touch(old(sessions)@, parsed, now),
{
    match parsed {
        None => Err(AuthError::MissingBearer),
        Some(None) => Err(AuthError::InvalidSession),
        Some(Some(id)) => {
            if sessions.session_exists_at(id, now) {
                Ok(id)
            } else {
                Err(AuthError::InvalidSession)
            }
        },
    }
}

/// What the token text of a credential spells.
pub open spec fn spec_read_bearer(token: Option<&str>) -> Option<Option<u128>> {
    match token {
        None => None,
        Some(text) => Some(uuid_from_text(text@)),
    }
}

/// Checks the bearer token of a request at `now` and names the session it
/// belongs to.
pub fn check_bearer_at(sessions: &mut AuthSessions, token: Option<&str>, now: i64) -> (r: Result<
    u128,
    AuthError,
>)
    ensures
        r == spec_admit(
            old(sessions)@,
            spec_read_bearer(token),
            now,
        ),
        final(sessions)@ == spec_admit_touch(
            old(sessions)@,
            spec_read_bearer(token),
            now,
        ),
{
    let parsed = match token {
        None => None,
        Some(text) => Some(parse_uuid(text)),
    };
    admit_bearer(sessions, parsed, now)
}

/// Checks the bearer token of a request and names the session it belongs to.
pub fn check_bearer(sessions: &mut AuthSessions, token: Option<&str>) -> (r: Result<
    u128,
    AuthError,
>)
    ensures
        exists|now: i64|
            r == #[trigger] spec_admit(
                old(sessions)@,
                spec_read_bearer(token),
                now,
            ) && final(sessions)@ == spec_admit_touch(
                old(sessions)@,
                spec_read_bearer(token),
                now,
            ),
{
    let now = now_millis();
    check_bearer_at(sessions, token, now)
}

/// What ending the session behind a credential comes to at `now`: the
/// address the session stood for, or why there was no session to end.
pub open spec fn spec_logout(
    s: Map<u128, BearerSession>,
    parsed: Option<Option<u128>>,
    now: i64,
) -> Result<Seq<char>, AuthError> {
    match spec_admit(s, parsed, now) {
        Ok(id) => Ok(s[id].address),
        Err(e) => Err(e),
    }
}

/// The registry after the session behind a credential was ended at `now`.
pub open spec fn spec_logout_touch(
    s: Map<u128, BearerSession>,
    parsed: Option<Option<u128>>,
    now: i64,
) -> Map<u128, BearerSession> {
    match spec_admit(s, parsed, now) {
        Ok(id) => s.remove(id),
        Err(_) => spec_admit_touch(s, parsed, now),
    }
}

/// Ends at `now` the session that the bearer token of a request names, and
/// returns the address it stood for.
pub fn logout_at(sessions: &mut AuthSessions, token: Option<&str>, now: i64) -> (r: Result<
    String,
    AuthError,
>)
    ensures
        match r {
            Ok(address) => spec_logout(old(sessions)@, spec_read_bearer(token), now) == Ok::<
                Seq<char>,
                AuthError,
            >(address@),
            Err(e) => spec_logout(old(sessions)@, spec_read_bearer(token), now) == Err::<
                Seq<char>,
                AuthError,
            >(e),
        },
        final(sessions)@ == spec_logout_touch(old(sessions)@, spec_read_bearer(token), now),
{
    let id = match check_bearer_at(sessions, token, now) {
        Ok(id) => id,
        Err(e) => {
            return Err(e);
        },
    };
    sessions.revoke(id)
}

} // verus!
