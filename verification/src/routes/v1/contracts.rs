//! Contracts: what a request to create, read or change one must satisfy, and
//! what a change does.
//!
//! The endpoints themselves read and write the store; they hand what they
//! read to the functions here and store what comes back.

use vstd::prelude::*;

use vstd::string::StrSliceExecFns;

use crate::auth::{
    check_bearer_at, spec_admit, spec_admit_touch, spec_is_authed_addr, spec_read_bearer,
    AuthSessions, BearerSession,
};
use crate::clock::now_millis;
use crate::cron::{cron_next_after, next_occurrence};
use crate::errors::auth::AuthError;
use crate::errors::subs::SubsError;
use crate::errors::KromerError;
use crate::models::kromer::subs::{
    ContractCreateRequest, ContractInfo, ContractStatus, ContractView, UpdateContractRequest,
};
use crate::models::kromer::Patch;
use crate::text::str_eq;
use crate::utils::validation::{is_valid_kromer_address, spec_valid_address};

verus! {

/// The shortest and the longest a contract's title can be, in characters.
pub const TITLE_MIN: usize = 1;

pub const TITLE_MAX: usize = 64;

/// The longest a contract's description can be, in characters.
pub const DESCRIPTION_MAX: usize = 500;

/// How many entries a listing returns when the request does not say.
pub const DEFAULT_PAGE: i64 = 50;

/// How many entries a listing returns at most.
pub const MAX_PAGE: i64 = 500;

/// Whether the length of `s`, in characters, is between `min` and `max`.
pub open spec fn spec_validate_length(s: Seq<char>, min: usize, max: usize) -> bool {
    min <= s.len() <= max
}

/// Whether the length of `s`, in characters, is between `min` and `max`.
pub fn validate_length(s: &str, min: usize, max: usize) -> (r: bool)
    ensures
        r == spec_validate_length(s@, min, max),
{
    let s_len = s.unicode_len();
    s_len >= min && s_len <= max
}

/// The position of the first entry of an allow list that is not an address.
pub open spec fn first_invalid(list: Seq<Seq<char>>) -> Option<int>
    decreases list.len(),
{
    if list.len() == 0 {
        None
    } else {
        match first_invalid(list.drop_last()) {
            Some(i) => Some(i),
            None => if spec_valid_address(list.last()) {
                None
            } else {
                Some(list.len() - 1)
            },
        }
    }
}

/// What `first_invalid` finds: an entry that is not an address, before
/// which every entry is one.
pub proof fn lemma_first_invalid(list: Seq<Seq<char>>)
    ensures
        match first_invalid(list) {
            Some(i) => 0 <= i < list.len() && !spec_valid_address(list[i]) && forall|j: int|
                0 <= j < i ==> spec_valid_address(#[trigger] list[j]),
            None => forall|j: int| 0 <= j < list.len() ==> spec_valid_address(#[trigger] list[j]),
        },
    decreases list.len(),
{
    if list.len() > 0 {
        lemma_first_invalid(list.drop_last());
        assert forall|j: int| 0 <= j < list.len() - 1 implies list.drop_last()[j] == list[j] by {}
        match first_invalid(list) {
            Some(i) => {
                assert forall|j: int| 0 <= j < i implies spec_valid_address(
                    #[trigger] list[j],
                ) by {
                    assert(list.drop_last()[j] == list[j]);
                }
            },
            None => {
                assert forall|j: int| 0 <= j < list.len() implies spec_valid_address(
                    #[trigger] list[j],
                ) by {
                    if j < list.len() - 1 {
                        assert(list.drop_last()[j] == list[j]);
                    }
                }
            },
        }
    }
}

/// What checking an allow list comes to: no list and a list of addresses
/// pass, any other list fails at its first entry that is not an address.
pub open spec fn spec_validate_allow_list(list: Option<Seq<Seq<char>>>) -> Result<(), SubsError> {
    match list {
        None => Ok(()),
        Some(l) => match first_invalid(l) {
            Some(i) => Err(SubsError::InvalidAllowList(i as usize)),
            None => Ok(()),
        },
    }
}

/// Checks that every entry of an allow list is an address.
pub fn validate_allow_list(list: Option<&[String]>) -> (r: Result<(), SubsError>)
    ensures
        r == spec_validate_allow_list(
            match list {
                Some(l) => Some(l.deep_view()),
                None => None,
            },
        ),
{
    match list {
        None => Ok(()),
        Some(l) => {
            let ghost texts = l.deep_view();
            let mut i: usize = 0;
            while i < l.len()
                invariant
                    i <= l.len(),
                    list == Some(l),
                    texts == l.deep_view(),
                    first_invalid(texts.take(i as int)).is_none(),
                decreases l.len() - i,
            {
                proof {
                    assert(texts.take(i + 1).drop_last() == texts.take(i as int));
                    assert(texts.take(i + 1).last() == l[i as int]@);
                }
                if !is_valid_kromer_address(l[i].as_str()) {
                    proof {
                        assert(first_invalid(texts.take(i + 1)) == Some(i as int));
                        lemma_first_invalid_extends(texts, i as int + 1);
                    }
                    return Err(SubsError::InvalidAllowList(i));
                }
                i += 1;
            }
            assert(texts.take(l.len() as int) == texts);
            Ok(())
        },
    }
}

/// An entry that is the first not to be an address in the beginning of a
/// list is so in the whole list.
proof fn lemma_first_invalid_extends(list: Seq<Seq<char>>, k: int)
    requires
        0 <= k <= list.len(),
        first_invalid(list.take(k)).is_some(),
    ensures
        first_invalid(list) == first_invalid(list.take(k)),
    decreases list.len(),
{
    if k == list.len() {
        assert(list.take(k) == list);
    } else {
        assert(list.drop_last().take(k) == list.take(k));
        lemma_first_invalid_extends(list.drop_last(), k);
    }
}

/// Whether a cron expression can be scheduled from `now`: it parses, and a
/// next time it matches is found.
pub open spec fn spec_cron_valid(expr: Seq<char>, now: i64) -> bool {
    cron_next_after(expr, now).is_some()
}

/// Checks at `now` that a cron expression parses and yields a next time.
pub fn validate_cron_expr_at(s: &str, now: i64) -> (r: Result<(), SubsError>)
    ensures
        r == if spec_cron_valid(s@, now) {
            Ok::<(), SubsError>(())
        } else {
            Err::<(), SubsError>(SubsError::InvalidCronExpr)
        },
{
    match next_occurrence(s, now) {
        Some(_) => Ok(()),
        None => Err(SubsError::InvalidCronExpr),
    }
}

/// Checks that a cron expression parses and yields a next time from now.
pub fn validate_cron_expr(s: &str) -> (r: Result<(), SubsError>)
    ensures
        exists|now: i64|
            r == if #[trigger] spec_cron_valid(s@, now) {
                Ok::<(), SubsError>(())
            } else {
                Err::<(), SubsError>(SubsError::InvalidCronExpr)
            },
{
    let now = now_millis();
    validate_cron_expr_at(s, now)
}

/// Mathematical content of a [`ContractCreateRequest`].
pub ghost struct CreateRequestView {
    pub title: Seq<char>,
    pub description: Option<Seq<char>>,
    pub price: i64,
    pub cron_expr: Seq<char>,
    pub max_subscribers: Option<i32>,
    pub allow_list: Option<Seq<Seq<char>>>,
}

/// The content of a request to create a contract.
pub open spec fn create_view(body: &ContractCreateRequest) -> CreateRequestView {
    CreateRequestView {
        title: body.title@,
        description: body.description.deep_view(),
        price: body.price,
        cron_expr: body.cron_expr@,
        max_subscribers: body.max_subscribers,
        allow_list: body.allow_list.deep_view(),
    }
}

/// What checking a request to create a contract comes to, where
/// `cron_valid` tells whether its schedule can be scheduled. The first
/// failing check decides: title, description, schedule, allow list, price,
/// number of subscribers.
pub open spec fn spec_validate_body(body: CreateRequestView, cron_valid: bool) -> Result<
    (),
    SubsError,
> {
    if !spec_validate_length(body.title, TITLE_MIN, TITLE_MAX) {
        Err(SubsError::TitleLength)
    } else if body.description.is_some() && !spec_validate_length(
        body.description.unwrap(),
        0,
        DESCRIPTION_MAX,
    ) {
        Err(SubsError::InvalidDescription)
    } else if !cron_valid {
        Err(SubsError::InvalidCronExpr)
    } else if spec_validate_allow_list(body.allow_list).is_err() {
        spec_validate_allow_list(body.allow_list)
    } else if body.price <= 0 {
        Err(SubsError::InvalidPrice)
    } else if body.max_subscribers.is_some() && body.max_subscribers.unwrap() < 0 {
        Err(SubsError::InvalidMaxSubscribers)
    } else {
        Ok(())
    }
}

/// Checks a request to create a contract, where `cron_valid` tells whether
/// its schedule can be scheduled.
pub fn validate_body_with(body: &ContractCreateRequest, cron_valid: bool) -> (r: Result<
    (),
    SubsError,
>)
    ensures
        r == spec_validate_body(create_view(body), cron_valid),
{
    if !validate_length(body.title.as_str(), TITLE_MIN, TITLE_MAX) {
        return Err(SubsError::TitleLength);
    }
    match &body.description {
        Some(desc) => {
            if !validate_length(desc.as_str(), 0, DESCRIPTION_MAX) {
                return Err(SubsError::InvalidDescription);
            }
        },
        None => {},
    }
    if !cron_valid {
        return Err(SubsError::InvalidCronExpr);
    }
    let allow_list: Option<&[String]> = match &body.allow_list {
        Some(l) => Some(l.as_slice()),
        None => None,
    };
    match validate_allow_list(allow_list) {
        Err(e) => {
            return Err(e);
        },
        Ok(()) => {},
    }
    if body.price <= 0 {
        return Err(SubsError::InvalidPrice);
    }
    match body.max_subscribers {
        Some(n) => {
            if n < 0 {
                return Err(SubsError::InvalidMaxSubscribers);
            }
        },
        None => {},
    }
    Ok(())
}

/// Checks at `now` a request to create a contract.
pub fn validate_body(body: &ContractCreateRequest, now: i64) -> (r: Result<(), SubsError>)
    ensures
        r == spec_validate_body(create_view(body), spec_cron_valid(body.cron_expr@, now)),
{
    let cron_valid = validate_cron_expr_at(body.cron_expr.as_str(), now).is_ok();
    validate_body_with(body, cron_valid)
}

/// Mathematical content of an [`UpdateContractRequest`].
pub ghost struct UpdateView {
    pub title: Option<Seq<char>>,
    pub description: Patch<Seq<char>>,
    pub status: Option<ContractStatus>,
    pub price: Option<i64>,
    pub cron_expr: Option<Seq<char>>,
    pub max_subscribers: Patch<i32>,
    pub allow_list: Patch<Seq<Seq<char>>>,
}

/// The content of a request to change a contract.
pub open spec fn update_view(body: &UpdateContractRequest) -> UpdateView {
    UpdateView {
        title: body.title.deep_view(),
        description: match body.description {
            Patch::Value(d) => Patch::Value(d@),
            Patch::Unset => Patch::Unset,
            Patch::Null => Patch::Null,
        },
        status: body.status,
        price: body.price,
        cron_expr: body.cron_expr.deep_view(),
        max_subscribers: body.max_subscribers,
        allow_list: match body.allow_list {
            Patch::Value(l) => Patch::Value(l.deep_view()),
            Patch::Unset => Patch::Unset,
            Patch::Null => Patch::Null,
        },
    }
}

/// The first reason to refuse a change, if there is one, where `cron_valid`
/// tells whether the new schedule can be scheduled. The fields are checked in
/// this order: title, description, price, schedule, allow list, number of
/// subscribers. A schedule that is the one the contract has is not checked.
pub open spec fn spec_patch_error(contract: ContractView, body: UpdateView, cron_valid: bool)
    -> Option<SubsError> {
    if body.title.is_some() && !spec_validate_length(body.title.unwrap(), TITLE_MIN, TITLE_MAX) {
        Some(SubsError::TitleLength)
    } else if body.description.spec_value().is_some() && !spec_validate_length(
        body.description.spec_value().unwrap(),
        0,
        DESCRIPTION_MAX,
    ) {
        Some(SubsError::InvalidDescription)
    } else if body.price.is_some() && body.price.unwrap() <= 0 {
        Some(SubsError::InvalidPrice)
    } else if body.cron_expr.is_some() && body.cron_expr.unwrap() != contract.cron_expr
        && !cron_valid {
        Some(SubsError::InvalidCronExpr)
    } else if body.allow_list.spec_value().is_some() && first_invalid(
        body.allow_list.spec_value().unwrap(),
    ).is_some() {
        Some(
            SubsError::InvalidAllowList(
                first_invalid(body.allow_list.spec_value().unwrap()).unwrap() as usize,
            ),
        )
    } else if body.max_subscribers.spec_value().is_some() && body.max_subscribers.spec_value().unwrap()
        < 0 {
        Some(SubsError::InvalidMaxSubscribers)
    } else {
        None
    }
}

/// The contract once a change that passed its checks is made at `now`.
/// Fields that the request leaves out stay; nullable fields that it sets to
/// `null` are cleared.
pub open spec fn spec_patched(contract: ContractView, body: UpdateView, now: i64) -> ContractView {
    ContractView {
        contract_id: contract.contract_id,
        address: contract.address,
        status: match body.status {
            Some(s) => s,
            None => contract.status,
        },
        title: match body.title {
            Some(t) => t,
            None => contract.title,
        },
        description: body.description.spec_apply(contract.description),
        price: match body.price {
            Some(p) => p,
            None => contract.price,
        },
        cron_expr: match body.cron_expr {
            Some(c) => c,
            None => contract.cron_expr,
        },
        max_subscribers: body.max_subscribers.spec_apply(contract.max_subscribers),
        allow_list: body.allow_list.spec_apply(contract.allow_list),
        created_at: contract.created_at,
        updated_at: now,
    }
}

/// Whether a change concerns the scheduler: the contract was closed or
/// canceled, or its price or its schedule is a new one.
pub open spec fn spec_reschedules(contract: ContractView, body: UpdateView) -> bool {
    ||| body.status == Some(ContractStatus::Closed)
    ||| body.status == Some(ContractStatus::Canceled)
    ||| (body.price.is_some() && body.price.unwrap() != contract.price)
    ||| (body.cron_expr.is_some() && body.cron_expr.unwrap() != contract.cron_expr)
}

/// Makes the change `body` to `contract` at `now`, where `cron_valid` tells
/// whether the schedule in `body`, if it has one, can be scheduled. Returns
/// the contract as it is to be stored, and whether the scheduler is to be
/// told.
pub fn apply_patch(
    contract: ContractInfo,
    body: UpdateContractRequest,
    cron_valid: bool,
    now: i64,
) -> (r: Result<(ContractInfo, bool), SubsError>)
    ensures
        match r {
            Ok((patched, reschedules)) => {
                &&& spec_patch_error(contract@, update_view(&body), cron_valid).is_none()
                &&& patched@ == spec_patched(contract@, update_view(&body), now)
                &&& reschedules == spec_reschedules(contract@, update_view(&body))
            },
            Err(e) => spec_patch_error(contract@, update_view(&body), cron_valid) == Some(e),
        },
{
    let mut contract_info = contract;
    let mut update_subscribers = false;
    let ghost before = contract_info@;
    match body.title {
        Some(title) => {
            if validate_length(title.as_str(), TITLE_MIN, TITLE_MAX) {
                contract_info.title = title;
            } else {
                return Err(SubsError::TitleLength);
            }
        },
        None => {},
    }
    match body.description {
        Patch::Value(desc) => {
            if validate_length(desc.as_str(), 0, DESCRIPTION_MAX) {
                contract_info.description = Some(desc);
            } else {
                return Err(SubsError::InvalidDescription);
            }
        },
        Patch::Null => {
            contract_info.description = None;
        },
        Patch::Unset => {},
    }
    match body.status {
        Some(status) => {
            contract_info.status = status;
            if status == ContractStatus::Closed || status == ContractStatus::Canceled {
                update_subscribers = true;
            }
        },
        None => {},
    }
    match body.price {
        Some(price) => {
            if price > 0 {
                if price != contract_info.price {
                    update_subscribers = true;
                    contract_info.price = price;
                }
            } else {
                return Err(SubsError::InvalidPrice);
            }
        },
        None => {},
    }
    match body.cron_expr {
        Some(s) => {
            if !str_eq(s.as_str(), contract_info.cron_expr.as_str()) {
                if !cron_valid {
                    return Err(SubsError::InvalidCronExpr);
                }
                contract_info.cron_expr = s;
                update_subscribers = true;
            }
        },
        None => {},
    }
    match body.allow_list {
        Patch::Value(list) => {
            match validate_allow_list(Some(list.as_slice())) {
                Err(e) => {
                    return Err(e);
                },
                Ok(()) => {},
            }
            contract_info.allow_list = Some(list);
        },
        Patch::Null => {
            contract_info.allow_list = None;
        },
        Patch::Unset => {},
    }
    match body.max_subscribers {
        Patch::Value(max_subs) => {
            if max_subs >= 0 {
                contract_info.max_subscribers = Some(max_subs);
            } else {
                return Err(SubsError::InvalidMaxSubscribers);
            }
        },
        Patch::Null => {
            contract_info.max_subscribers = None;
        },
        Patch::Unset => {},
    }
    contract_info.updated_at = now;
    Ok((contract_info, update_subscribers))
}

/// Whether a request to change a contract names no field to change. A
/// request that only sets the status counts as empty.
pub open spec fn spec_is_empty(body: UpdateView) -> bool {
    &&& body.title.is_none()
    &&& body.description is Unset
    &&& body.price.is_none()
    &&& body.cron_expr.is_none()
    &&& body.max_subscribers is Unset
    &&& body.allow_list is Unset
}

/// What a request to change the contract `contract_id` comes to at `now`.
///
/// `parsed` is what the bearer token of the request spelled, `stored` the
/// contract as the store holds it, and `cron_valid` tells whether the new
/// schedule, if there is one, can be scheduled. The checks are made in this
/// order: the request names a field; the bearer token names a live session;
/// the id is not negative; the contract exists; the session's wallet owns
/// it; the new values are good.
pub open spec fn spec_patch_contract(
    sessions: Map<u128, BearerSession>,
    parsed: Option<Option<u128>>,
    contract_id: i32,
    stored: Option<ContractView>,
    body: UpdateView,
    cron_valid: bool,
    now: i64,
) -> Result<(ContractView, bool), KromerError> {
    if spec_is_empty(body) {
        Err(KromerError::Subs(SubsError::EmptyContractUpdate))
    } else {
        match spec_admit(sessions, parsed, now) {
            Err(e) => Err(KromerError::Auth(e)),
            Ok(session) => if contract_id < 0 {
                Err(KromerError::Subs(SubsError::InvalidId(contract_id)))
            } else {
                match stored {
                    None => Err(KromerError::Subs(SubsError::ContractNotFound(contract_id))),
                    Some(contract) => match spec_is_authed_addr(
                        spec_admit_touch(sessions, parsed, now),
                        session,
                        contract.address,
                        now,
                    ) {
                        None => Err(KromerError::Auth(AuthError::InvalidSession)),
                        Some(false) => Err(KromerError::Auth(AuthError::Unauthorized)),
                        Some(true) => match spec_patch_error(contract, body, cron_valid) {
                            Some(e) => Err(KromerError::Subs(e)),
                            None => Ok(
                                (spec_patched(contract, body, now), spec_reschedules(contract, body)),
                            ),
                        },
                    },
                }
            },
        }
    }
}

/// The sessions after a request to change a contract was looked at: the
/// bearer token was checked unless the request was empty.
pub open spec fn spec_patch_touch(
    sessions: Map<u128, BearerSession>,
    parsed: Option<Option<u128>>,
    body: UpdateView,
    now: i64,
) -> Map<u128, BearerSession> {
    if spec_is_empty(body) {
        sessions
    } else {
        spec_admit_touch(sessions, parsed, now)
    }
}

/// Whether the schedule in a request to change a contract can be scheduled
/// from `now`; a request without one has nothing to check.
pub open spec fn spec_patch_cron_valid(body: UpdateView, now: i64) -> bool {
    match body.cron_expr {
        Some(expr) => spec_cron_valid(expr, now),
        None => true,
    }
}

/// Decides at `now` a request to change the contract `contract_id`, made
/// with the bearer token `token`, where `stored` is the contract as the
/// store holds it. Returns the contract as it is to be stored, and whether
/// the scheduler is to be told.
pub fn patch_contract(
    sessions: &mut AuthSessions,
    token: Option<&str>,
    contract_id: i32,
    stored: Option<ContractInfo>,
    body: UpdateContractRequest,
    now: i64,
) -> (r: Result<(ContractInfo, bool), KromerError>)
    ensures
        final(sessions)@ == spec_patch_touch(
            old(sessions)@,
            spec_read_bearer(token),
            update_view(&body),
            now,
        ),
        ({
            let expected = spec_patch_contract(
                old(sessions)@,
                spec_read_bearer(token),
                contract_id,
                match stored {
                    Some(c) => Some(c@),
                    None => None,
                },
                update_view(&body),
                spec_patch_cron_valid(update_view(&body), now),
                now,
            );
            match r {
                Ok((patched, reschedules)) => expected == Ok::<(ContractView, bool), KromerError>(
                    (patched@, reschedules),
                ),
                Err(e) => expected == Err::<(ContractView, bool), KromerError>(e),
            }
        }),
{
    if body.is_empty() {
        return Err(KromerError::Subs(SubsError::EmptyContractUpdate));
    }
    let session_id = match check_bearer_at(sessions, token, now) {
        Ok(id) => id,
        Err(e) => {
            return Err(KromerError::Auth(e));
        },
    };
    if contract_id < 0 {
        return Err(KromerError::Subs(SubsError::InvalidId(contract_id)));
    }
    let contract_info = match stored {
        Some(c) => c,
        None => {
            return Err(KromerError::Subs(SubsError::ContractNotFound(contract_id)));
        },
    };
    match sessions.is_authed_addr_at(session_id, contract_info.address.as_str(), now) {
        None => {
            return Err(KromerError::Auth(AuthError::InvalidSession));
        },
        Some(false) => {
            return Err(KromerError::Auth(AuthError::Unauthorized));
        },
        Some(true) => {},
    }
    let cron_valid = match &body.cron_expr {
        Some(expr) => validate_cron_expr_at(expr.as_str(), now).is_ok(),
        None => true,
    };
    match apply_patch(contract_info, body, cron_valid, now) {
        Ok(done) => Ok(done),
        Err(e) => Err(KromerError::Subs(e)),
    }
}

/// Decides at `now` a request to create a contract, made with the bearer
/// token `token`: the token must name a live session and the request must
/// pass its checks. Returns the address of the wallet that will own the
/// contract.
pub fn create_contract(
    sessions: &mut AuthSessions,
    token: Option<&str>,
    body: &ContractCreateRequest,
    now: i64,
) -> (r: Result<String, KromerError>)
    ensures
        final(sessions)@ == spec_admit_touch(old(sessions)@, spec_read_bearer(token), now),
        match spec_admit(old(sessions)@, spec_read_bearer(token), now) {
            Err(e) => r == Err::<String, KromerError>(KromerError::Auth(e)),
            Ok(session) => match spec_validate_body(
                create_view(body),
                spec_cron_valid(body.cron_expr@, now),
            ) {
                Err(e) => r == Err::<String, KromerError>(KromerError::Subs(e)),
                Ok(()) => r.is_ok() && r.unwrap()@ == old(sessions)@[session].address,
            },
        },
{
    let session_id = match check_bearer_at(sessions, token, now) {
        Ok(id) => id,
        Err(e) => {
            return Err(KromerError::Auth(e));
        },
    };
    match validate_body(body, now) {
        Err(e) => {
            return Err(KromerError::Subs(e));
        },
        Ok(()) => {},
    }
    match sessions.get_address_at(session_id, now) {
        Some(addr) => Ok(addr),
        None => Err(KromerError::Auth(AuthError::InvalidSession)),
    }
}

/// Answers a request for the contract `id`, where `stored` is the contract
/// as the store holds it. A negative id is refused before the store is asked.
pub fn contract_by_id(id: i32, stored: Option<ContractInfo>) -> (r: Result<ContractInfo, SubsError>)
    ensures
        match r {
            Ok(info) => id >= 0 && stored == Some(info),
            Err(e) => e == if id < 0 {
                SubsError::InvalidId(id)
            } else {
                SubsError::ContractNotFound(id)
            } && (id < 0 || stored.is_none()),
        },
{
    if id < 0 {
        return Err(SubsError::InvalidId(id));
    }
    match stored {
        Some(info) => Ok(info),
        None => Err(SubsError::ContractNotFound(id)),
    }
}

/// Checks a request for the subscribers of the contract `id`, where `found`
/// tells whether the store holds the contract.
pub fn contract_subscribers(id: i32, found: bool) -> (r: Result<(), SubsError>)
    ensures
        r == if id < 0 {
            Err::<(), SubsError>(SubsError::InvalidId(id))
        } else if !found {
            Err::<(), SubsError>(SubsError::ContractNotFound(id))
        } else {
            Ok::<(), SubsError>(())
        },
{
    if id < 0 {
        Err(SubsError::InvalidId(id))
    } else if !found {
        Err(SubsError::ContractNotFound(id))
    } else {
        Ok(())
    }
}

/// The absolute value of a 32-bit integer.
pub open spec fn spec_magnitude(n: i32) -> i64 {
    if n < 0 {
        (-n) as i64
    } else {
        n as i64
    }
}

/// The page a listing returns: how many entries at most, and how many to
/// skip. Signs are dropped; a request that does not say gets 50 entries from
/// the start; no request gets more than 500.
pub open spec fn spec_page(limit: Option<i32>, offset: Option<i32>) -> (i64, i64) {
    let wanted = match limit {
        Some(l) => spec_magnitude(l),
        None => DEFAULT_PAGE,
    };
    (
        if wanted > MAX_PAGE {
            MAX_PAGE
        } else {
            wanted
        },
        match offset {
            Some(o) => spec_magnitude(o),
            None => 0,
        },
    )
}

fn magnitude(n: i32) -> (r: i64)
    ensures
        r == spec_magnitude(n),
{
    if n < 0 {
        -(n as i64)
    } else {
        n as i64
    }
}

/// The page a listing returns, as `(limit, offset)`.
pub fn list_contracts(limit: Option<i32>, offset: Option<i32>) -> (r: (i64, i64))
    ensures
        r == spec_page(limit, offset),
{
    let wanted = match limit {
        Some(l) => magnitude(l),
        None => DEFAULT_PAGE,
    };
    let limit = if wanted > MAX_PAGE {
        MAX_PAGE
    } else {
        wanted
    };
    let offset = match offset {
        Some(o) => magnitude(o),
        None => 0,
    };
    (limit, offset)
}

/// How many entries of a table of `table_len` remain after a page of
/// `count` entries that starts at `offset`: none if the page reaches the end.
pub open spec fn spec_remaining(table_len: i64, offset: i64, count: usize) -> int {
    if table_len - (offset + count) > 0 {
        table_len - (offset + count)
    } else {
        0
    }
}

/// How many entries remain after a page.
pub fn remaining(table_len: i64, offset: i64, count: usize) -> (r: u64)
    ensures
        r == spec_remaining(table_len, offset, count),
{
    let left: i128 = table_len as i128 - (offset as i128 + count as i128);
    if left > 0 {
        left as u64
    } else {
        0
    }
}

} // verus!
