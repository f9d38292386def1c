//! What the server does with a request that arrives over a socket.
//!
//! A request is a JSON object with a `type`, an optional `id` that the
//! answer echoes, and fields of its own. Turning the text into a
//! [`WebSocketRequest`] and the answer into text is the embedding server's
//! work; what the request does to the hub and the ledger is decided here.

use vstd::prelude::*;

use vstd::string::StringExecFns;

use crate::database::ledger::{Ledger, LedgerView, TransferError};
use crate::database::transaction::{CreateView, TransactionCreateData, TransactionType};
use crate::database::wallet::VerifyResponse;
use crate::models::krist::websockets::{
    EventView, WebSocketEvent, WebSocketMessage, WebSocketMessageResponse,
};
use crate::text::str_eq;
use crate::websockets::routes::auth::{login_post, logout_post, perform_login, perform_logout};
use crate::websockets::types::common::{SessionOp, SessionView, WebSocketSubscriptionType};
use crate::websockets::WebSocketServer;

verus! {

/// The kinds of request, as the `type` field names them.
#[derive(Debug, Clone, Copy, PartialEq, Eq, Structural)]
pub enum RequestKind {
    Login,
    Logout,
    Subscribe,
    Unsubscribe,
    GetSubscriptionLevel,
    GetValidSubscriptionLevels,
    Me,
    Address,
    SubmitBlock,
    MakeTransaction,
    Unknown,
}

/// The kind of request that a `type` field names.
pub open spec fn spec_request_kind(name: Seq<char>) -> RequestKind {
    if name == "login"@ {
        RequestKind::Login
    } else if name == "logout"@ {
        RequestKind::Logout
    } else if name == "subscribe"@ {
        RequestKind::Subscribe
    } else if name == "unsubscribe"@ {
        RequestKind::Unsubscribe
    } else if name == "get_subscription_level"@ {
        RequestKind::GetSubscriptionLevel
    } else if name == "get_valid_subscription_levels"@ {
        RequestKind::GetValidSubscriptionLevels
    } else if name == "me"@ {
        RequestKind::Me
    } else if name == "address"@ {
        RequestKind::Address
    } else if name == "submit_block"@ {
        RequestKind::SubmitBlock
    } else if name == "make_transaction"@ {
        RequestKind::MakeTransaction
    } else {
        RequestKind::Unknown
    }
}

/// Reads the `type` field of a request.
pub fn request_kind(name: &str) -> (r: RequestKind)
    ensures
        r == spec_request_kind(name@),
{
    if str_eq(name, "login") {
        RequestKind::Login
    } else if str_eq(name, "logout") {
        RequestKind::Logout
    } else if str_eq(name, "subscribe") {
        RequestKind::Subscribe
    } else if str_eq(name, "unsubscribe") {
        RequestKind::Unsubscribe
    } else if str_eq(name, "get_subscription_level") {
        RequestKind::GetSubscriptionLevel
    } else if str_eq(name, "get_valid_subscription_levels") {
        RequestKind::GetValidSubscriptionLevels
    } else if str_eq(name, "me") {
        RequestKind::Me
    } else if str_eq(name, "address") {
        RequestKind::Address
    } else if str_eq(name, "submit_block") {
        RequestKind::SubmitBlock
    } else if str_eq(name, "make_transaction") {
        RequestKind::MakeTransaction
    } else {
        RequestKind::Unknown
    }
}

/// A request with its fields.
#[derive(Debug, PartialEq)]
pub enum WebSocketRequest {
    Login { private_key: String },
    Logout,
    Subscribe { event: String },
    Unsubscribe { event: String },
    GetSubscriptionLevel,
    GetValidSubscriptionLevels,
    Me,
    Address { address: String },
    SubmitBlock,
    MakeTransaction { to: String, amount: u64, metadata: Option<String> },
    Unknown,
}

/// What a change of subscription does to the sessions of a hub, and what it
/// is answered with.
pub open spec fn subscription_post(
    before: Map<u128, SessionView>,
    after: Map<u128, SessionView>,
    uuid: u128,
    event: Seq<char>,
    add: bool,
    msg_id: Option<usize>,
    r: WebSocketMessage,
) -> bool {
    match WebSocketSubscriptionType::spec_parse(event) {
        None => {
            &&& after == before
            &&& r.is_error(msg_id, "invalid_parameter"@)
        },
        Some(kind) => if before.contains_key(uuid) {
            let op = if add {
                SessionOp::Subscribe(kind)
            } else {
                SessionOp::Unsubscribe(kind)
            };
            &&& after == before.insert(uuid, before[uuid].apply(op))
            &&& r.is_subscription_level(msg_id, before[uuid].apply(op).subscriptions)
        } else {
            &&& after == before
            &&& r.is_error(msg_id, "session_not_found"@)
        },
    }
}

/// What `me` is answered with.
pub open spec fn me_post(
    sessions: Map<u128, SessionView>,
    ledger: LedgerView,
    uuid: u128,
    msg_id: Option<usize>,
    r: WebSocketMessage,
) -> bool {
    if !sessions.contains_key(uuid) {
        r.is_error(msg_id, "session_not_found"@)
    } else if sessions[uuid].is_guest() {
        r.is_me_guest(msg_id)
    } else {
        match ledger.find(sessions[uuid].address) {
            Some(i) => r.is_me_wallet(msg_id, ledger.wallets[i]),
            None => r.is_error(msg_id, "address_not_found"@),
        }
    }
}

/// What `address` is answered with.
pub open spec fn address_post(
    ledger: LedgerView,
    wanted: Seq<char>,
    msg_id: Option<usize>,
    r: WebSocketMessage,
) -> bool {
    match ledger.find(wanted) {
        Some(i) => r.is_address_reply(msg_id, ledger.wallets[i]),
        None => r.is_error(msg_id, "address_not_found"@),
    }
}

/// The fields of a request, each as far as the request carries it.
#[derive(Debug, Clone, PartialEq)]
pub struct RequestFields {
    pub private_key: Option<String>,
    pub event: Option<String>,
    pub address: Option<String>,
    pub to: Option<String>,
    pub amount: Option<u64>,
    pub metadata: Option<String>,
}

/// The field that a request of the kind `kind` needs and `fields` lacks, if
/// there is one: the first of those that the kind needs.
pub open spec fn spec_missing_field(kind: RequestKind, fields: RequestFields) -> Option<Seq<char>> {
    match kind {
        RequestKind::Login => if fields.private_key.is_none() {
            Some("privatekey"@)
        } else {
            None
        },
        RequestKind::Subscribe | RequestKind::Unsubscribe => if fields.event.is_none() {
            Some("event"@)
        } else {
            None
        },
        RequestKind::Address => if fields.address.is_none() {
            Some("address"@)
        } else {
            None
        },
        RequestKind::MakeTransaction => if fields.to.is_none() {
            Some("to"@)
        } else if fields.amount.is_none() {
            Some("amount"@)
        } else {
            None
        },
        _ => None,
    }
}

/// The request of the kind `kind` that `fields` make up, where none of the
/// fields it needs is missing.
pub open spec fn spec_request(kind: RequestKind, fields: RequestFields) -> WebSocketRequest {
    match kind {
        RequestKind::Login => WebSocketRequest::Login { private_key: fields.private_key.unwrap() },
        RequestKind::Logout => WebSocketRequest::Logout,
        RequestKind::Subscribe => WebSocketRequest::Subscribe { event: fields.event.unwrap() },
        RequestKind::Unsubscribe => WebSocketRequest::Unsubscribe { event: fields.event.unwrap() },
        RequestKind::GetSubscriptionLevel => WebSocketRequest::GetSubscriptionLevel,
        RequestKind::GetValidSubscriptionLevels => WebSocketRequest::GetValidSubscriptionLevels,
        RequestKind::Me => WebSocketRequest::Me,
        RequestKind::Address => WebSocketRequest::Address { address: fields.address.unwrap() },
        RequestKind::SubmitBlock => WebSocketRequest::SubmitBlock,
        RequestKind::MakeTransaction => WebSocketRequest::MakeTransaction {
            to: fields.to.unwrap(),
            amount: fields.amount.unwrap(),
            metadata: fields.metadata,
        },
        RequestKind::Unknown => WebSocketRequest::Unknown,
    }
}

/// Makes a request of the kind `kind` out of its fields, or names the field
/// that is missing. Fields that the kind does not need are not looked at.
pub fn read_request(kind: RequestKind, fields: RequestFields) -> (r: Result<
    WebSocketRequest,
    &'static str,
>)
    ensures
        match r {
            Ok(request) => spec_missing_field(kind, fields).is_none() && request == spec_request(
                kind,
                fields,
            ),
            Err(name) => spec_missing_field(kind, fields) == Some(name@),
        },
{
    match kind {
        RequestKind::Login => match fields.private_key {
            Some(private_key) => Ok(WebSocketRequest::Login { private_key }),
            None => Err("privatekey"),
        },
        RequestKind::Logout => Ok(WebSocketRequest::Logout),
        RequestKind::Subscribe => match fields.event {
            Some(event) => Ok(WebSocketRequest::Subscribe { event }),
            None => Err("event"),
        },
        RequestKind::Unsubscribe => match fields.event {
            Some(event) => Ok(WebSocketRequest::Unsubscribe { event }),
            None => Err("event"),
        },
        RequestKind::GetSubscriptionLevel => Ok(WebSocketRequest::GetSubscriptionLevel),
        RequestKind::GetValidSubscriptionLevels => Ok(WebSocketRequest::GetValidSubscriptionLevels),
        RequestKind::Me => Ok(WebSocketRequest::Me),
        RequestKind::Address => match fields.address {
            Some(address) => Ok(WebSocketRequest::Address { address }),
            None => Err("address"),
        },
        RequestKind::SubmitBlock => Ok(WebSocketRequest::SubmitBlock),
        RequestKind::MakeTransaction => match fields.to {
            Some(to) => match fields.amount {
                Some(amount) => Ok(
                    WebSocketRequest::MakeTransaction { to, amount, metadata: fields.metadata },
                ),
                None => Err("amount"),
            },
            None => Err("to"),
        },
        RequestKind::Unknown => Ok(WebSocketRequest::Unknown),
    }
}

/// Answers a request that lacks the field `name`.
pub fn missing_parameter(name: &str, msg_id: Option<usize>) -> (r: WebSocketMessage)
    ensures
        r.is_error(msg_id, "missing_parameter"@),
        r.inner matches crate::models::krist::websockets::WebSocketMessageInner::Error {
            message,
            ..
        } && message@ == "Missing parameter "@ + name@,
{
    let mut message = String::from_str("Missing parameter ");
    message.append(name);
    WebSocketMessage::error(msg_id, "missing_parameter", message.as_str())
}

/// Subscribes the session `uuid` to, or with `add` off unsubscribes it from,
/// the events named `event`, and answers with the subscriptions it has
/// afterwards. An event name that is not known is answered with the error
/// `invalid_parameter`, a session that is gone with `session_not_found`;
/// neither changes anything.
pub fn change_subscription(
    server: &mut WebSocketServer,
    uuid: &u128,
    event: &str,
    add: bool,
    msg_id: Option<usize>,
) -> (r: WebSocketMessage)
    ensures
        final(server).tokens_view() == old(server).tokens_view(),
        subscription_post(
            old(server).sessions_view(),
            final(server).sessions_view(),
            *uuid,
            event@,
            add,
            msg_id,
            r,
        ),
{
    let kind = match WebSocketSubscriptionType::parse(event) {
        Some(kind) => kind,
        None => {
            return WebSocketMessage::error(msg_id, "invalid_parameter", "Invalid parameter event");
        },
    };
    let found = if add {
        server.subscribe_to_event(uuid, kind)
    } else {
        server.unsubscribe_from_event(uuid, &kind)
    };
    if found {
        let subscription_level = server.get_subscription_list(uuid);
        WebSocketMessage::response(
            msg_id,
            WebSocketMessageResponse::SubscriptionLevel { subscription_level },
        )
    } else {
        WebSocketMessage::error(msg_id, "session_not_found", "Session not found")
    }
}

/// Answers with the subscriptions of the session `uuid`; a session that is
/// gone has none.
pub fn subscription_level(server: &WebSocketServer, uuid: &u128, msg_id: Option<usize>) -> (r:
    WebSocketMessage)
    ensures
        r.is_subscription_level(
            msg_id,
            if server.sessions_view().contains_key(*uuid) {
                server.sessions_view()[*uuid].subscriptions
            } else {
                Set::empty()
            },
        ),
{
    let subscription_level = server.get_subscription_list(uuid);
    WebSocketMessage::response(
        msg_id,
        WebSocketMessageResponse::SubscriptionLevel { subscription_level },
    )
}

/// Answers with every subscription there is.
pub fn valid_subscription_levels(msg_id: Option<usize>) -> (r: WebSocketMessage)
    ensures
        r.is_valid_levels(msg_id),
{
    let valid_subscription_levels = WebSocketSubscriptionType::all();
    WebSocketMessage::response(
        msg_id,
        WebSocketMessageResponse::ValidSubscriptionLevels { valid_subscription_levels },
    )
}

/// Answers `me`: a guest is told so, a session that is logged in gets its
/// wallet. A session that is gone is answered with `session_not_found`, one
/// whose wallet is gone with `address_not_found`.
pub fn me(server: &WebSocketServer, ledger: &Ledger, uuid: &u128, msg_id: Option<usize>) -> (r:
    WebSocketMessage)
    ensures
        me_post(server.sessions_view(), ledger@, *uuid, msg_id, r),
{
    match server.fetch_session_data(uuid) {
        None => WebSocketMessage::error(msg_id, "session_not_found", "Session not found"),
        Some(session) => {
            if session.is_guest() {
                WebSocketMessage::response(
                    msg_id,
                    WebSocketMessageResponse::Me { is_guest: true, address: None },
                )
            } else {
                match ledger.wallet(session.address.as_str()) {
                    Some(wallet) => WebSocketMessage::response(
                        msg_id,
                        WebSocketMessageResponse::Me { is_guest: false, address: Some(wallet) },
                    ),
                    None => WebSocketMessage::error(
                        msg_id,
                        "address_not_found",
                        "Address not found",
                    ),
                }
            }
        },
    }
}

/// Answers `address` with the wallet asked about, or with the error
/// `address_not_found`.
pub fn address(ledger: &Ledger, wanted: &str, msg_id: Option<usize>) -> (r: WebSocketMessage)
    ensures
        address_post(ledger@, wanted@, msg_id, r),
{
    match ledger.wallet(wanted) {
        Some(wallet) => WebSocketMessage::response(
            msg_id,
            WebSocketMessageResponse::Address { address: wallet },
        ),
        None => WebSocketMessage::error(msg_id, "address_not_found", "Address not found"),
    }
}

/// Answers `submit_block`: mining is disabled.
pub fn submit_block(msg_id: Option<usize>) -> (r: WebSocketMessage)
    ensures
        r.is_error(msg_id, "mining_disabled"@),
{
    WebSocketMessage::error(msg_id, "mining_disabled", "Mining disabled")
}

/// Answers a request of a type that is not known.
pub fn unknown_type(msg_id: Option<usize>) -> (r: WebSocketMessage)
    ensures
        r.is_error(msg_id, "unknown_type"@),
{
    WebSocketMessage::error(msg_id, "unknown_type", "Unknown message type")
}

/// The code that reports a failed transfer to the client.
pub open spec fn spec_transfer_error_code(e: TransferError) -> Seq<char> {
    match e {
        TransferError::SenderNotFound => "address_not_found"@,
        TransferError::RecipientNotFound => "address_not_found"@,
        TransferError::InsufficientFunds => "insufficient_funds"@,
        TransferError::StoreError => "server_error"@,
    }
}

/// The transfer that a `make_transaction` request of the session at
/// `address` asks for.
pub open spec fn payment_request(
    address: Seq<char>,
    to: Seq<char>,
    amount: u64,
    metadata: Option<Seq<char>>,
) -> CreateView {
    CreateView {
        from: address,
        to,
        amount,
        metadata,
        name: None,
        sent_metaname: None,
        sent_name: None,
        transaction_type: TransactionType::Transfer,
    }
}

/// What `make_transaction` does to the ledger, what it is answered with, and
/// the event that is broadcast for it.
pub open spec fn payment_post(
    sessions: Map<u128, SessionView>,
    before: LedgerView,
    after: LedgerView,
    uuid: u128,
    to: Seq<char>,
    amount: u64,
    metadata: Option<Seq<char>>,
    msg_id: Option<usize>,
    now: i64,
    r: (WebSocketMessage, Option<WebSocketEvent>),
) -> bool {
    if !sessions.contains_key(uuid) {
        &&& r.0.is_error(msg_id, "session_not_found"@)
        &&& r.1.is_none()
        &&& after == before
    } else if sessions[uuid].is_guest() {
        &&& r.0.is_error(msg_id, "not_logged_in"@)
        &&& r.1.is_none()
        &&& after == before
    } else {
        let request = payment_request(sessions[uuid].address, to, amount, metadata);
        match before.transfer(request, now) {
            Ok(moved) => {
                &&& after == moved
                &&& r.0.is_transaction_reply(msg_id, moved.transactions.last())
                &&& r.1.is_some()
                &&& r.1.unwrap()@ == (EventView::Transaction {
                    from: Some(request.from),
                    to: request.to,
                })
            },
            Err(e) => {
                &&& after == before
                &&& r.0.is_error(msg_id, spec_transfer_error_code(e))
                &&& r.1.is_none()
            },
        }
    }
}

/// Answers `make_transaction`: a session that is logged in pays `amount`
/// from its own wallet to `to`. On success the answer carries the logged
/// row, and the event to broadcast comes with it. A session that is gone is
/// answered with `session_not_found`, a guest with `not_logged_in`, a
/// transfer that fails with its error; none of these changes the ledger.
pub fn make_transaction(
    server: &WebSocketServer,
    ledger: &mut Ledger,
    uuid: &u128,
    to: String,
    amount: u64,
    metadata: Option<String>,
    msg_id: Option<usize>,
    now: i64,
) -> (r: (WebSocketMessage, Option<WebSocketEvent>))
    requires
        old(ledger).wf(),
    ensures
        final(ledger).wf(),
        payment_post(
            server.sessions_view(),
            old(ledger)@,
            final(ledger)@,
            *uuid,
            to@,
            amount,
            metadata.deep_view(),
            msg_id,
            now,
            r,
        ),
{
    let session = match server.fetch_session_data(uuid) {
        Some(session) => session,
        None => {
            return (
                WebSocketMessage::error(msg_id, "session_not_found", "Session not found"),
                None,
            );
        },
    };
    if session.is_guest() {
        return (WebSocketMessage::error(msg_id, "not_logged_in", "Not logged in"), None);
    }
    let data = TransactionCreateData {
        from: session.address,
        to,
        amount,
        metadata,
        name: None,
        sent_metaname: None,
        sent_name: None,
        transaction_type: TransactionType::Transfer,
    };
    match ledger.transfer(data, now) {
        Ok(row) => {
            let event = WebSocketEvent::transaction(&row);
            (
                WebSocketMessage::response(
                    msg_id,
                    WebSocketMessageResponse::MakeTransaction { transaction: row },
                ),
                Some(event),
            )
        },
        Err(TransferError::SenderNotFound) => (
            WebSocketMessage::error(msg_id, "address_not_found", "Address not found"),
            None,
        ),
        Err(TransferError::RecipientNotFound) => (
            WebSocketMessage::error(msg_id, "address_not_found", "Address not found"),
            None,
        ),
        Err(TransferError::InsufficientFunds) => (
            WebSocketMessage::error(msg_id, "insufficient_funds", "Insufficient funds"),
            None,
        ),
        Err(TransferError::StoreError) => (
            WebSocketMessage::error(msg_id, "server_error", "Server error"),
            None,
        ),
    }
}

/// What a request does and what it is answered with, by kind of request.
pub open spec fn request_post(
    sessions: Map<u128, SessionView>,
    sessions_after: Map<u128, SessionView>,
    ledger: LedgerView,
    ledger_after: LedgerView,
    uuid: u128,
    request: WebSocketRequest,
    verification: Option<&VerifyResponse>,
    msg_id: Option<usize>,
    now: i64,
    r: (WebSocketMessage, Option<WebSocketEvent>),
) -> bool {
    match request {
        WebSocketRequest::MakeTransaction { to, amount, metadata } => {
            &&& sessions_after == sessions
            &&& payment_post(
                sessions,
                ledger,
                ledger_after,
                uuid,
                to@,
                amount,
                metadata.deep_view(),
                msg_id,
                now,
                r,
            )
        },
        _ => {
            &&& ledger_after == ledger
            &&& r.1.is_none()
            &&& match request {
                WebSocketRequest::Login { private_key } => login_post(
                    sessions,
                    sessions_after,
                    uuid,
                    private_key,
                    verification,
                    msg_id,
                    r.0,
                ),
                WebSocketRequest::Logout => logout_post(sessions, sessions_after, uuid, msg_id, r.0),
                WebSocketRequest::Subscribe { event } => subscription_post(
                    sessions,
                    sessions_after,
                    uuid,
                    event@,
                    true,
                    msg_id,
                    r.0,
                ),
                WebSocketRequest::Unsubscribe { event } => subscription_post(
                    sessions,
                    sessions_after,
                    uuid,
                    event@,
                    false,
                    msg_id,
                    r.0,
                ),
                WebSocketRequest::GetSubscriptionLevel => sessions_after == sessions
                    && r.0.is_subscription_level(
                    msg_id,
                    if sessions.contains_key(uuid) {
                        sessions[uuid].subscriptions
                    } else {
                        Set::empty()
                    },
                ),
                WebSocketRequest::GetValidSubscriptionLevels => sessions_after == sessions
                    && r.0.is_valid_levels(msg_id),
                WebSocketRequest::Me => sessions_after == sessions && me_post(
                    sessions,
                    ledger,
                    uuid,
                    msg_id,
                    r.0,
                ),
                WebSocketRequest::Address { address } => sessions_after == sessions
                    && address_post(ledger, address@, msg_id, r.0),
                WebSocketRequest::SubmitBlock => sessions_after == sessions && r.0.is_error(
                    msg_id,
                    "mining_disabled"@,
                ),
                WebSocketRequest::Unknown => sessions_after == sessions && r.0.is_error(
                    msg_id,
                    "unknown_type"@,
                ),
                WebSocketRequest::MakeTransaction { .. } => true,
            }
        },
    }
}

/// Carries out one request of the connection `uuid` and answers it. For a
/// `login`, `verification` is what checking the key against the store came
/// to; other requests do not look at it. The event that comes back with the
/// answer, if any, is to be broadcast.
pub fn process_request(
    server: &mut WebSocketServer,
    ledger: &mut Ledger,
    uuid: &u128,
    request: WebSocketRequest,
    verification: Option<&VerifyResponse>,
    msg_id: Option<usize>,
    now: i64,
) -> (r: (WebSocketMessage, Option<WebSocketEvent>))
    requires
        old(ledger).wf(),
    ensures
        final(ledger).wf(),
        final(server).tokens_view() == old(server).tokens_view(),
        request_post(
            old(server).sessions_view(),
            final(server).sessions_view(),
            old(ledger)@,
            final(ledger)@,
            *uuid,
            request,
            verification,
            msg_id,
            now,
            r,
        ),
{
    match request {
        WebSocketRequest::Login { private_key } => (
            perform_login(server, uuid, private_key, verification, msg_id),
            None,
        ),
        WebSocketRequest::Logout => (perform_logout(server, uuid, msg_id), None),
        WebSocketRequest::Subscribe { event } => (
            change_subscription(server, uuid, event.as_str(), true, msg_id),
            None,
        ),
        WebSocketRequest::Unsubscribe { event } => (
            change_subscription(server, uuid, event.as_str(), false, msg_id),
            None,
        ),
        WebSocketRequest::GetSubscriptionLevel => (subscription_level(server, uuid, msg_id), None),
        WebSocketRequest::GetValidSubscriptionLevels => (valid_subscription_levels(msg_id), None),
        WebSocketRequest::Me => (me(server, ledger, uuid, msg_id), None),
        WebSocketRequest::Address { address: wanted } => (
            address(ledger, wanted.as_str(), msg_id),
            None,
        ),
        WebSocketRequest::SubmitBlock => (submit_block(msg_id), None),
        WebSocketRequest::MakeTransaction { to, amount, metadata } => make_transaction(
            server,
            ledger,
            uuid,
            to,
            amount,
            metadata,
            msg_id,
            now,
        ),
        WebSocketRequest::Unknown => (unknown_type(msg_id), None),
    }
}

} // verus!
