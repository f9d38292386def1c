use vstd::prelude::*;

use vstd::string::StringExecFns;

use crate::database::transaction::{Model as Transaction, TransactionView};
use crate::database::wallet::{Model as Wallet, WalletView};
use crate::websockets::types::common::{SessionView, WebSocketSubscriptionType};

verus! {

/// A server-originated event, reduced to what decides who receives it.
///
/// The full payload that goes on the wire is built and serialised by the
/// embedding server; the hub only needs the addresses involved.
#[derive(Debug, PartialEq)]
pub enum WebSocketEvent {
    /// A block was mined by `address`.
    Block { address: String },
    /// Funds moved from `from` (absent for minted funds) to `to`.
    Transaction { from: Option<String>, to: String },
    /// A name owned by `owner` was registered or changed.
    Name { owner: String },
}

/// Mathematical content of a [`WebSocketEvent`].
pub ghost enum EventView {
    Block { address: Seq<char> },
    Transaction { from: Option<Seq<char>>, to: Seq<char> },
    Name { owner: Seq<char> },
}

impl View for WebSocketEvent {
    type V = EventView;

    open spec fn view(&self) -> EventView {
        match self {
            WebSocketEvent::Block { address } => EventView::Block { address: address@ },
            WebSocketEvent::Transaction { from, to } => EventView::Transaction {
                from: from.deep_view(),
                to: to@,
            },
            WebSocketEvent::Name { owner } => EventView::Name { owner: owner@ },
        }
    }
}

impl EventView {
    /// Whether the session's own address is a party to the event.
    pub open spec fn concerns(self, address: Seq<char>) -> bool {
        match self {
            EventView::Block { address: miner } => address == miner,
            EventView::Transaction { from, to } => address == to || from == Some(address),
            EventView::Name { owner } => address == owner,
        }
    }

    /// The subscription that receives every event of this class.
    pub open spec fn wide_kind(self) -> WebSocketSubscriptionType {
        match self {
            EventView::Block { .. } => WebSocketSubscriptionType::Blocks,
            EventView::Transaction { .. } => WebSocketSubscriptionType::Transactions,
            EventView::Name { .. } => WebSocketSubscriptionType::Names,
        }
    }

    /// The subscription that receives the events of this class that concern
    /// the session's own address.
    pub open spec fn own_kind(self) -> WebSocketSubscriptionType {
        match self {
            EventView::Block { .. } => WebSocketSubscriptionType::OwnBlocks,
            EventView::Transaction { .. } => WebSocketSubscriptionType::OwnTransactions,
            EventView::Name { .. } => WebSocketSubscriptionType::OwnNames,
        }
    }

    /// The broadcast filter: a session receives the event if it subscribed
    /// to the whole class, or if it is logged in, is a party to the event and
    /// subscribed to its own events of that class.
    pub open spec fn wanted_by(self, s: SessionView) -> bool {
        s.subscriptions.contains(self.wide_kind()) || (!s.is_guest() && self.concerns(s.address)
            && s.subscriptions.contains(self.own_kind()))
    }
}

/// The broadcast filter for transactions, spelled out: a session receives
/// a transaction if it subscribed to all transactions, or if it is logged
/// in, is the sender or the recipient, and subscribed to its own.
pub proof fn lemma_transaction_filter(s: SessionView, from: Option<Seq<char>>, to: Seq<char>)
    ensures
        (EventView::Transaction { from, to }).wanted_by(s) <==> (s.subscriptions.contains(
            WebSocketSubscriptionType::Transactions,
        ) || (!s.is_guest() && (s.address == to || from == Some(s.address))
            && s.subscriptions.contains(WebSocketSubscriptionType::OwnTransactions))),
        s.is_guest() ==> ((EventView::Transaction { from, to }).wanted_by(s)
            <==> s.subscriptions.contains(WebSocketSubscriptionType::Transactions)),
{
}

/// What a request over the socket is answered with.
#[derive(Debug, PartialEq)]
pub enum WebSocketMessageResponse {
    /// The outcome of `login`; `address` is the wallet the session now
    /// stands for.
    Login { is_guest: bool, address: Option<Wallet> },
    /// The outcome of `logout`.
    Logout { is_guest: bool },
    /// The session's subscriptions, after `subscribe` and `unsubscribe` and
    /// for `get_subscription_level`.
    SubscriptionLevel { subscription_level: Vec<WebSocketSubscriptionType> },
    /// Every subscription there is, for `get_valid_subscription_levels`.
    ValidSubscriptionLevels { valid_subscription_levels: Vec<WebSocketSubscriptionType> },
    /// The session's own wallet, for `me`.
    Me { is_guest: bool, address: Option<Wallet> },
    /// The wallet asked about, for `address`.
    Address { address: Wallet },
    /// The logged transfer, for `make_transaction`.
    MakeTransaction { transaction: Transaction },
}

/// The body of a frame the server sends.
#[derive(Debug, PartialEq)]
pub enum WebSocketMessageInner {
    /// Sent once when the connection is accepted.
    Hello { server_time: i64, motd: String },
    /// Sent with every heartbeat.
    Keepalive { server_time: i64 },
    /// The answer to a request.
    Response { data: WebSocketMessageResponse },
    /// A request that was refused: a stable code and a sentence.
    Error { error: String, message: String },
    /// A broadcast event.
    Event { event: WebSocketEvent },
}

/// A frame the server sends. `id` echoes the id of the request it answers.
#[derive(Debug, PartialEq)]
pub struct WebSocketMessage {
    pub ok: Option<bool>,
    pub id: Option<usize>,
    pub inner: WebSocketMessageInner,
}

impl WebSocketMessage {
    /// Whether the frame is the error `code`, answering request `id`.
    pub open spec fn is_error(&self, id: Option<usize>, code: Seq<char>) -> bool {
        &&& self.ok == Some(false)
        &&& self.id == id
        &&& self.inner matches WebSocketMessageInner::Error { error, .. } && error@ == code
    }

    /// Whether the frame answers request `id` with success.
    pub open spec fn is_response(&self, id: Option<usize>) -> bool {
        &&& self.ok == Some(true)
        &&& self.id == id
        &&& self.inner is Response
    }

    /// Whether the frame answers the login `id` with a refusal: the session
    /// is a guest, and nothing says why.
    pub open spec fn is_login_refused(&self, id: Option<usize>) -> bool {
        &&& self.ok == Some(true)
        &&& self.id == id
        &&& self.inner == (WebSocketMessageInner::Response {
            data: WebSocketMessageResponse::Login { is_guest: true, address: None },
        })
    }

    /// Whether the frame answers the login `id` with the wallet that the
    /// session now stands for.
    pub open spec fn is_login_accepted(&self, id: Option<usize>, wallet: WalletView) -> bool {
        &&& self.ok == Some(true)
        &&& self.id == id
        &&& match self.inner {
            WebSocketMessageInner::Response { data } => match data {
                WebSocketMessageResponse::Login { is_guest, address } => !is_guest
                    && address.is_some() && address.unwrap()@ == wallet,
                _ => false,
            },
            _ => false,
        }
    }

    /// Whether the frame answers the logout `id`: the session is a guest.
    pub open spec fn is_logout_reply(&self, id: Option<usize>) -> bool {
        &&& self.ok == Some(true)
        &&& self.id == id
        &&& self.inner == (WebSocketMessageInner::Response {
            data: WebSocketMessageResponse::Logout { is_guest: true },
        })
    }

    /// Whether the frame answers the `me` request `id` of a guest.
    pub open spec fn is_me_guest(&self, id: Option<usize>) -> bool {
        &&& self.ok == Some(true)
        &&& self.id == id
        &&& self.inner == (WebSocketMessageInner::Response {
            data: WebSocketMessageResponse::Me { is_guest: true, address: None },
        })
    }

    /// Whether the frame answers the `me` request `id` with the session's
    /// own wallet.
    pub open spec fn is_me_wallet(&self, id: Option<usize>, wallet: WalletView) -> bool {
        &&& self.ok == Some(true)
        &&& self.id == id
        &&& match self.inner {
            WebSocketMessageInner::Response { data } => match data {
                WebSocketMessageResponse::Me { is_guest, address } => !is_guest
                    && address.is_some() && address.unwrap()@ == wallet,
                _ => false,
            },
            _ => false,
        }
    }

    /// Whether the frame answers the `address` request `id` with `wallet`.
    pub open spec fn is_address_reply(&self, id: Option<usize>, wallet: WalletView) -> bool {
        &&& self.ok == Some(true)
        &&& self.id == id
        &&& match self.inner {
            WebSocketMessageInner::Response { data } => match data {
                WebSocketMessageResponse::Address { address } => address@ == wallet,
                _ => false,
            },
            _ => false,
        }
    }

    /// Whether the frame answers request `id` with the session's
    /// subscriptions `kinds`, each once.
    pub open spec fn is_subscription_level(
        &self,
        id: Option<usize>,
        kinds: Set<WebSocketSubscriptionType>,
    ) -> bool {
        &&& self.ok == Some(true)
        &&& self.id == id
        &&& match self.inner {
            WebSocketMessageInner::Response { data } => match data {
                WebSocketMessageResponse::SubscriptionLevel { subscription_level } =>
                    subscription_level@.no_duplicates() && subscription_level@.to_set() == kinds,
                _ => false,
            },
            _ => false,
        }
    }

    /// Whether the frame answers request `id` with every subscription there
    /// is, in their order.
    pub open spec fn is_valid_levels(&self, id: Option<usize>) -> bool {
        &&& self.ok == Some(true)
        &&& self.id == id
        &&& match self.inner {
            WebSocketMessageInner::Response { data } => match data {
                WebSocketMessageResponse::ValidSubscriptionLevels { valid_subscription_levels } =>
                    valid_subscription_levels@ == WebSocketSubscriptionType::spec_all(),
                _ => false,
            },
            _ => false,
        }
    }

    /// Whether the frame answers request `id` with the logged transfer `row`.
    pub open spec fn is_transaction_reply(&self, id: Option<usize>, row: TransactionView) -> bool {
        &&& self.is_response(id)
        &&& match self.inner {
            WebSocketMessageInner::Response { data } => match data {
                WebSocketMessageResponse::MakeTransaction { transaction } => transaction@ == row,
                _ => false,
            },
            _ => false,
        }
    }

    /// An error frame.
    pub fn error(id: Option<usize>, code: &str, message: &str) -> (r: Self)
        ensures
            r.is_error(id, code@),
            r.inner matches WebSocketMessageInner::Error { message: m, .. } && m@ == message@,
    {
        WebSocketMessage {
            ok: Some(false),
            id,
            inner: WebSocketMessageInner::Error {
                error: String::from_str(code),
                message: String::from_str(message),
            },
        }
    }

    /// A successful answer.
    pub fn response(id: Option<usize>, data: WebSocketMessageResponse) -> (r: Self)
        ensures
            r.ok == Some(true),
            r.id == id,
            r.inner == (WebSocketMessageInner::Response { data }),
    {
        WebSocketMessage { ok: Some(true), id, inner: WebSocketMessageInner::Response { data } }
    }

    /// The frame that carries a broadcast event.
    pub fn new_event(event: WebSocketEvent) -> (r: Self)
        ensures
            r.ok.is_none(),
            r.id.is_none(),
            r.inner == (WebSocketMessageInner::Event { event }),
    {
        WebSocketMessage { ok: None, id: None, inner: WebSocketMessageInner::Event { event } }
    }

    /// The frame that greets a new connection.
    pub fn hello(server_time: i64, motd: &str) -> (r: Self)
        ensures
            r.ok == Some(true),
            r.id.is_none(),
            r.inner matches WebSocketMessageInner::Hello { server_time: t, motd: m } && t
                == server_time && m@ == motd@,
    {
        WebSocketMessage {
            ok: Some(true),
            id: None,
            inner: WebSocketMessageInner::Hello { server_time, motd: String::from_str(motd) },
        }
    }

    /// The frame that goes out with every heartbeat.
    pub fn keepalive(server_time: i64) -> (r: Self)
        ensures
            r.ok.is_none(),
            r.id.is_none(),
            r.inner == (WebSocketMessageInner::Keepalive { server_time }),
    {
        WebSocketMessage { ok: None, id: None, inner: WebSocketMessageInner::Keepalive { server_time } }
    }
}

impl WebSocketEvent {
    /// The event that tells of a logged transaction.
    pub fn transaction(row: &Transaction) -> (r: Self)
        ensures
            r@ == (EventView::Transaction { from: row@.from, to: row@.to }),
    {
        WebSocketEvent::Transaction {
            from: crate::text::clone_opt_string(&row.from),
            to: row.to.clone(),
        }
    }
}

} // verus!
