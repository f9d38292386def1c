use vstd::prelude::*;

use crate::models::krist::websockets::WebSocketEvent;
use crate::text::{clone_opt_string, opt_str_eq, str_eq};
use crate::seqs::{lemma_push_contains, lemma_push_no_duplicates};
use crate::websockets::maps::{
    codes_contains, codes_insert, codes_new, codes_remove, subscribed_codes,
};

verus! {

/// The address a session carries until it logs in.
pub const GUEST_ADDRESS: &'static str = "guest";

/// The classes of event a WebSocket session can ask to receive.
#[derive(Debug, Clone, Copy, PartialEq, Eq, Hash, Structural)]
pub enum WebSocketSubscriptionType {
    Blocks,
    OwnBlocks,
    Transactions,
    OwnTransactions,
    Names,
    OwnNames,
    Motd,
}

impl WebSocketSubscriptionType {
    /// The number that stands for a subscription in a session's set.
    pub open spec fn spec_code(self) -> u8 {
        match self {
            WebSocketSubscriptionType::Blocks => 0,
            WebSocketSubscriptionType::OwnBlocks => 1,
            WebSocketSubscriptionType::Transactions => 2,
            WebSocketSubscriptionType::OwnTransactions => 3,
            WebSocketSubscriptionType::Names => 4,
            WebSocketSubscriptionType::OwnNames => 5,
            WebSocketSubscriptionType::Motd => 6,
        }
    }

    /// The number that stands for this subscription in a session's set.
    pub fn code(&self) -> (r: u8)
        ensures
            r == self.spec_code(),
    {
        match self {
            WebSocketSubscriptionType::Blocks => 0,
            WebSocketSubscriptionType::OwnBlocks => 1,
            WebSocketSubscriptionType::Transactions => 2,
            WebSocketSubscriptionType::OwnTransactions => 3,
            WebSocketSubscriptionType::Names => 4,
            WebSocketSubscriptionType::OwnNames => 5,
            WebSocketSubscriptionType::Motd => 6,
        }
    }

    /// The name a subscription goes by on the wire.
    pub open spec fn spec_name(self) -> Seq<char> {
        match self {
            WebSocketSubscriptionType::Blocks => "blocks"@,
            WebSocketSubscriptionType::OwnBlocks => "ownBlocks"@,
            WebSocketSubscriptionType::Transactions => "transactions"@,
            WebSocketSubscriptionType::OwnTransactions => "ownTransactions"@,
            WebSocketSubscriptionType::Names => "names"@,
            WebSocketSubscriptionType::OwnNames => "ownNames"@,
            WebSocketSubscriptionType::Motd => "motd"@,
        }
    }

    /// The subscription that goes by `name`, if one does.
    pub open spec fn spec_parse(name: Seq<char>) -> Option<WebSocketSubscriptionType> {
        if name == "blocks"@ {
            Some(WebSocketSubscriptionType::Blocks)
        } else if name == "ownBlocks"@ {
            Some(WebSocketSubscriptionType::OwnBlocks)
        } else if name == "transactions"@ {
            Some(WebSocketSubscriptionType::Transactions)
        } else if name == "ownTransactions"@ {
            Some(WebSocketSubscriptionType::OwnTransactions)
        } else if name == "names"@ {
            Some(WebSocketSubscriptionType::Names)
        } else if name == "ownNames"@ {
            Some(WebSocketSubscriptionType::OwnNames)
        } else if name == "motd"@ {
            Some(WebSocketSubscriptionType::Motd)
        } else {
            None
        }
    }

    /// Every subscription there is.
    pub open spec fn spec_all() -> Seq<WebSocketSubscriptionType> {
        seq![
            WebSocketSubscriptionType::Blocks,
            WebSocketSubscriptionType::OwnBlocks,
            WebSocketSubscriptionType::Transactions,
            WebSocketSubscriptionType::OwnTransactions,
            WebSocketSubscriptionType::Names,
            WebSocketSubscriptionType::OwnNames,
            WebSocketSubscriptionType::Motd,
        ]
    }

    /// The name this subscription goes by on the wire.
    pub fn name(&self) -> (r: &'static str)
        ensures
            r@ == self.spec_name(),
    {
        match self {
            WebSocketSubscriptionType::Blocks => "blocks",
            WebSocketSubscriptionType::OwnBlocks => "ownBlocks",
            WebSocketSubscriptionType::Transactions => "transactions",
            WebSocketSubscriptionType::OwnTransactions => "ownTransactions",
            WebSocketSubscriptionType::Names => "names",
            WebSocketSubscriptionType::OwnNames => "ownNames",
            WebSocketSubscriptionType::Motd => "motd",
        }
    }

    /// Reads a subscription's name.
    pub fn parse(name: &str) -> (r: Option<WebSocketSubscriptionType>)
        ensures
            r == Self::spec_parse(name@),
    {
        if str_eq(name, "blocks") {
            Some(WebSocketSubscriptionType::Blocks)
        } else if str_eq(name, "ownBlocks") {
            Some(WebSocketSubscriptionType::OwnBlocks)
        } else if str_eq(name, "transactions") {
            Some(WebSocketSubscriptionType::Transactions)
        } else if str_eq(name, "ownTransactions") {
            Some(WebSocketSubscriptionType::OwnTransactions)
        } else if str_eq(name, "names") {
            Some(WebSocketSubscriptionType::Names)
        } else if str_eq(name, "ownNames") {
            Some(WebSocketSubscriptionType::OwnNames)
        } else if str_eq(name, "motd") {
            Some(WebSocketSubscriptionType::Motd)
        } else {
            None
        }
    }

    /// Every subscription there is.
    pub fn all() -> (r: Vec<WebSocketSubscriptionType>)
        ensures
            r@ == Self::spec_all(),
            r@.no_duplicates(),
            forall|kind: WebSocketSubscriptionType| r@.contains(kind),
    {
        let r = vec![
            WebSocketSubscriptionType::Blocks,
            WebSocketSubscriptionType::OwnBlocks,
            WebSocketSubscriptionType::Transactions,
            WebSocketSubscriptionType::OwnTransactions,
            WebSocketSubscriptionType::Names,
            WebSocketSubscriptionType::OwnNames,
            WebSocketSubscriptionType::Motd,
        ];
        proof {
            assert(r@ =~= Self::spec_all());
            assert forall|kind: WebSocketSubscriptionType| r@.contains(kind) by {
                match kind {
                    WebSocketSubscriptionType::Blocks => assert(r@[0] == kind),
                    WebSocketSubscriptionType::OwnBlocks => assert(r@[1] == kind),
                    WebSocketSubscriptionType::Transactions => assert(r@[2] == kind),
                    WebSocketSubscriptionType::OwnTransactions => assert(r@[3] == kind),
                    WebSocketSubscriptionType::Names => assert(r@[4] == kind),
                    WebSocketSubscriptionType::OwnNames => assert(r@[5] == kind),
                    WebSocketSubscriptionType::Motd => assert(r@[6] == kind),
                }
            }
        }
        r
    }
}

/// No two subscriptions have the same code.
pub proof fn lemma_codes_differ(a: WebSocketSubscriptionType, b: WebSocketSubscriptionType)
    ensures
        a.spec_code() == b.spec_code() <==> a == b,
{
}

/// The subscriptions that a set of codes stands for.
pub open spec fn kinds_of(codes: Set<u8>) -> Set<WebSocketSubscriptionType> {
    Set::new(|kind: WebSocketSubscriptionType| codes.contains(kind.spec_code()))
}

/// Adding a code to a set adds the subscription it stands for.
pub proof fn lemma_kinds_insert(codes: Set<u8>, kind: WebSocketSubscriptionType)
    ensures
        kinds_of(codes.insert(kind.spec_code())) == kinds_of(codes).insert(kind),
{
    assert forall|k: WebSocketSubscriptionType|
        kinds_of(codes.insert(kind.spec_code())).contains(k) == kinds_of(codes).insert(
            kind,
        ).contains(k) by {
        lemma_codes_differ(k, kind);
    }
    assert(kinds_of(codes.insert(kind.spec_code())) =~= kinds_of(codes).insert(kind));
}

/// Removing a code from a set removes the subscription it stands for.
pub proof fn lemma_kinds_remove(codes: Set<u8>, kind: WebSocketSubscriptionType)
    ensures
        kinds_of(codes.remove(kind.spec_code())) == kinds_of(codes).remove(kind),
{
    assert forall|k: WebSocketSubscriptionType|
        kinds_of(codes.remove(kind.spec_code())).contains(k) == kinds_of(codes).remove(
            kind,
        ).contains(k) by {
        lemma_codes_differ(k, kind);
    }
    assert(kinds_of(codes.remove(kind.spec_code())) =~= kinds_of(codes).remove(kind));
}

/// What a one-shot hand-off token stands for until the socket is opened.
#[derive(Debug, PartialEq)]
pub struct WebSocketTokenData {
    pub address: String,
    pub private_key: Option<String>,
    pub computer_id: Option<i32>,
}

/// Mathematical content of a [`WebSocketTokenData`].
pub ghost struct TokenView {
    pub address: Seq<char>,
    pub private_key: Option<Seq<char>>,
    pub computer_id: Option<i32>,
}

impl View for WebSocketTokenData {
    type V = TokenView;

    open spec fn view(&self) -> TokenView {
        TokenView {
            address: self.address@,
            private_key: self.private_key.deep_view(),
            computer_id: self.computer_id,
        }
    }
}

impl WebSocketTokenData {
    pub fn new(address: String, private_key: Option<String>, computer_id: Option<i32>) -> (r: Self)
        ensures
            r@ == (TokenView {
                address: address@,
                private_key: private_key.deep_view(),
                computer_id,
            }),
    {
        WebSocketTokenData { address, private_key, computer_id }
    }
}

/// The state the hub keeps for one live connection. The socket itself stays
/// with whoever owns the connection; the hub decides from this record alone.
#[derive(Debug)]
pub struct WebSocketSessionData {
    pub address: String,
    pub private_key: Option<String>,
    /// The codes of the session's subscriptions.
    pub subscriptions: scc::HashSet<u8>,
    pub computer_id: Option<i32>,
}

/// Mathematical content of a [`WebSocketSessionData`].
pub ghost struct SessionView {
    pub address: Seq<char>,
    pub private_key: Option<Seq<char>>,
    pub subscriptions: Set<WebSocketSubscriptionType>,
    pub computer_id: Option<i32>,
}

impl View for WebSocketSessionData {
    type V = SessionView;

    open spec fn view(&self) -> SessionView {
        SessionView {
            address: self.address@,
            private_key: self.private_key.deep_view(),
            subscriptions: kinds_of(subscribed_codes(self.subscriptions)),
            computer_id: self.computer_id,
        }
    }
}

impl SessionView {
    /// A session that has not logged in.
    pub open spec fn is_guest(self) -> bool {
        self.address == GUEST_ADDRESS@
    }

    /// The session a connection starts with: the token's identity and the
    /// two default subscriptions.
    pub open spec fn fresh(token: TokenView) -> SessionView {
        SessionView {
            address: token.address,
            private_key: token.private_key,
            subscriptions: set![
                WebSocketSubscriptionType::OwnTransactions,
                WebSocketSubscriptionType::Blocks
            ],
            computer_id: token.computer_id,
        }
    }

    /// The session after one mutation.
    pub open spec fn apply(self, op: SessionOp) -> SessionView {
        match op {
            SessionOp::Subscribe(kind) => SessionView {
                subscriptions: self.subscriptions.insert(kind),
                ..self
            },
            SessionOp::Unsubscribe(kind) => SessionView {
                subscriptions: self.subscriptions.remove(kind),
                ..self
            },
            SessionOp::Login { address, private_key } => SessionView {
                address: address@,
                private_key: Some(private_key@),
                ..self
            },
            SessionOp::Logout => SessionView {
                address: GUEST_ADDRESS@,
                private_key: None,
                ..self
            },
        }
    }
}

/// One mutation of a session, applied in place while the hub holds the entry.
#[derive(Debug, PartialEq)]
pub enum SessionOp {
    Subscribe(WebSocketSubscriptionType),
    Unsubscribe(WebSocketSubscriptionType),
    Login { address: String, private_key: String },
    Logout,
}

impl WebSocketSessionData {
    /// The session a connection starts with.
    pub fn from_token(data: WebSocketTokenData) -> (r: Self)
        ensures
            r@ == SessionView::fresh(data@),
    {
        let mut subscriptions = codes_new();
        codes_insert(&mut subscriptions, WebSocketSubscriptionType::OwnTransactions.code());
        codes_insert(&mut subscriptions, WebSocketSubscriptionType::Blocks.code());
        proof {
            assert(kinds_of(Set::<u8>::empty()) =~= Set::<WebSocketSubscriptionType>::empty());
            lemma_kinds_insert(Set::<u8>::empty(), WebSocketSubscriptionType::OwnTransactions);
            lemma_kinds_insert(
                Set::<u8>::empty().insert(WebSocketSubscriptionType::OwnTransactions.spec_code()),
                WebSocketSubscriptionType::Blocks,
            );
        }
        let r = WebSocketSessionData {
            address: data.address,
            private_key: data.private_key,
            subscriptions,
            computer_id: data.computer_id,
        };
        assert(r@.subscriptions =~= SessionView::fresh(data@).subscriptions);
        r
    }

    pub fn is_guest(&self) -> (r: bool)
        ensures
            r == self@.is_guest(),
    {
        str_eq(self.address.as_str(), GUEST_ADDRESS)
    }

    pub fn is_subscribed_to(&self, kind: WebSocketSubscriptionType) -> (r: bool)
        ensures
            r == self@.subscriptions.contains(kind),
    {
        codes_contains(&self.subscriptions, kind.code())
    }

    /// The broadcast filter for one session.
    pub fn wants(&self, event: &WebSocketEvent) -> (r: bool)
        ensures
            r == event@.wanted_by(self@),
    {
        match event {
            WebSocketEvent::Block { address } => {
                self.is_subscribed_to(WebSocketSubscriptionType::Blocks) || (!self.is_guest()
                    && str_eq(self.address.as_str(), address.as_str()) && self.is_subscribed_to(
                    WebSocketSubscriptionType::OwnBlocks,
                ))
            },
            WebSocketEvent::Transaction { from, to } => {
                self.is_subscribed_to(WebSocketSubscriptionType::Transactions) || (!self.is_guest()
                    && (str_eq(self.address.as_str(), to.as_str()) || opt_str_eq(
                    from,
                    self.address.as_str(),
                )) && self.is_subscribed_to(WebSocketSubscriptionType::OwnTransactions))
            },
            WebSocketEvent::Name { owner } => {
                self.is_subscribed_to(WebSocketSubscriptionType::Names) || (!self.is_guest()
                    && str_eq(self.address.as_str(), owner.as_str()) && self.is_subscribed_to(
                    WebSocketSubscriptionType::OwnNames,
                ))
            },
        }
    }

    /// The session's subscriptions, each once.
    pub fn subscription_list(&self) -> (r: Vec<WebSocketSubscriptionType>)
        ensures
            r@.no_duplicates(),
            r@.to_set() == self@.subscriptions,
    {
        let all = WebSocketSubscriptionType::all();
        let mut held: Vec<WebSocketSubscriptionType> = Vec::new();
        let mut i: usize = 0;
        while i < all.len()
            invariant
                i <= all.len(),
                all@.no_duplicates(),
                forall|kind: WebSocketSubscriptionType| all@.contains(kind),
                held@.no_duplicates(),
                forall|kind: WebSocketSubscriptionType|
                    held@.contains(kind) <==> all@.take(i as int).contains(kind)
                        && self@.subscriptions.contains(kind),
            decreases all.len() - i,
        {
            let kind = all[i];
            let ghost before = held@;
            proof {
                assert(all@.take(i + 1) == all@.take(i as int).push(kind));
                lemma_push_contains(all@.take(i as int), kind);
                if all@.take(i as int).contains(kind) {
                    let j = choose|j: int| 0 <= j < i && all@.take(i as int)[j] == kind;
                    assert(all@[j] == all@[i as int]);
                }
            }
            if self.is_subscribed_to(kind) {
                held.push(kind);
                proof {
                    lemma_push_contains(before, kind);
                    lemma_push_no_duplicates(before, kind);
                }
            }
            i += 1;
        }
        proof {
            assert(all@.take(all.len() as int) == all@);
            assert(held@.to_set() =~= self@.subscriptions);
        }
        held
    }

    /// Applies one mutation in place.
    pub fn apply(&mut self, op: &SessionOp)
        ensures
            final(self)@ == old(self)@.apply(*op),
    {
        match op {
            SessionOp::Subscribe(kind) => {
                proof {
                    lemma_kinds_insert(subscribed_codes(self.subscriptions), *kind);
                }
                codes_insert(&mut self.subscriptions, kind.code());
            },
            SessionOp::Unsubscribe(kind) => {
                proof {
                    lemma_kinds_remove(subscribed_codes(self.subscriptions), *kind);
                }
                codes_remove(&mut self.subscriptions, kind.code());
            },
            SessionOp::Login { address, private_key } => {
                self.address = address.clone();
                self.private_key = Some(private_key.clone());
            },
            SessionOp::Logout => {
                self.address = String::from_str(GUEST_ADDRESS);
                self.private_key = None;
            },
        }
    }

    /// An independent copy of the session.
    pub fn duplicate(&self) -> (r: Self)
        ensures
            r@ == self@,
    {
        let kinds = self.subscription_list();
        let mut subscriptions = codes_new();
        let mut i: usize = 0;
        assert(kinds_of(Set::<u8>::empty()) =~= kinds@.take(0).to_set());
        while i < kinds.len()
            invariant
                i <= kinds.len(),
                kinds@.to_set() == self@.subscriptions,
                kinds_of(subscribed_codes(subscriptions)) == kinds@.take(i as int).to_set(),
            decreases kinds.len() - i,
        {
            proof {
                lemma_kinds_insert(subscribed_codes(subscriptions), kinds[i as int]);
            }
            codes_insert(&mut subscriptions, kinds[i].code());
            proof {
                assert(kinds@.take(i + 1) == kinds@.take(i as int).push(kinds@[i as int]));
                kinds@.take(i as int).lemma_push_to_set_commute(kinds@[i as int]);
            }
            i += 1;
        }
        assert(kinds@.take(kinds.len() as int) == kinds@);
        WebSocketSessionData {
            address: self.address.clone(),
            private_key: clone_opt_string(&self.private_key),
            subscriptions,
            computer_id: self.computer_id,
        }
    }
}

} // verus!
