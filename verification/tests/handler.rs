use kromer::database::ledger::Ledger;
use kromer::database::wallet::{Model as Wallet, VerifyResponse};
use kromer::models::krist::websockets::{
    WebSocketEvent, WebSocketMessage, WebSocketMessageInner, WebSocketMessageResponse,
};
use kromer::websockets::handler::{
    missing_parameter, process_request, read_request, request_kind, RequestFields, RequestKind,
    WebSocketRequest,
};
use kromer::websockets::routes::auth::{perform_login, perform_logout};
use kromer::websockets::types::common::{WebSocketSubscriptionType, WebSocketTokenData};
use kromer::websockets::WebSocketServer;

fn wallet(id: i32, address: &str, balance: u64) -> Wallet {
    let mut w = Wallet::new(id, address.to_string(), 0);
    w.balance = balance;
    w
}

fn setup() -> (WebSocketServer, Ledger) {
    let mut server = WebSocketServer::new();
    server.insert_session(1, WebSocketTokenData::new("guest".to_string(), None, None));
    server.insert_session(
        2,
        WebSocketTokenData::new("kaaaaaaaaa".to_string(), Some("key".to_string()), None),
    );
    let mut ledger = Ledger::new();
    ledger.insert_wallet(wallet(1, "kaaaaaaaaa", 100));
    ledger.insert_wallet(wallet(2, "kbbbbbbbbb", 0));
    (server, ledger)
}

fn error_code(m: &WebSocketMessage) -> &str {
    assert_eq!(m.ok, Some(false));
    match &m.inner {
        WebSocketMessageInner::Error { error, message } => {
            assert!(!message.is_empty());
            error
        }
        other => panic!("expected an error, got {:?}", other),
    }
}

fn data(m: WebSocketMessage) -> WebSocketMessageResponse {
    assert_eq!(m.ok, Some(true));
    match m.inner {
        WebSocketMessageInner::Response { data } => data,
        other => panic!("expected a response, got {:?}", other),
    }
}

fn ask(
    server: &mut WebSocketServer,
    ledger: &mut Ledger,
    uuid: u128,
    request: WebSocketRequest,
) -> (WebSocketMessage, Option<WebSocketEvent>) {
    process_request(server, ledger, &uuid, request, None, Some(5), 99)
}

fn in_order(mut kinds: Vec<WebSocketSubscriptionType>) -> Vec<WebSocketSubscriptionType> {
    let mut all = WebSocketSubscriptionType::all();
    all.retain(|k| kinds.contains(k));
    kinds.clear();
    all
}

#[test]
fn request_types() {
    let known = [
        ("login", RequestKind::Login),
        ("logout", RequestKind::Logout),
        ("subscribe", RequestKind::Subscribe),
        ("unsubscribe", RequestKind::Unsubscribe),
        ("get_subscription_level", RequestKind::GetSubscriptionLevel),
        ("get_valid_subscription_levels", RequestKind::GetValidSubscriptionLevels),
        ("me", RequestKind::Me),
        ("address", RequestKind::Address),
        ("submit_block", RequestKind::SubmitBlock),
        ("make_transaction", RequestKind::MakeTransaction),
    ];
    for (name, kind) in known {
        assert_eq!(request_kind(name), kind);
    }
    for name in ["", "Login", "login ", "work"] {
        assert_eq!(request_kind(name), RequestKind::Unknown);
    }
}

#[test]
fn login_rewrites_the_session() {
    let (mut server, _) = setup();
    let verified =
        VerifyResponse { authed: true, model: wallet(1, "kaaaaaaaaa", 100) };
    let reply = perform_login(&mut server, &1, "key".to_string(), Some(&verified), Some(3));
    assert_eq!(reply.id, Some(3));
    assert_eq!(
        data(reply),
        WebSocketMessageResponse::Login { is_guest: false, address: Some(wallet(1, "kaaaaaaaaa", 100)) }
    );
    let session = server.fetch_session_data(&1).unwrap();
    assert_eq!(session.address, "kaaaaaaaaa");
    assert_eq!(session.private_key, Some("key".to_string()));
}

#[test]
fn failed_login_never_says_why() {
    let (mut server, _) = setup();
    let guest = WebSocketMessageResponse::Login { is_guest: true, address: None };
    let refused = VerifyResponse { authed: false, model: wallet(1, "kaaaaaaaaa", 100) };
    let verified = VerifyResponse { authed: true, model: wallet(1, "kaaaaaaaaa", 100) };
    let reply = perform_login(&mut server, &1, "key".to_string(), Some(&refused), None);
    assert_eq!(reply.id, None);
    assert_eq!(data(reply), guest);
    assert_eq!(data(perform_login(&mut server, &1, "key".to_string(), None, None)), guest);
    // a session that is gone
    assert_eq!(data(perform_login(&mut server, &9, "key".to_string(), Some(&verified), None)), guest);
    assert!(server.fetch_session_data(&1).unwrap().is_guest());
    assert!(server.fetch_session_data(&9).is_none());
}

#[test]
fn logout_clears_the_key() {
    let (mut server, _) = setup();
    let reply = perform_logout(&mut server, &2, Some(8));
    assert_eq!(reply.id, Some(8));
    assert_eq!(data(reply), WebSocketMessageResponse::Logout { is_guest: true });
    let session = server.fetch_session_data(&2).unwrap();
    assert!(session.is_guest());
    assert_eq!(session.private_key, None);
    assert_eq!(error_code(&perform_logout(&mut server, &9, None)), "session_not_found");
}

#[test]
fn login_through_the_dispatcher() {
    let (mut server, mut ledger) = setup();
    let verified = VerifyResponse { authed: true, model: wallet(2, "kbbbbbbbbb", 0) };
    let (reply, event) = process_request(
        &mut server,
        &mut ledger,
        &1,
        WebSocketRequest::Login { private_key: "other".to_string() },
        Some(&verified),
        Some(1),
        0,
    );
    assert!(event.is_none());
    assert!(matches!(data(reply), WebSocketMessageResponse::Login { is_guest: false, .. }));
    assert_eq!(server.fetch_session_data(&1).unwrap().address, "kbbbbbbbbb");
    let (reply, _) = ask(&mut server, &mut ledger, 1, WebSocketRequest::Logout);
    assert_eq!(data(reply), WebSocketMessageResponse::Logout { is_guest: true });
}

#[test]
fn subscriptions_through_the_dispatcher() {
    let (mut server, mut ledger) = setup();
    let level = |reply: WebSocketMessage| match data(reply) {
        WebSocketMessageResponse::SubscriptionLevel { subscription_level } => {
            in_order(subscription_level)
        }
        other => panic!("unexpected {:?}", other),
    };
    let (reply, event) = ask(
        &mut server,
        &mut ledger,
        1,
        WebSocketRequest::Subscribe { event: "names".to_string() },
    );
    assert!(event.is_none());
    assert_eq!(reply.id, Some(5));
    assert_eq!(
        level(reply),
        vec![
            WebSocketSubscriptionType::Blocks,
            WebSocketSubscriptionType::OwnTransactions,
            WebSocketSubscriptionType::Names
        ]
    );
    let (reply, _) = ask(
        &mut server,
        &mut ledger,
        1,
        WebSocketRequest::Unsubscribe { event: "blocks".to_string() },
    );
    assert_eq!(
        level(reply),
        vec![WebSocketSubscriptionType::OwnTransactions, WebSocketSubscriptionType::Names]
    );
    let (reply, _) = ask(&mut server, &mut ledger, 1, WebSocketRequest::GetSubscriptionLevel);
    assert_eq!(
        level(reply),
        vec![WebSocketSubscriptionType::OwnTransactions, WebSocketSubscriptionType::Names]
    );
    let (reply, _) = ask(&mut server, &mut ledger, 9, WebSocketRequest::GetSubscriptionLevel);
    assert_eq!(level(reply), vec![]);
    let (reply, _) = ask(
        &mut server,
        &mut ledger,
        1,
        WebSocketRequest::Subscribe { event: "everything".to_string() },
    );
    assert_eq!(error_code(&reply), "invalid_parameter");
    let (reply, _) = ask(
        &mut server,
        &mut ledger,
        9,
        WebSocketRequest::Subscribe { event: "names".to_string() },
    );
    assert_eq!(error_code(&reply), "session_not_found");
    let (reply, _) = ask(&mut server, &mut ledger, 1, WebSocketRequest::GetValidSubscriptionLevels);
    assert_eq!(
        data(reply),
        WebSocketMessageResponse::ValidSubscriptionLevels {
            valid_subscription_levels: WebSocketSubscriptionType::all()
        }
    );
}

#[test]
fn me_and_address() {
    let (mut server, mut ledger) = setup();
    let (reply, _) = ask(&mut server, &mut ledger, 1, WebSocketRequest::Me);
    assert_eq!(data(reply), WebSocketMessageResponse::Me { is_guest: true, address: None });
    let (reply, _) = ask(&mut server, &mut ledger, 2, WebSocketRequest::Me);
    assert_eq!(
        data(reply),
        WebSocketMessageResponse::Me { is_guest: false, address: Some(wallet(1, "kaaaaaaaaa", 100)) }
    );
    let (reply, _) = ask(&mut server, &mut ledger, 9, WebSocketRequest::Me);
    assert_eq!(error_code(&reply), "session_not_found");
    server.insert_session(3, WebSocketTokenData::new("kccccccccc".to_string(), None, None));
    let (reply, _) = ask(&mut server, &mut ledger, 3, WebSocketRequest::Me);
    assert_eq!(error_code(&reply), "address_not_found");
    let (reply, _) = ask(
        &mut server,
        &mut ledger,
        1,
        WebSocketRequest::Address { address: "kbbbbbbbbb".to_string() },
    );
    assert_eq!(
        data(reply),
        WebSocketMessageResponse::Address { address: wallet(2, "kbbbbbbbbb", 0) }
    );
    let (reply, _) = ask(
        &mut server,
        &mut ledger,
        1,
        WebSocketRequest::Address { address: "kccccccccc".to_string() },
    );
    assert_eq!(error_code(&reply), "address_not_found");
}

#[test]
fn mining_is_disabled_and_unknown_types_are_refused() {
    let (mut server, mut ledger) = setup();
    let (reply, event) = ask(&mut server, &mut ledger, 1, WebSocketRequest::SubmitBlock);
    assert_eq!(error_code(&reply), "mining_disabled");
    assert_eq!(reply.id, Some(5));
    assert!(event.is_none());
    let (reply, event) = ask(&mut server, &mut ledger, 1, WebSocketRequest::Unknown);
    assert_eq!(error_code(&reply), "unknown_type");
    assert!(event.is_none());
}

#[test]
fn payment_over_the_socket_reaches_the_subscribers() {
    let (mut server, mut ledger) = setup();
    server.insert_session(3, WebSocketTokenData::new("kbbbbbbbbb".to_string(), None, None));
    server.insert_session(4, WebSocketTokenData::new("kccccccccc".to_string(), None, None));
    server.subscribe_to_event(&1, WebSocketSubscriptionType::Transactions);
    let pay = WebSocketRequest::MakeTransaction {
        to: "kbbbbbbbbb".to_string(),
        amount: 40,
        metadata: Some("thanks".to_string()),
    };
    let (reply, event) = ask(&mut server, &mut ledger, 2, pay);
    let row = match data(reply) {
        WebSocketMessageResponse::MakeTransaction { transaction } => transaction,
        other => panic!("unexpected {:?}", other),
    };
    assert_eq!(row.id, 1);
    assert_eq!(row.amount, 40);
    assert_eq!(row.metadata, Some("thanks".to_string()));
    assert_eq!(row.date, 99);
    assert_eq!(ledger.balance_of("kaaaaaaaaa"), Some(60));
    assert_eq!(ledger.balance_of("kbbbbbbbbb"), Some(40));
    assert_eq!(ledger.transaction_count(), 1);
    let event = event.unwrap();
    assert_eq!(
        event,
        WebSocketEvent::Transaction {
            from: Some("kaaaaaaaaa".to_string()),
            to: "kbbbbbbbbb".to_string()
        }
    );
    let mut targets = server.broadcast_event(&event);
    targets.sort();
    assert_eq!(targets, vec![1, 2, 3]);
    assert!(matches!(
        WebSocketMessage::new_event(event).inner,
        WebSocketMessageInner::Event { .. }
    ));
}

#[test]
fn payments_that_are_refused() {
    let (mut server, mut ledger) = setup();
    let pay = |to: &str, amount| WebSocketRequest::MakeTransaction {
        to: to.to_string(),
        amount,
        metadata: None,
    };
    let cases = [
        (1, pay("kbbbbbbbbb", 1), "not_logged_in"),
        (9, pay("kbbbbbbbbb", 1), "session_not_found"),
        (2, pay("kbbbbbbbbb", 101), "insufficient_funds"),
        (2, pay("kccccccccc", 1), "address_not_found"),
    ];
    for (uuid, request, code) in cases {
        let (reply, event) = ask(&mut server, &mut ledger, uuid, request);
        assert_eq!(error_code(&reply), code);
        assert!(event.is_none());
    }
    server.insert_session(3, WebSocketTokenData::new("kccccccccc".to_string(), None, None));
    let (reply, _) = ask(&mut server, &mut ledger, 3, pay("kbbbbbbbbb", 1));
    assert_eq!(error_code(&reply), "address_not_found");
    let mut full = wallet(3, "kdddddddddd", 0);
    full.total_in = u64::MAX;
    ledger.insert_wallet(full);
    let (reply, _) = ask(&mut server, &mut ledger, 2, pay("kdddddddddd", 1));
    assert_eq!(error_code(&reply), "server_error");
    assert_eq!(ledger.balance_of("kaaaaaaaaa"), Some(100));
    assert_eq!(ledger.transaction_count(), 0);
}

#[test]
fn requests_are_made_of_their_fields() {
    let none = RequestFields {
        private_key: None,
        event: None,
        address: None,
        to: None,
        amount: None,
        metadata: None,
    };
    let all = RequestFields {
        private_key: Some("key".to_string()),
        event: Some("names".to_string()),
        address: Some("kaaaaaaaaa".to_string()),
        to: Some("kbbbbbbbbb".to_string()),
        amount: Some(40),
        metadata: Some("thanks".to_string()),
    };
    let made = |kind| read_request(kind, all.clone()).unwrap();
    assert_eq!(made(RequestKind::Login), WebSocketRequest::Login { private_key: "key".to_string() });
    assert_eq!(made(RequestKind::Logout), WebSocketRequest::Logout);
    assert_eq!(made(RequestKind::Subscribe), WebSocketRequest::Subscribe { event: "names".to_string() });
    assert_eq!(
        made(RequestKind::Unsubscribe),
        WebSocketRequest::Unsubscribe { event: "names".to_string() }
    );
    assert_eq!(made(RequestKind::GetSubscriptionLevel), WebSocketRequest::GetSubscriptionLevel);
    assert_eq!(
        made(RequestKind::GetValidSubscriptionLevels),
        WebSocketRequest::GetValidSubscriptionLevels
    );
    assert_eq!(made(RequestKind::Me), WebSocketRequest::Me);
    assert_eq!(
        made(RequestKind::Address),
        WebSocketRequest::Address { address: "kaaaaaaaaa".to_string() }
    );
    assert_eq!(made(RequestKind::SubmitBlock), WebSocketRequest::SubmitBlock);
    assert_eq!(
        made(RequestKind::MakeTransaction),
        WebSocketRequest::MakeTransaction {
            to: "kbbbbbbbbb".to_string(),
            amount: 40,
            metadata: Some("thanks".to_string())
        }
    );
    assert_eq!(made(RequestKind::Unknown), WebSocketRequest::Unknown);

    let lacks = |kind, fields: &RequestFields| read_request(kind, fields.clone()).unwrap_err();
    assert_eq!(lacks(RequestKind::Login, &none), "privatekey");
    assert_eq!(lacks(RequestKind::Subscribe, &none), "event");
    assert_eq!(lacks(RequestKind::Unsubscribe, &none), "event");
    assert_eq!(lacks(RequestKind::Address, &none), "address");
    assert_eq!(lacks(RequestKind::MakeTransaction, &none), "to");
    let no_amount = RequestFields { amount: None, ..all.clone() };
    assert_eq!(lacks(RequestKind::MakeTransaction, &no_amount), "amount");
    let no_metadata = RequestFields { metadata: None, ..all.clone() };
    assert!(read_request(RequestKind::MakeTransaction, no_metadata).is_ok());
    for kind in [RequestKind::Logout, RequestKind::Me, RequestKind::SubmitBlock, RequestKind::Unknown] {
        assert!(read_request(kind, none.clone()).is_ok());
    }

    let reply = missing_parameter("amount", Some(4));
    assert_eq!(reply.id, Some(4));
    assert_eq!(error_code(&reply), "missing_parameter");
    assert!(matches!(
        reply.inner,
        WebSocketMessageInner::Error { ref message, .. } if message == "Missing parameter amount"
    ));
}
