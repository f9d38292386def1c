use kromer::models::krist::websockets::WebSocketEvent;
use kromer::websockets::errors::WebSocketServerError;
use kromer::websockets::types::common::{
    SessionOp, WebSocketSessionData, WebSocketSubscriptionType, WebSocketTokenData,
};
use kromer::websockets::{
    WebSocketServer, CLIENT_TIMEOUT, HEARTBEAT_INTERVAL, TOKEN_EXPIRATION,
};

fn token(address: &str) -> WebSocketTokenData {
    WebSocketTokenData::new(address.to_string(), None, None)
}

fn sorted(mut ids: Vec<u128>) -> Vec<u128> {
    ids.sort();
    ids
}

fn subs_of(server: &WebSocketServer, id: u128) -> Vec<WebSocketSubscriptionType> {
    let mut all = WebSocketSubscriptionType::all();
    let held = server.get_subscription_list(&id);
    all.retain(|k| held.contains(k));
    assert_eq!(all.len(), held.len());
    all
}

#[test]
fn constants() {
    assert_eq!(HEARTBEAT_INTERVAL, 5_000);
    assert_eq!(CLIENT_TIMEOUT, 10_000);
    assert_eq!(TOKEN_EXPIRATION, 30_000);
}

#[test]
fn token_is_used_exactly_once() {
    let mut server = WebSocketServer::new();
    let id = server
        .obtain_token(WebSocketTokenData::new(
            "kre3w0i79j".to_string(),
            Some("secret".to_string()),
            Some(42),
        ))
        .unwrap();
    let data = server.use_token(&id).unwrap();
    assert_eq!(data.address, "kre3w0i79j");
    assert_eq!(data.private_key, Some("secret".to_string()));
    assert_eq!(data.computer_id, Some(42));
    assert_eq!(server.use_token(&id).unwrap_err(), WebSocketServerError::TokenNotFound);
    assert_eq!(WebSocketServerError::TokenNotFound.message(), "Token not found");
}

#[test]
fn token_ids_do_not_collide() {
    let mut server = WebSocketServer::new();
    assert!(server.obtain_token_as(5, token("kaaaaaaaaa")).is_ok());
    let back = server.obtain_token_as(5, token("kbbbbbbbbb")).unwrap_err();
    assert_eq!(back.address, "kbbbbbbbbb");
    assert_eq!(server.use_token(&5).unwrap().address, "kaaaaaaaaa");
    assert!(server.use_token(&6).is_err());
}

#[test]
fn expired_token_cannot_be_used() {
    let mut server = WebSocketServer::new();
    let id = server.obtain_token(token("guest")).unwrap();
    assert!(server.expire_token(&id));
    assert!(!server.expire_token(&id));
    assert!(server.use_token(&id).is_err());
}

#[test]
fn new_session_has_the_default_subscriptions() {
    let mut server = WebSocketServer::new();
    assert!(server.insert_session(1, token("kre3w0i79j")));
    assert_eq!(
        subs_of(&server, 1),
        vec![WebSocketSubscriptionType::Blocks, WebSocketSubscriptionType::OwnTransactions]
    );
    // a live connection id keeps its session
    assert!(!server.insert_session(1, token("kother0000")));
    assert_eq!(server.fetch_session_data(&1).unwrap().address, "kre3w0i79j");
    assert_eq!(server.session_count(), 1);
    assert!(server.get_subscription_list(&2).is_empty());
    assert!(server.fetch_session_data(&2).is_none());
}

#[test]
fn subscribe_and_unsubscribe_are_idempotent() {
    let mut server = WebSocketServer::new();
    server.insert_session(1, token("guest"));
    assert!(server.subscribe_to_event(&1, WebSocketSubscriptionType::Names));
    assert!(server.subscribe_to_event(&1, WebSocketSubscriptionType::Names));
    assert_eq!(
        subs_of(&server, 1),
        vec![
            WebSocketSubscriptionType::Blocks,
            WebSocketSubscriptionType::OwnTransactions,
            WebSocketSubscriptionType::Names
        ]
    );
    assert!(server.unsubscribe_from_event(&1, &WebSocketSubscriptionType::Blocks));
    assert!(server.unsubscribe_from_event(&1, &WebSocketSubscriptionType::Blocks));
    assert_eq!(
        subs_of(&server, 1),
        vec![WebSocketSubscriptionType::OwnTransactions, WebSocketSubscriptionType::Names]
    );
    assert!(!server.subscribe_to_event(&2, WebSocketSubscriptionType::Names));
    assert!(!server.unsubscribe_from_event(&2, &WebSocketSubscriptionType::Names));
}

#[test]
fn session_update_and_copy() {
    let mut server = WebSocketServer::new();
    server.insert_session(1, WebSocketTokenData::new("guest".to_string(), None, Some(3)));
    let login = SessionOp::Login {
        address: "kre3w0i79j".to_string(),
        private_key: "secret".to_string(),
    };
    assert!(server.update_session(&1, &login));
    let data: WebSocketSessionData = server.fetch_session_data(&1).unwrap();
    assert_eq!(data.address, "kre3w0i79j");
    assert_eq!(data.private_key, Some("secret".to_string()));
    assert_eq!(data.computer_id, Some(3));
    assert!(!data.is_guest());
    assert!(data.is_subscribed_to(WebSocketSubscriptionType::Blocks));
    assert!(!data.is_subscribed_to(WebSocketSubscriptionType::Names));
    assert!(server.update_session(&1, &SessionOp::Logout));
    let data = server.fetch_session_data(&1).unwrap();
    assert!(data.is_guest());
    assert_eq!(data.private_key, None);
    assert!(!server.update_session(&9, &SessionOp::Logout));
}

/// Sessions: 1 = A with defaults, 2 = B with defaults, 3 = C with defaults,
/// 4 = guest subscribed to everything "own", 5 = C subscribed to all
/// transactions, 6 = A without its own transactions.
fn populated() -> WebSocketServer {
    let mut server = WebSocketServer::new();
    server.insert_session(1, token("kaaaaaaaaa"));
    server.insert_session(2, token("kbbbbbbbbb"));
    server.insert_session(3, token("kccccccccc"));
    server.insert_session(4, token("guest"));
    server.subscribe_to_event(&4, WebSocketSubscriptionType::OwnNames);
    server.subscribe_to_event(&4, WebSocketSubscriptionType::OwnBlocks);
    server.unsubscribe_from_event(&4, &WebSocketSubscriptionType::Blocks);
    server.insert_session(5, token("kccccccccc"));
    server.subscribe_to_event(&5, WebSocketSubscriptionType::Transactions);
    server.unsubscribe_from_event(&5, &WebSocketSubscriptionType::Blocks);
    server.insert_session(6, token("kaaaaaaaaa"));
    server.unsubscribe_from_event(&6, &WebSocketSubscriptionType::OwnTransactions);
    server.unsubscribe_from_event(&6, &WebSocketSubscriptionType::Blocks);
    server
}

#[test]
fn transaction_goes_to_parties_and_to_subscribers_of_all() {
    let server = populated();
    let event = WebSocketEvent::Transaction {
        from: Some("kaaaaaaaaa".to_string()),
        to: "kbbbbbbbbb".to_string(),
    };
    assert_eq!(sorted(server.broadcast_event(&event)), vec![1, 2, 5]);
}

#[test]
fn minted_transaction_has_no_sender() {
    let server = populated();
    let event = WebSocketEvent::Transaction { from: None, to: "kccccccccc".to_string() };
    assert_eq!(sorted(server.broadcast_event(&event)), vec![3, 5]);
}

#[test]
fn guest_never_receives_own_events() {
    let server = populated();
    let to_guest = WebSocketEvent::Transaction {
        from: Some("guest".to_string()),
        to: "guest".to_string(),
    };
    assert_eq!(sorted(server.broadcast_event(&to_guest)), vec![5]);
    let name = WebSocketEvent::Name { owner: "guest".to_string() };
    assert_eq!(sorted(server.broadcast_event(&name)), Vec::<u128>::new());
    let block = WebSocketEvent::Block { address: "guest".to_string() };
    assert_eq!(sorted(server.broadcast_event(&block)), vec![1, 2, 3]);
}

#[test]
fn names_and_blocks_are_filtered_alike() {
    let mut server = populated();
    server.subscribe_to_event(&1, WebSocketSubscriptionType::OwnNames);
    server.subscribe_to_event(&2, WebSocketSubscriptionType::Names);
    let name = WebSocketEvent::Name { owner: "kaaaaaaaaa".to_string() };
    assert_eq!(sorted(server.broadcast_event(&name)), vec![1, 2]);
    server.subscribe_to_event(&6, WebSocketSubscriptionType::OwnBlocks);
    let block = WebSocketEvent::Block { address: "kaaaaaaaaa".to_string() };
    assert_eq!(sorted(server.broadcast_event(&block)), vec![1, 2, 3, 6]);
}

#[test]
fn unfiltered_broadcast_reaches_everyone_and_failures_are_cleaned_up() {
    let mut server = populated();
    assert_eq!(sorted(server.broadcast()), vec![1, 2, 3, 4, 5, 6]);
    server.cleanup_failed(&vec![2, 4, 4, 9]);
    assert_eq!(sorted(server.broadcast()), vec![1, 3, 5, 6]);
    assert_eq!(server.session_count(), 4);
    assert!(server.cleanup_session(&1));
    assert!(!server.cleanup_session(&1));
    assert_eq!(server.session_count(), 3);
}

#[test]
fn subscription_names() {
    for kind in WebSocketSubscriptionType::all() {
        assert_eq!(WebSocketSubscriptionType::parse(kind.name()), Some(kind));
    }
    assert_eq!(WebSocketSubscriptionType::OwnTransactions.name(), "ownTransactions");
    assert_eq!(WebSocketSubscriptionType::parse("owntransactions"), None);
    assert_eq!(WebSocketSubscriptionType::all().len(), 7);
}
