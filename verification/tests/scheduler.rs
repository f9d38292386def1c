use kromer::database::ledger::Ledger;
use kromer::database::transaction::TransactionType;
use kromer::database::wallet::Model as Wallet;
use kromer::models::kromer::subs::{ContractInfo, ContractStatus, SubStatus, SubscriptionInfo};
use kromer::models::krist::websockets::WebSocketEvent;
use kromer::subs::{
    advance, cancel_sub, continue_sub, continue_sub_with, fetch_soonest, find_contract,
    is_authorized, lapse_action, lapse_event, new_sub_manager, renewal_metadata, retry_delay, soonest_lapse,
    try_process_lapsed, LapseAction, LapsedRes, LapsedStatus, ManagerAction, ManagerEvent,
    ManagerState, ProcessLapsedError, SignalQueue, SubUpdateNofif, Wake, FETCH_HORIZON,
    FETCH_RETRIES,
    NOTIFY_CAPACITY, PROCESS_HORIZON, SYNC_INTERVAL,
};

/// 2023-11-14T22:13:20Z
const NOW: i64 = 1_700_000_000_000;
/// 2023-11-14T22:14:00Z, the next full minute
const NEXT_MINUTE: i64 = 1_700_000_040_000;

fn wallet(id: i32, address: &str, balance: u64) -> Wallet {
    let mut w = Wallet::new(id, address.to_string(), 0);
    w.balance = balance;
    w
}

fn books(payer_balance: u64) -> Ledger {
    let mut l = Ledger::new();
    l.insert_wallet(wallet(1, "kpayer0000", payer_balance));
    l.insert_wallet(wallet(2, "kowner0000", 0));
    l
}

fn contract(status: ContractStatus, allow_list: Option<Vec<String>>) -> ContractInfo {
    ContractInfo {
        contract_id: 10,
        address: "kowner0000".to_string(),
        status,
        title: "Rent".to_string(),
        description: None,
        price: 5,
        cron_expr: "* * * * *".to_string(),
        max_subscribers: None,
        allow_list,
        created_at: 0,
        updated_at: 0,
    }
}

fn sub(id: i32, status: SubStatus, lapsed_at: Option<i64>) -> SubscriptionInfo {
    SubscriptionInfo {
        subscription_id: id,
        contract_id: 10,
        address: "kpayer0000".to_string(),
        status,
        lapsed_at,
        started_at: 0,
    }
}

fn renewed(next_lapsed: i64, transction_id: i32) -> LapsedRes {
    LapsedRes {
        contract_id: 10,
        subscription_id: 7,
        status: LapsedStatus::Renewed { next_lapsed, transction_id },
    }
}

fn canceled(id: i32) -> LapsedRes {
    LapsedRes { contract_id: 10, subscription_id: id, status: LapsedStatus::Canceled }
}

#[test]
fn active_subscription_is_renewed() {
    let mut ledger = books(12);
    let mut subs = vec![sub(7, SubStatus::Active, Some(NOW + 1_000))];
    let contracts = vec![contract(ContractStatus::Open, None)];
    let res = try_process_lapsed(&mut ledger, &mut subs, &contracts, NOW + 2_000);
    assert_eq!(res, Ok(renewed(NEXT_MINUTE, 1)));
    assert_eq!(subs[0].lapsed_at, Some(NEXT_MINUTE));
    assert_eq!(subs[0].status, SubStatus::Active);
    assert_eq!(ledger.balance_of("kpayer0000"), Some(7));
    assert_eq!(ledger.balance_of("kowner0000"), Some(5));
    assert_eq!(ledger.transaction_count(), 1);
    let row = ledger.transaction(0).unwrap();
    assert_eq!(row.from, Some("kpayer0000".to_string()));
    assert_eq!(row.to, "kowner0000");
    assert_eq!(row.amount, 5);
    assert_eq!(row.transaction_type, TransactionType::Transfer);
    assert_eq!(row.metadata, Some("sub_id=7".to_string()));
    assert_eq!(row.date, NOW + 2_000);
    // the lapse has moved on: nothing is due any more, and nothing is charged twice
    let again = try_process_lapsed(&mut ledger, &mut subs, &contracts, NOW + 2_000);
    assert_eq!(again, Err(ProcessLapsedError::NoneLapsed));
    assert_eq!(ledger.balance_of("kpayer0000"), Some(7));
    assert_eq!(ledger.transaction_count(), 1);
}

#[test]
fn closed_contract_still_renews() {
    let mut ledger = books(5);
    let mut subs = vec![sub(7, SubStatus::Active, Some(NOW))];
    let contracts = vec![contract(ContractStatus::Closed, None)];
    let res = try_process_lapsed(&mut ledger, &mut subs, &contracts, NOW);
    assert_eq!(res, Ok(renewed(NOW + 40_000, 1)));
    assert_eq!(ledger.balance_of("kpayer0000"), Some(0));
}

#[test]
fn payer_without_funds_is_canceled() {
    let mut ledger = books(3);
    let mut subs = vec![sub(7, SubStatus::Active, Some(NOW + 1_000))];
    let contracts = vec![contract(ContractStatus::Open, None)];
    let res = try_process_lapsed(&mut ledger, &mut subs, &contracts, NOW + 2_000);
    assert_eq!(res, Err(ProcessLapsedError::InsufficientFunds));
    assert_eq!(subs[0].status, SubStatus::Canceled);
    assert_eq!(subs[0].lapsed_at, None);
    assert_eq!(ledger.balance_of("kpayer0000"), Some(3));
    assert_eq!(ledger.balance_of("kowner0000"), Some(0));
    assert_eq!(ledger.transaction_count(), 0);
    // nothing is due any more
    assert_eq!(
        try_process_lapsed(&mut ledger, &mut subs, &contracts, NOW + 2_000),
        Err(ProcessLapsedError::NoneLapsed)
    );
}

#[test]
fn canceled_contract_cancels_the_subscription() {
    let mut ledger = books(12);
    let mut subs = vec![sub(7, SubStatus::Active, Some(NOW + 1_000))];
    let contracts = vec![contract(ContractStatus::Canceled, None)];
    let res = try_process_lapsed(&mut ledger, &mut subs, &contracts, NOW + 2_000);
    assert_eq!(res, Ok(canceled(7)));
    assert_eq!((subs[0].status, subs[0].lapsed_at), (SubStatus::Canceled, None));
    assert_eq!(ledger.balance_of("kpayer0000"), Some(12));
    assert_eq!(ledger.transaction_count(), 0);
}

#[test]
fn payer_taken_off_the_allow_list_is_canceled() {
    // whatever the balances are
    for balance in [0, 4, 5, 12] {
        let mut ledger = books(balance);
        let mut subs = vec![
            sub(7, SubStatus::Active, Some(NOW)),
            sub(8, SubStatus::Active, Some(NOW + 5)),
        ];
        let contracts =
            vec![contract(ContractStatus::Open, Some(vec!["kother0000".to_string()]))];
        assert_eq!(
            continue_sub(&mut ledger, &mut subs, 0, &contracts[0], NOW),
            Err(ProcessLapsedError::Unauthorized)
        );
        assert_eq!((subs[0].status, subs[0].lapsed_at), (SubStatus::Canceled, None));
        assert_eq!((subs[1].status, subs[1].lapsed_at), (SubStatus::Active, Some(NOW + 5)));
        assert_eq!(ledger.balance_of("kpayer0000"), Some(balance));
        assert_eq!(ledger.balance_of("kowner0000"), Some(0));
        assert_eq!(ledger.transaction_count(), 0);
        // the other subscription is next, and fares the same
        assert_eq!(
            try_process_lapsed(&mut ledger, &mut subs, &contracts, NOW),
            Err(ProcessLapsedError::Unauthorized)
        );
        assert_eq!((subs[1].status, subs[1].lapsed_at), (SubStatus::Canceled, None));
        assert_eq!(ledger.transaction_count(), 0);
    }
    // a payer who is on the list, or a contract without one, is never refused for it
    for allow_list in [None, Some(vec!["kother0000".to_string(), "kpayer0000".to_string()])] {
        for balance in [0, 12] {
            let mut ledger = books(balance);
            let mut subs = vec![sub(7, SubStatus::Active, Some(NOW))];
            let contracts = vec![contract(ContractStatus::Open, allow_list.clone())];
            let res = continue_sub(&mut ledger, &mut subs, 0, &contracts[0], NOW);
            assert_ne!(res, Err(ProcessLapsedError::Unauthorized));
        }
    }
}

#[test]
fn pending_subscription_is_canceled() {
    for status in [SubStatus::Pending, SubStatus::Canceled] {
        let mut ledger = books(12);
        let mut subs = vec![sub(7, status, Some(NOW))];
        let contracts = vec![contract(ContractStatus::Open, None)];
        assert_eq!(try_process_lapsed(&mut ledger, &mut subs, &contracts, NOW), Ok(canceled(7)));
        assert_eq!(ledger.transaction_count(), 0);
    }
}

#[test]
fn nothing_due_and_missing_contract() {
    let mut ledger = books(12);
    let contracts = vec![contract(ContractStatus::Open, None)];
    let mut subs = vec![
        sub(7, SubStatus::Active, Some(NOW + PROCESS_HORIZON)),
        sub(8, SubStatus::Canceled, None),
    ];
    assert_eq!(
        try_process_lapsed(&mut ledger, &mut subs, &contracts, NOW),
        Err(ProcessLapsedError::NoneLapsed)
    );
    subs[0].lapsed_at = Some(NOW + PROCESS_HORIZON - 1);
    subs[0].contract_id = 11;
    assert_eq!(
        try_process_lapsed(&mut ledger, &mut subs, &contracts, NOW),
        Err(ProcessLapsedError::DbError)
    );
    assert_eq!(subs[0].lapsed_at, Some(NOW + PROCESS_HORIZON - 1));
    assert_eq!(ledger.transaction_count(), 0);
}

#[test]
fn the_soonest_lapse_is_processed_first() {
    let mut ledger = books(12);
    let contracts = vec![contract(ContractStatus::Open, None)];
    let mut subs = vec![
        sub(1, SubStatus::Active, Some(NOW + 3_000)),
        sub(7, SubStatus::Active, Some(NOW - 5_000)),
        sub(3, SubStatus::Active, Some(NOW - 5_000)),
        sub(4, SubStatus::Canceled, None),
    ];
    assert_eq!(soonest_lapse(&subs, NOW, PROCESS_HORIZON), Some(1));
    assert_eq!(fetch_soonest(&subs, NOW), Some(NOW - 5_000));
    let res = try_process_lapsed(&mut ledger, &mut subs, &contracts, NOW);
    assert_eq!(res, Ok(renewed(NEXT_MINUTE, 1)));
    assert_eq!(soonest_lapse(&subs, NOW, PROCESS_HORIZON), Some(2));
}

#[test]
fn fetch_looks_a_minute_ahead() {
    let subs = vec![
        sub(1, SubStatus::Active, Some(NOW + FETCH_HORIZON)),
        sub(2, SubStatus::Canceled, None),
    ];
    assert_eq!(fetch_soonest(&subs, NOW), None);
    assert_eq!(fetch_soonest(&subs, NOW + 1), Some(NOW + FETCH_HORIZON));
    assert_eq!(fetch_soonest(&Vec::new(), NOW), None);
    assert_eq!(fetch_soonest(&subs, i64::MAX), Some(NOW + FETCH_HORIZON));
}

#[test]
fn renewal_needs_a_schedule_that_moves_on() {
    let contracts = vec![contract(ContractStatus::Open, None)];
    let mut ledger = books(12);
    let mut subs = vec![sub(7, SubStatus::Active, Some(NOW))];
    for next in [None, Some(NOW), Some(NOW - 1)] {
        assert_eq!(
            continue_sub_with(&mut ledger, &mut subs, 0, &contracts[0], next, NOW),
            Err(ProcessLapsedError::Desync)
        );
        assert_eq!(ledger.balance_of("kpayer0000"), Some(12));
        assert_eq!(subs[0].lapsed_at, Some(NOW));
    }
    assert_eq!(
        continue_sub_with(&mut ledger, &mut subs, 0, &contracts[0], Some(NOW + 1), NOW),
        Ok(renewed(NOW + 1, 1))
    );
    // an expression that is no schedule, a price that is no price
    let mut broken = contract(ContractStatus::Open, None);
    broken.cron_expr = "every now and then".to_string();
    assert_eq!(
        continue_sub(&mut ledger, &mut subs, 0, &broken, NOW),
        Err(ProcessLapsedError::Desync)
    );
    let mut free = contract(ContractStatus::Open, None);
    free.price = 0;
    assert_eq!(
        continue_sub(&mut ledger, &mut subs, 0, &free, NOW),
        Err(ProcessLapsedError::Desync)
    );
    assert_eq!(ledger.balance_of("kpayer0000"), Some(7));
}

#[test]
fn renewal_for_wallets_that_are_gone_is_a_desync() {
    let contracts = vec![contract(ContractStatus::Open, None)];
    let mut ledger = Ledger::new();
    ledger.insert_wallet(wallet(1, "kpayer0000", 12));
    let mut subs = vec![sub(7, SubStatus::Active, Some(NOW))];
    assert_eq!(
        continue_sub(&mut ledger, &mut subs, 0, &contracts[0], NOW),
        Err(ProcessLapsedError::Desync)
    );
    let mut full = Ledger::new();
    let mut payer = wallet(1, "kpayer0000", 12);
    payer.total_out = u64::MAX;
    full.insert_wallet(payer);
    full.insert_wallet(wallet(2, "kowner0000", 0));
    assert_eq!(
        continue_sub(&mut full, &mut subs, 0, &contracts[0], NOW),
        Err(ProcessLapsedError::DbError)
    );
}

#[test]
fn cancel_reports_desync_unless_one_row_changed() {
    let mut subs = vec![
        sub(7, SubStatus::Active, Some(NOW)),
        sub(8, SubStatus::Active, Some(NOW)),
        sub(8, SubStatus::Pending, Some(NOW + 1)),
    ];
    assert_eq!(cancel_sub(&mut subs, 10, 9), Err(ProcessLapsedError::Desync));
    assert_eq!(subs[0].lapsed_at, Some(NOW));
    assert_eq!(cancel_sub(&mut subs, 10, 7), Ok(canceled(7)));
    assert_eq!((subs[0].status, subs[0].lapsed_at), (SubStatus::Canceled, None));
    assert_eq!(subs[1].lapsed_at, Some(NOW));
    assert_eq!(cancel_sub(&mut subs, 10, 8), Err(ProcessLapsedError::Desync));
    assert_eq!((subs[1].status, subs[1].lapsed_at), (SubStatus::Canceled, None));
    assert_eq!((subs[2].status, subs[2].lapsed_at), (SubStatus::Canceled, None));
}

#[test]
fn dispatch_table() {
    for sub in [SubStatus::Active, SubStatus::Pending, SubStatus::Canceled] {
        assert_eq!(lapse_action(ContractStatus::Canceled, sub), LapseAction::CancelSub);
    }
    for contract in [ContractStatus::Open, ContractStatus::Closed] {
        assert_eq!(lapse_action(contract, SubStatus::Active), LapseAction::ContinueSub);
        assert_eq!(lapse_action(contract, SubStatus::Pending), LapseAction::CancelSub);
        assert_eq!(lapse_action(contract, SubStatus::Canceled), LapseAction::CancelSub);
    }
}

#[test]
fn allow_list_and_metadata() {
    assert!(is_authorized(&None, "kpayer0000"));
    assert!(!is_authorized(&Some(vec![]), "kpayer0000"));
    let list = Some(vec!["kother0000".to_string(), "kpayer0000".to_string()]);
    assert!(is_authorized(&list, "kpayer0000"));
    assert!(!is_authorized(&list, "kpayer0001"));
    assert_eq!(renewal_metadata(7), "sub_id=7");
    assert_eq!(renewal_metadata(0), "sub_id=0");
    assert_eq!(renewal_metadata(i32::MAX), "sub_id=2147483647");
    assert_eq!(renewal_metadata(i32::MIN), "sub_id=-2147483648");
    let contracts = vec![contract(ContractStatus::Open, None)];
    assert_eq!(find_contract(&contracts, 10), Some(0));
    assert_eq!(find_contract(&contracts, 11), None);
}

#[test]
fn retries_back_off_by_doubling() {
    let delays: Vec<Option<u64>> = (0..7).map(retry_delay).collect();
    assert_eq!(
        delays,
        vec![Some(10), Some(20), Some(40), Some(80), Some(160), None, None]
    );
    assert_eq!(FETCH_RETRIES, 5);
}

#[test]
fn signals_coalesce_into_one_wake() {
    for n in [1usize, 2, 25, 26, 100] {
        let mut queue = SignalQueue::new();
        assert_eq!(queue.recv_drain_all(), Wake::Nothing);
        for i in 0..n {
            assert_eq!(queue.send(SubUpdateNofif), i < NOTIFY_CAPACITY);
        }
        assert_eq!(queue.pending(), n.min(25));
        assert_eq!(queue.recv_drain_all(), Wake::Signaled);
        assert_eq!(queue.pending(), 0);
        assert_eq!(queue.recv_drain_all(), Wake::Nothing);
    }
}

#[test]
fn closed_queue_hands_out_what_waits_and_then_says_so() {
    let mut queue = SignalQueue::new();
    assert!(queue.send(SubUpdateNofif));
    queue.close();
    assert!(!queue.send(SubUpdateNofif));
    assert_eq!(queue.pending(), 1);
    assert_eq!(queue.recv_drain_all(), Wake::Signaled);
    assert_eq!(queue.recv_drain_all(), Wake::Closed);
    assert_eq!(queue.recv_drain_all(), Wake::Closed);
    assert_eq!(ManagerEvent::from_wake(Wake::Signaled), Some(ManagerEvent::Signaled));
    assert_eq!(ManagerEvent::from_wake(Wake::Closed), Some(ManagerEvent::ChannelClosed));
    assert_eq!(ManagerEvent::from_wake(Wake::Nothing), None);
}

#[test]
fn scheduler_loop() {
    let (queue, state, action) = new_sub_manager();
    assert_eq!((queue.pending(), state, action), (0, ManagerState::Fetching, ManagerAction::Fetch));
    let waiting = ManagerState::Waiting { lapse_pending: true };
    let idle = ManagerState::Waiting { lapse_pending: false };
    assert_eq!(
        advance(ManagerState::Fetching, ManagerEvent::Fetched { next: Some(NOW + 1_500), now: NOW }),
        (waiting, ManagerAction::Sleep { millis: 1_500 })
    );
    assert_eq!(
        advance(ManagerState::Fetching, ManagerEvent::Fetched { next: Some(NOW - 1), now: NOW }),
        (waiting, ManagerAction::Sleep { millis: 0 })
    );
    assert_eq!(
        advance(ManagerState::Fetching, ManagerEvent::Fetched { next: Some(i64::MAX), now: i64::MIN }),
        (waiting, ManagerAction::Sleep { millis: u64::MAX })
    );
    assert_eq!(
        advance(ManagerState::Fetching, ManagerEvent::Fetched { next: None, now: NOW }),
        (idle, ManagerAction::Sleep { millis: SYNC_INTERVAL })
    );
    assert_eq!(SYNC_INTERVAL, 60_000);
    assert_eq!(advance(waiting, ManagerEvent::TimerFired), (ManagerState::Processing, ManagerAction::Process));
    assert_eq!(advance(idle, ManagerEvent::TimerFired), (ManagerState::Fetching, ManagerAction::Fetch));
    assert_eq!(advance(waiting, ManagerEvent::Signaled), (ManagerState::Fetching, ManagerAction::DrainAndFetch));
    assert_eq!(advance(idle, ManagerEvent::Signaled), (ManagerState::Fetching, ManagerAction::DrainAndFetch));
    assert_eq!(advance(ManagerState::Processing, ManagerEvent::Processed), (ManagerState::Fetching, ManagerAction::Fetch));
    for state in [ManagerState::Fetching, waiting, idle, ManagerState::Processing, ManagerState::Stopped] {
        assert_eq!(advance(state, ManagerEvent::ChannelClosed), (ManagerState::Stopped, ManagerAction::Stop));
    }
    for event in [ManagerEvent::TimerFired, ManagerEvent::Signaled, ManagerEvent::Processed, ManagerEvent::Fetched { next: None, now: 0 }] {
        assert_eq!(advance(ManagerState::Stopped, event), (ManagerState::Stopped, ManagerAction::Stop));
    }
    assert_eq!(advance(ManagerState::Fetching, ManagerEvent::TimerFired), (ManagerState::Fetching, ManagerAction::Ignore));
    assert_eq!(advance(ManagerState::Processing, ManagerEvent::Signaled), (ManagerState::Processing, ManagerAction::Ignore));
    assert_eq!(advance(waiting, ManagerEvent::Processed), (waiting, ManagerAction::Ignore));
}

#[test]
fn process_errors_have_messages() {
    assert_eq!(
        ProcessLapsedError::Desync.message(),
        "Expected DB state did not match reality"
    );
    for e in [
        ProcessLapsedError::NoneLapsed,
        ProcessLapsedError::DbError,
        ProcessLapsedError::Unauthorized,
        ProcessLapsedError::InsufficientFunds,
    ] {
        assert!(!e.message().is_empty());
    }
}

#[test]
fn renewal_is_announced() {
    let mut ledger = Ledger::continuing(41);
    ledger.insert_wallet(wallet(1, "kpayer0000", 12));
    ledger.insert_wallet(wallet(2, "kowner0000", 0));
    let mut subs = vec![sub(7, SubStatus::Active, Some(NOW))];
    let contracts = vec![contract(ContractStatus::Open, None)];
    let res = try_process_lapsed(&mut ledger, &mut subs, &contracts, NOW).unwrap();
    assert_eq!(res, renewed(NEXT_MINUTE, 42));
    assert_eq!(
        lapse_event(&ledger, &res),
        Some(WebSocketEvent::Transaction {
            from: Some("kpayer0000".to_string()),
            to: "kowner0000".to_string()
        })
    );
    assert_eq!(lapse_event(&ledger, &canceled(7)), None);
    assert_eq!(lapse_event(&ledger, &renewed(NEXT_MINUTE, 41)), None);
    assert_eq!(lapse_event(&ledger, &renewed(NEXT_MINUTE, 43)), None);
    assert_eq!(ledger.transaction_by_id(42).unwrap().id, 42);
    assert!(ledger.transaction_by_id(-1).is_none());
    // a position outside the table holds nothing to renew
    assert_eq!(
        continue_sub(&mut ledger, &mut subs, 1, &contracts[0], NOW),
        Err(ProcessLapsedError::NoneLapsed)
    );
    assert_eq!(
        continue_sub_with(&mut ledger, &mut subs, 5, &contracts[0], Some(NOW), NOW),
        Err(ProcessLapsedError::NoneLapsed)
    );
}

#[test]
fn a_continued_log_runs_out_of_numbers() {
    let mut ledger = Ledger::continuing(i32::MAX - 1);
    ledger.insert_wallet(wallet(1, "kpayer0000", 12));
    ledger.insert_wallet(wallet(2, "kowner0000", 0));
    let mut subs = vec![sub(7, SubStatus::Active, Some(NOW)), sub(8, SubStatus::Active, Some(NOW))];
    let contracts = vec![contract(ContractStatus::Open, None)];
    assert_eq!(
        try_process_lapsed(&mut ledger, &mut subs, &contracts, NOW),
        Ok(renewed(NEXT_MINUTE, i32::MAX))
    );
    assert_eq!(
        try_process_lapsed(&mut ledger, &mut subs, &contracts, NOW),
        Err(ProcessLapsedError::DbError)
    );
    assert_eq!(ledger.balance_of("kpayer0000"), Some(7));
    assert_eq!(Ledger::continuing(-5).transaction_by_id(1), None);
}

#[test]
fn renewal_that_the_payer_cannot_afford() {
    let mut ledger = books(4);
    let mut subs = vec![
        sub(7, SubStatus::Active, Some(NOW)),
        sub(8, SubStatus::Pending, Some(NOW)),
        sub(7, SubStatus::Pending, Some(NOW + 1)),
    ];
    let contracts = vec![contract(ContractStatus::Open, None)];
    assert_eq!(
        continue_sub(&mut ledger, &mut subs, 0, &contracts[0], NOW),
        Err(ProcessLapsedError::InsufficientFunds)
    );
    // every row with the id is canceled, the others are left alone
    assert_eq!((subs[0].status, subs[0].lapsed_at), (SubStatus::Canceled, None));
    assert_eq!((subs[2].status, subs[2].lapsed_at), (SubStatus::Canceled, None));
    assert_eq!((subs[1].status, subs[1].lapsed_at), (SubStatus::Pending, Some(NOW)));
    assert_eq!(ledger.balance_of("kpayer0000"), Some(4));
    assert_eq!(ledger.transaction_count(), 0);
}
