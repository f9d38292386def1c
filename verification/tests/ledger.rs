use kromer::database::ledger::{Ledger, TransferError};
use kromer::database::transaction::{Model as Transaction, TransactionCreateData, TransactionType};
use kromer::database::wallet::Model as Wallet;

fn wallet(id: i32, address: &str, balance: u64) -> Wallet {
    let mut w = Wallet::new(id, address.to_string(), 0);
    w.balance = balance;
    w
}

fn ledger(wallets: &[(&str, u64)]) -> Ledger {
    let mut l = Ledger::new();
    for (i, (address, balance)) in wallets.iter().enumerate() {
        assert!(l.insert_wallet(wallet(i as i32 + 1, address, *balance)));
    }
    l
}

fn pay(from: &str, to: &str, amount: u64) -> TransactionCreateData {
    TransactionCreateData {
        from: from.to_string(),
        to: to.to_string(),
        amount,
        transaction_type: TransactionType::Transfer,
        ..Default::default()
    }
}

fn total(l: &Ledger, addresses: &[&str]) -> u64 {
    addresses.iter().map(|a| l.balance_of(a).unwrap()).sum()
}

#[test]
fn transfer_moves_the_amount_and_logs_one_row() {
    let mut l = ledger(&[("kaaaaaaaaa", 100), ("kbbbbbbbbb", 0)]);
    let row = l.transfer(pay("kaaaaaaaaa", "kbbbbbbbbb", 40), 1234).unwrap();
    assert_eq!(
        row,
        Transaction {
            id: 1,
            amount: 40,
            from: Some("kaaaaaaaaa".to_string()),
            to: "kbbbbbbbbb".to_string(),
            metadata: Some(String::new()),
            name: None,
            sent_metaname: None,
            sent_name: None,
            transaction_type: TransactionType::Transfer,
            date: 1234,
        }
    );
    assert_eq!(l.balance_of("kaaaaaaaaa"), Some(60));
    assert_eq!(l.balance_of("kbbbbbbbbb"), Some(40));
    let a = l.wallet("kaaaaaaaaa").unwrap();
    assert_eq!((a.total_in, a.total_out), (0, 40));
    let b = l.wallet("kbbbbbbbbb").unwrap();
    assert_eq!((b.total_in, b.total_out), (40, 0));
    assert_eq!(l.transaction_count(), 1);
    assert_eq!(l.transaction(0), Some(row));
    assert_eq!(l.transaction(1), None);
}

#[test]
fn insufficient_funds_change_nothing() {
    let mut l = ledger(&[("kaaaaaaaaa", 10), ("kbbbbbbbbb", 0)]);
    assert_eq!(
        l.transfer(pay("kaaaaaaaaa", "kbbbbbbbbb", 50), 1),
        Err(TransferError::InsufficientFunds)
    );
    assert_eq!(l.balance_of("kaaaaaaaaa"), Some(10));
    assert_eq!(l.balance_of("kbbbbbbbbb"), Some(0));
    assert_eq!(l.transaction_count(), 0);
    assert_eq!(l.wallet("kaaaaaaaaa").unwrap().total_out, 0);
}

#[test]
fn missing_wallets_are_told_apart() {
    let mut l = ledger(&[("kaaaaaaaaa", 10)]);
    assert_eq!(
        l.transfer(pay("knobody000", "kaaaaaaaaa", 1), 1),
        Err(TransferError::SenderNotFound)
    );
    assert_eq!(
        l.transfer(pay("kaaaaaaaaa", "knobody000", 1), 1),
        Err(TransferError::RecipientNotFound)
    );
    assert_eq!(
        l.transfer(pay("knobody000", "knobody001", 1), 1),
        Err(TransferError::SenderNotFound)
    );
    assert_eq!(l.transaction_count(), 0);
}

#[test]
fn running_totals_that_would_overflow_are_a_store_error() {
    let mut l = Ledger::new();
    let mut a = wallet(1, "kaaaaaaaaa", 5);
    a.total_out = u64::MAX - 1;
    l.insert_wallet(a);
    l.insert_wallet(wallet(2, "kbbbbbbbbb", u64::MAX - 1));
    assert_eq!(l.transfer(pay("kaaaaaaaaa", "kbbbbbbbbb", 2), 1), Err(TransferError::StoreError));
    assert_eq!(l.transfer(pay("kbbbbbbbbb", "kaaaaaaaaa", 1), 1).unwrap().id, 1);
    assert_eq!(l.transfer(pay("kaaaaaaaaa", "kbbbbbbbbb", 3), 1), Err(TransferError::StoreError));
    assert_eq!(l.balance_of("kaaaaaaaaa"), Some(6));
}

#[test]
fn paying_oneself_keeps_the_balance() {
    let mut l = ledger(&[("kaaaaaaaaa", 10)]);
    assert_eq!(
        l.transfer(pay("kaaaaaaaaa", "kaaaaaaaaa", 11), 1),
        Err(TransferError::InsufficientFunds)
    );
    l.transfer(pay("kaaaaaaaaa", "kaaaaaaaaa", 10), 1).unwrap();
    let a = l.wallet("kaaaaaaaaa").unwrap();
    assert_eq!((a.balance, a.total_in, a.total_out), (10, 10, 10));
}

#[test]
fn any_run_of_transfers_conserves_the_total() {
    let names = ["kaaaaaaaaa", "kbbbbbbbbb", "kccccccccc", "serverwelf"];
    let mut l = ledger(&[
        ("kaaaaaaaaa", 100),
        ("kbbbbbbbbb", 50),
        ("kccccccccc", 0),
        ("serverwelf", 1000),
    ]);
    let mut seed: u64 = 7;
    let mut logged = 0;
    for step in 0..200 {
        seed = seed.wrapping_mul(6364136223846793005).wrapping_add(1442695040888963407);
        let from = names[(seed >> 33) as usize % 3];
        let to = names[(seed >> 40) as usize % 3];
        let amount = (seed >> 50) % 80;
        let supply = l.money_supply();
        if l.transfer(pay(from, to, amount), step).is_ok() {
            logged += 1;
        }
        assert_eq!(total(&l, &names), 1150);
        assert_eq!(l.money_supply(), supply);
        assert_eq!(l.money_supply(), Some(150));
    }
    assert!(logged > 20);
    assert_eq!(l.transaction_count(), logged);
    // welfare payments change the money in circulation, not the total
    l.transfer(pay("serverwelf", "kccccccccc", 25), 0).unwrap();
    assert_eq!(total(&l, &names), 1150);
    assert_eq!(l.money_supply(), Some(175));
}

#[test]
fn money_supply_that_cannot_be_counted() {
    let l = ledger(&[("kaaaaaaaaa", u64::MAX), ("serverwelf", 9), ("kbbbbbbbbb", 1)]);
    assert_eq!(l.money_supply(), None);
    let l = ledger(&[("kaaaaaaaaa", u64::MAX - 1), ("serverwelf", 9), ("kbbbbbbbbb", 1)]);
    assert_eq!(l.money_supply(), Some(u64::MAX));
}

#[test]
fn record_logs_without_touching_balances() {
    let mut l = ledger(&[("kaaaaaaaaa", 5)]);
    let data = TransactionCreateData {
        from: "kaaaaaaaaa".to_string(),
        to: "knobody000".to_string(),
        amount: 500,
        metadata: Some("note".to_string()),
        name: Some("example".to_string()),
        sent_metaname: Some("meta".to_string()),
        sent_name: Some("example".to_string()),
        transaction_type: TransactionType::NameTransfer,
    };
    let row = Transaction::create_no_update(&mut l, data, 77).unwrap();
    assert_eq!(row.id, 1);
    assert_eq!(row.amount, 500);
    assert_eq!(row.metadata, Some("note".to_string()));
    assert_eq!(row.name, Some("example".to_string()));
    assert_eq!(row.sent_metaname, None);
    assert_eq!(row.sent_name, None);
    assert_eq!(row.transaction_type, TransactionType::NameTransfer);
    assert_eq!(row.date, 77);
    assert_eq!(l.balance_of("kaaaaaaaaa"), Some(5));
    let row = Transaction::create(&mut l, pay("kaaaaaaaaa", "kaaaaaaaaa", 1), 78).unwrap();
    assert_eq!(row.id, 2);
}

#[test]
fn wallets_are_unique_by_address() {
    let mut l = ledger(&[("kaaaaaaaaa", 5)]);
    assert!(!l.insert_wallet(wallet(9, "kaaaaaaaaa", 99)));
    assert_eq!(l.balance_of("kaaaaaaaaa"), Some(5));
    assert_eq!(l.find("kaaaaaaaaa"), Some(0));
    assert_eq!(l.find("kbbbbbbbbb"), None);
    assert_eq!(l.wallet("kbbbbbbbbb"), None);
}

#[test]
fn transaction_type_labels() {
    let all = [
        (TransactionType::Mined, "mined"),
        (TransactionType::Unknown, "unknown"),
        (TransactionType::NamePurchase, "name_purchase"),
        (TransactionType::NameARecord, "name_a_record"),
        (TransactionType::NameTransfer, "name_transfer"),
        (TransactionType::Transfer, "transfer"),
    ];
    for (kind, label) in all {
        assert_eq!(kind.as_str(), label);
        assert_eq!(TransactionType::from_label(label), kind);
    }
    assert_eq!(TransactionType::from_label("Transfer"), TransactionType::Unknown);
    assert_eq!(TransactionType::from_label(""), TransactionType::Unknown);
    assert_eq!(TransactionType::default(), TransactionType::Mined);
}
