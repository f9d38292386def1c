use kromer::database::ledger::{Ledger, TransferError};
use kromer::database::name::{is_valid_name, MetadataUpdate, Model as Name, NameError};
use kromer::database::transaction::{TransactionNameData, TransactionType};
use kromer::database::wallet::{Model as Wallet, VerifyResponse};
use kromer::models::krist::names::{NameDataUpdateBody, NameJson, NameListResponse};
use kromer::models::krist::websockets::WebSocketEvent;

fn parsed(metaname: Option<&str>, name: Option<&str>) -> TransactionNameData {
    TransactionNameData {
        name: name.map(|s| s.to_string()),
        metaname: metaname.map(|s| s.to_string()),
    }
}

#[test]
fn parse_reads_name_and_metaname() {
    let data = TransactionNameData::parse("meta@name.kro");
    assert_eq!(data.metaname, Some("meta".to_string()));
    assert_eq!(data.name, Some("name".to_string()));
    assert_eq!(data.name(), Some("name"));
    assert_eq!(data.metaname(), Some("meta"));

    let empty = TransactionNameData::parse("");
    assert_eq!(empty, TransactionNameData::default());
    assert_eq!(empty.name(), None);
    assert_eq!(empty.metaname(), None);
}

#[test]
fn parse_opt_takes_missing_metadata() {
    let data = TransactionNameData::parse_opt(Some("meta@name.kro"));
    assert_eq!(data.metaname, Some("meta".to_string()));
    assert_eq!(data.name, Some("name".to_string()));
    let empty = TransactionNameData::parse_opt(None);
    assert_eq!(empty, TransactionNameData::default());

    let input = Some("meta@name.kro".to_string());
    let data = TransactionNameData::parse_opt_ref(&input);
    assert_eq!(data.metaname, Some("meta".to_string()));
    assert_eq!(data.name, Some("name".to_string()));
    let empty = TransactionNameData::parse_opt_ref(&None);
    assert_eq!(empty, TransactionNameData::default());
}

#[test]
fn parse_edge_cases() {
    let long_name = "n".repeat(64);
    let long_meta = "m".repeat(32);
    let cases: Vec<(String, TransactionNameData)> = vec![
        ("name.kro".into(), parsed(None, Some("name"))),
        ("name.kro;and=more".into(), parsed(None, Some("name"))),
        ("name.krona".into(), parsed(None, Some("name"))),
        ("a-b_c@name.kro".into(), parsed(Some("a-b_c"), Some("name"))),
        ("0@1.kro".into(), parsed(Some("0"), Some("1"))),
        (format!("{long_name}.kro"), parsed(None, Some(&long_name))),
        (format!("{long_name}n.kro"), parsed(None, None)),
        (format!("{long_meta}@x.kro"), parsed(Some(&long_meta), Some("x"))),
        (format!("{long_meta}m@x.kro"), parsed(None, None)),
        ("name.kro\u{e9}".into(), parsed(None, Some("name"))),
        ("@name.kro".into(), parsed(None, None)),
        ("meta@.kro".into(), parsed(None, None)),
        ("meta@name".into(), parsed(None, None)),
        ("meta@name.kr".into(), parsed(None, None)),
        ("a_b.kro".into(), parsed(None, None)),
        ("Name.kro".into(), parsed(None, None)),
        (" name.kro".into(), parsed(None, None)),
        ("x=1;name.kro".into(), parsed(None, None)),
        ("a@b@c.kro".into(), parsed(None, None)),
        (".kro".into(), parsed(None, None)),
        ("n\u{e9}.kro".into(), parsed(None, None)),
    ];
    for (input, expected) in cases {
        assert_eq!(TransactionNameData::parse(&input), expected, "{input:?}");
    }
}

#[test]
fn parse_agrees_with_the_pattern() {
    let pattern =
        regex::Regex::new(r"^(?:([a-z0-9-_]{1,32})@)?([a-z0-9]{1,64})\.kro").unwrap();
    let alphabet: Vec<char> = "ab09ab09ab09ab09-_@.kroKR \u{e9}".chars().collect();
    let suffixes = [".kro", ".kro", ".kro;x=1", ".kr", "", "kro", ".kro.kro", "@"];
    let mut seed: u64 = 11;
    let mut draw = move |bound: usize| {
        seed = seed.wrapping_mul(6364136223846793005).wrapping_add(1442695040888963407);
        (seed >> 33) as usize % bound
    };
    let mut matched = 0;
    let mut with_metaname = 0;
    for round in 0..20_000 {
        let mut input = String::new();
        let long = round % 50 == 0;
        if round % 2 == 0 {
            let len = if long { 30 + draw(5) } else { draw(5) };
            for _ in 0..len {
                input.push(alphabet[draw(if long { 18 } else { alphabet.len() })]);
            }
            input.push('@');
        }
        let len = if long { 62 + draw(5) } else { draw(6) };
        for _ in 0..len {
            input.push(alphabet[draw(if long { 16 } else { alphabet.len() })]);
        }
        input.push_str(suffixes[draw(suffixes.len())]);
        let expected = match pattern.captures(&input) {
            Some(c) => {
                matched += 1;
                if c.get(1).is_some() {
                    with_metaname += 1;
                }
                parsed(c.get(1).map(|m| m.as_str()), c.get(2).map(|m| m.as_str()))
            }
            None => parsed(None, None),
        };
        assert_eq!(TransactionNameData::parse(&input), expected, "{input:?}");
    }
    assert!(with_metaname > 100, "{with_metaname}");
    assert!(matched > 500, "{matched}");
}

fn name() -> Name {
    Name::create(3, "example".to_string(), "kowner0000".to_string(), 100)
}

fn verified(authed: bool, address: &str) -> VerifyResponse {
    VerifyResponse { authed, model: Wallet::new(1, address.to_string(), 0) }
}

fn body(a: Option<&str>) -> NameDataUpdateBody {
    NameDataUpdateBody { a: a.map(|s| s.to_string()), private_key: "key".to_string() }
}

#[test]
fn created_name_belongs_to_its_first_owner() {
    let n = name();
    assert_eq!(n.id, 3);
    assert_eq!(n.name, "example");
    assert_eq!(n.owner, "kowner0000");
    assert_eq!(n.original_owner, "kowner0000");
    assert_eq!(n.time_registered, 100);
    assert_eq!((n.last_transfered, n.last_updated, n.unpaid), (None, None, 0));
    assert_eq!(n.metadata, None);
    assert_eq!(n.duplicate(), n);
}

#[test]
fn name_form() {
    for good in ["a", "example", "0", &"n".repeat(64)] {
        assert!(is_valid_name(good), "{good}");
    }
    for bad in ["", "Example", "ex-ample", "ex ample", "example.kro", &"n".repeat(65), "\u{e9}"] {
        assert!(!is_valid_name(bad), "{bad}");
    }
}

#[test]
fn record_update_is_checked_in_order() {
    let owner = verified(true, "kowner0000");
    let update = |name: &str, a, valid, who: &VerifyResponse, stored| {
        Name::ctrl_update_metadata(name, body(a), valid, who, stored)
    };
    assert_eq!(
        update("Bad Name", None, false, &verified(false, "kother0000"), None),
        Err(NameError::InvalidName)
    );
    assert_eq!(
        update("Bad Name", Some("x"), false, &verified(false, "kother0000"), None),
        Err(NameError::InvalidName)
    );
    assert_eq!(
        update("example", Some("x"), false, &verified(false, "kother0000"), None),
        Err(NameError::InvalidRecord)
    );
    assert_eq!(
        update("example", Some("x"), true, &verified(false, "kowner0000"), None),
        Err(NameError::AuthFailed)
    );
    assert_eq!(update("example", Some("x"), true, &owner, None), Err(NameError::NameNotFound));
    assert_eq!(
        update("example", Some("x"), true, &verified(true, "kother0000"), Some(name())),
        Err(NameError::NotNameOwner)
    );
    let changed = name().update_metadata("x".to_string());
    assert_eq!(changed.metadata, Some("x".to_string()));
    assert_eq!(
        update("example", Some("x"), true, &owner, Some(name())),
        Ok(MetadataUpdate::Changed(name().update_metadata("x".to_string())))
    );
    assert_eq!(
        update("example", Some("x"), true, &owner, Some(changed)),
        Ok(MetadataUpdate::Unchanged(name().update_metadata("x".to_string())))
    );
}

#[test]
fn ownership_transfer_is_logged() {
    let mut ledger = Ledger::new();
    ledger.insert_wallet(Wallet::new(1, "kowner0000".to_string(), 0));
    ledger.insert_wallet(Wallet::new(2, "kbuyer0000".to_string(), 0));
    assert_eq!(name().owner(&ledger).unwrap().id, 1);
    let (updated, event) =
        name().transfer_ownership(&mut ledger, "kbuyer0000".to_string(), 500).unwrap();
    assert_eq!(updated.owner, "kbuyer0000");
    assert_eq!(updated.original_owner, "kowner0000");
    assert_eq!((updated.last_transfered, updated.last_updated), (Some(500), Some(500)));
    assert_eq!(updated.name, "example");
    assert_eq!(
        event,
        WebSocketEvent::Transaction {
            from: Some("kowner0000".to_string()),
            to: "kbuyer0000".to_string()
        }
    );
    let row = ledger.transaction(0).unwrap();
    assert_eq!(row.amount, 0);
    assert_eq!(row.transaction_type, TransactionType::NameTransfer);
    assert_eq!(row.name, Some("example".to_string()));
    assert_eq!(row.date, 500);
    assert_eq!(updated.owner(&ledger).unwrap().id, 2);
    assert_eq!(
        name().transfer_ownership(&mut ledger, "knobody000".to_string(), 501).unwrap_err(),
        TransferError::RecipientNotFound
    );
    assert_eq!(ledger.transaction_count(), 1);
}

#[test]
fn names_are_shown_with_their_times() {
    let mut n = name();
    n.time_registered = 1_426_251_318_000;
    n.last_updated = Some(0);
    n.unpaid = 3;
    n.metadata = Some("example.com".to_string());
    let shown = NameJson::from_model(n);
    assert_eq!(
        shown,
        NameJson {
            name: "example".to_string(),
            owner: "kowner0000".to_string(),
            registered: "2015-03-13T12:55:18+00:00".to_string(),
            updated: Some("1970-01-01T00:00:00+00:00".to_string()),
            transferred: None,
            a: Some("example.com".to_string()),
            unpaid: 3,
        }
    );
    let mut n = name();
    n.unpaid = u64::MAX;
    n.time_registered = i64::MAX;
    let shown = NameJson::from_model(n);
    assert_eq!(shown.unpaid, 0);
    assert_eq!(shown.registered, "");
    let page = NameListResponse::new(vec![shown.clone(), shown], 9);
    assert!(page.ok);
    assert_eq!((page.count, page.total), (2, 9));
}
