use kromer::database::name::NameError;
use kromer::database::query::Direction;
use kromer::routes::krist::lookup::names::{name_history, name_transactions, names_lookup};
use kromer::routes::krist::lookup::parse_addresses;
use kromer::routes::krist::lookup::transactions::transactions_lookup;

fn expected(input: &str) -> Vec<String> {
    input.split(',').map(|s| s.trim().to_string()).filter(|s| !s.is_empty()).collect()
}

#[test]
fn address_lists() {
    assert_eq!(parse_addresses("kaaaaaaaaa,kbbbbbbbbb"), vec!["kaaaaaaaaa", "kbbbbbbbbb"]);
    assert_eq!(parse_addresses(" kaaaaaaaaa , ,kbbbbbbbbb,"), vec!["kaaaaaaaaa", "kbbbbbbbbb"]);
    assert_eq!(parse_addresses("a b"), vec!["a b"]);
    assert!(parse_addresses("").is_empty());
    assert!(parse_addresses(" ,\t,\u{3000},,").is_empty());
}

#[test]
fn address_lists_agree_with_split_and_trim() {
    let alphabet: Vec<char> =
        "ab,, \t\n\u{b}\u{c}\r\u{85}\u{a0}\u{1680}\u{2000}\u{200a}\u{200b}\u{2028}\u{2029}\u{202f}\u{205f}\u{3000}\u{feff}\u{e9}"
            .chars()
            .collect();
    let mut seed: u64 = 3;
    for round in 0..20_000 {
        let mut input = String::new();
        for _ in 0..round % 12 {
            seed = seed.wrapping_mul(6364136223846793005).wrapping_add(1442695040888963407);
            input.push(alphabet[(seed >> 33) as usize % alphabet.len()]);
        }
        assert_eq!(parse_addresses(&input), expected(&input), "{input:?}");
    }
}

#[test]
fn names_of_owners() {
    let (owners, plan) = names_lookup("kaaaaaaaaa, kbbbbbbbbb", None, None, None, None).unwrap();
    assert_eq!(owners, Some(vec!["kaaaaaaaaa".to_string(), "kbbbbbbbbb".to_string()]));
    assert_eq!((plan.limit, plan.offset, plan.order_by, plan.order), (50, 0, "name", Direction::Asc));
    let (owners, plan) =
        names_lookup(" , ", Some(7), Some(3), Some("registered"), Some("desc")).unwrap();
    assert_eq!(owners, None);
    assert_eq!(
        (plan.limit, plan.offset, plan.order_by, plan.order),
        (7, 3, "time_registered", Direction::Desc)
    );
    assert_eq!(
        names_lookup("k", None, None, Some("id"), None).unwrap_err(),
        NameError::InvalidOrderBy
    );
    assert_eq!(
        names_lookup("k", None, None, None, Some("up")).unwrap_err(),
        NameError::InvalidOrder
    );
}

#[test]
fn history_and_payments_of_a_name() {
    let plan = name_history(None, None, None, None);
    assert_eq!((plan.limit, plan.offset, plan.order_by, plan.order), (50, 0, "id", Direction::Asc));
    let plan = name_history(Some(0), Some(9), Some("time"), Some("DESC"));
    assert_eq!((plan.limit, plan.offset, plan.order_by, plan.order), (1, 9, "date", Direction::Desc));
    let plan = name_transactions(None, None, None, None);
    assert_eq!((plan.limit, plan.offset, plan.order_by, plan.order), (50, 0, "id", Direction::Desc));
    let plan = name_transactions(Some(5000), None, Some("amount"), Some("asc"));
    assert_eq!((plan.limit, plan.order_by, plan.order), (1000, "amount", Direction::Asc));
}

#[test]
fn transactions_of_addresses() {
    assert!(transactions_lookup("", None, None, None, None, None).is_none());
    assert!(transactions_lookup(" , ", None, None, None, None, Some(true)).is_none());
    let (parties, plan) =
        transactions_lookup("kaaaaaaaaa,kbbbbbbbbb", None, None, None, None, None).unwrap();
    assert_eq!(parties, vec!["kaaaaaaaaa", "kbbbbbbbbb"]);
    assert_eq!(
        plan.where_clause,
        r#"(("from" = $1 OR "to" = $1) OR ("from" = $2 OR "to" = $2)) AND transaction_type != 'mined'"#
    );
    assert_eq!((plan.limit, plan.offset, plan.order_by, plan.order), (50, 0, "id", Direction::Desc));
    assert_eq!((plan.limit_param, plan.offset_param), (3, 4));
    // the parameter is looked at for its presence only
    let (_, plan) =
        transactions_lookup("kaaaaaaaaa", Some(2), Some(1), Some("date"), Some("asc"), Some(false))
            .unwrap();
    assert_eq!(plan.where_clause, r#"(("from" = $1 OR "to" = $1))"#);
    assert_eq!((plan.limit, plan.offset, plan.order_by, plan.order), (2, 1, "date", Direction::Asc));
}
