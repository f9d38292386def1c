use kromer::database::name::{Model as Name, NameError};
use kromer::database::query::{clamp_limit, direction, direction_of_upper, direction_or_asc, Direction};
use kromer::database::transaction::Model as Transaction;
use kromer::database::wallet::{Model as Wallet, VerifyResponse};
use kromer::models::krist::addresses::{AddressJson, AddressListResponse};
use kromer::models::krist::webserver::lookup::addresses::LookupResponse;
use kromer::models::kromer::auth::AuthenticatedResponse;
use kromer::models::kromer::responses::{ApiResponse, PaginatedResponse};
use kromer::models::kromer::wallets::Wallet as WalletResponse;
use kromer::routes::krist::misc::{get_kromer_supply, get_walletversion, login_address};
use kromer::routes::v1::wallet::{wallet_get_by_name, wallet_get_by_uuid, PlayerError};
use kromer::routes::v1::ws::ws_session_get_count;
use kromer::routes::PaginationParams;
use kromer::database::ledger::Ledger;
use kromer::websockets::types::common::WebSocketTokenData;
use kromer::websockets::WebSocketServer;

#[test]
fn limits_are_clamped() {
    for (asked, given) in [(i64::MIN, 1), (0, 1), (1, 1), (50, 50), (1000, 1000), (1001, 1000), (i64::MAX, 1000)] {
        assert_eq!(clamp_limit(asked), given);
        assert_eq!(Transaction::fetch_all(asked, 7), (given, 7));
        assert_eq!(Name::fetch_all(asked, -7), (given, -7));
    }
}

#[test]
fn directions() {
    for asc in ["asc", "ASC", "Asc", "aSc"] {
        assert_eq!(direction(asc), Some(Direction::Asc));
    }
    for desc in ["desc", "DESC", "dEsC"] {
        assert_eq!(direction(desc), Some(Direction::Desc));
    }
    for other in ["", "up", "asc ", "ascending", "DESC;--"] {
        assert_eq!(direction(other), None);
        assert_eq!(direction_or_asc(other), Direction::Asc);
    }
    assert_eq!(direction_or_asc("desc"), Direction::Desc);
    assert_eq!(direction_of_upper("ASC"), Some(Direction::Asc));
    assert_eq!(direction_of_upper("asc"), None);
    assert_eq!(Direction::Asc.as_str(), "ASC");
    assert_eq!(Direction::Desc.as_str(), "DESC");
}

#[test]
fn pages_of_the_log() {
    let default = PaginationParams::default();
    assert_eq!((default.exclude_mined, default.limit, default.offset), (None, Some(50), Some(0)));
    let plan = Transaction::sorted_by_date(&default);
    assert_eq!((plan.limit, plan.offset, plan.exclude_mined), (50, 0, false));
    let empty = PaginationParams { exclude_mined: Some(false), limit: None, offset: None };
    let plan = Transaction::fetch_all_no_mined(&empty);
    assert_eq!((plan.limit, plan.offset, plan.exclude_mined), (50, 0, false));
    assert!(!Transaction::total_count_no_mined(&empty));
    let asked = PaginationParams { exclude_mined: Some(true), limit: Some(5000), offset: Some(30) };
    let plan = Transaction::sorted_by_date(&asked);
    assert_eq!((plan.limit, plan.offset, plan.exclude_mined), (1000, 30, true));
    assert!(Transaction::total_count_no_mined(&asked));
    assert_eq!(Name::all_unpaid(&asked), (1000, 30));
    assert_eq!(Name::all_unpaid(&empty), (50, 0));
}

#[test]
fn order_columns_come_from_a_fixed_list() {
    let history = |c| Transaction::fetch_name_history(10, 0, c, "desc").order_by;
    for c in ["id", "from", "to", "value", "sent_name", "sent_metaname"] {
        assert_eq!(history(c), c);
    }
    assert_eq!(history("time"), "date");
    for c in ["date", "amount", "", "id; DROP TABLE transactions", "ID"] {
        assert_eq!(history(c), "id");
    }
    let sent = |c| Transaction::fetch_by_sent_name(10, 0, c, "desc").order_by;
    for c in ["id", "amount", "date", "from", "to"] {
        assert_eq!(sent(c), c);
    }
    for c in ["time", "value", "sent_name", ""] {
        assert_eq!(sent(c), "id");
    }
    let plan = Transaction::fetch_by_sent_name(0, 3, "date", "nonsense");
    assert_eq!((plan.limit, plan.offset, plan.order), (1, 3, Direction::Asc));
    let plan = Transaction::fetch_name_history(2000, 3, "date", "DeSc");
    assert_eq!((plan.limit, plan.offset, plan.order), (1000, 3, Direction::Desc));
}

#[test]
fn lookup_by_addresses() {
    assert!(Transaction::lookup_transactions(None, 10, 0, "id", "asc", true).is_none());
    let plan = Transaction::lookup_transactions(Some(1), 10, 5, "time", "desc", true).unwrap();
    assert_eq!(plan.where_clause, r#"(("from" = $1 OR "to" = $1))"#);
    assert_eq!((plan.limit_param, plan.offset_param), (2, 3));
    assert_eq!((plan.limit, plan.offset, plan.order_by, plan.order), (10, 5, "id", Direction::Desc));
    let plan = Transaction::lookup_transactions(Some(3), 5000, 0, "amount", "x", false).unwrap();
    assert_eq!(
        plan.where_clause,
        r#"(("from" = $1 OR "to" = $1) OR ("from" = $2 OR "to" = $2) OR ("from" = $3 OR "to" = $3)) AND transaction_type != 'mined'"#
    );
    assert_eq!((plan.limit_param, plan.offset_param), (4, 5));
    assert_eq!((plan.limit, plan.order_by, plan.order), (1000, "amount", Direction::Asc));
    let plan = Transaction::lookup_transactions(Some(12), 1, 0, "sent_metaname", "asc", true).unwrap();
    assert!(plan.where_clause.ends_with(r#" OR ("from" = $12 OR "to" = $12))"#));
    let plan = Transaction::lookup_transactions(Some(0), 1, 0, "id", "asc", false).unwrap();
    assert_eq!(plan.where_clause, "() AND transaction_type != 'mined'");
}

#[test]
fn names_are_listed_in_a_known_order_only() {
    let column = |c| Name::lookup_names(10, 0, c, "asc").map(|p| p.order_by);
    assert_eq!(column("name"), Ok("name"));
    assert_eq!(column("owner"), Ok("owner"));
    assert_eq!(column("registered"), Ok("time_registered"));
    assert_eq!(column("transferred"), Ok("last_transfered"));
    assert_eq!(
        column("transferredOrRegistered"),
        Ok("COALESCE(last_transfered, time_registered)")
    );
    for c in ["", "id", "unpaid", "Name", "name; DROP TABLE names"] {
        assert_eq!(column(c), Err(NameError::InvalidOrderBy));
    }
    assert_eq!(Name::lookup_names(10, 0, "name", "sideways").unwrap_err(), NameError::InvalidOrder);
    assert_eq!(Name::lookup_names(10, 0, "nope", "sideways").unwrap_err(), NameError::InvalidOrderBy);
    let plan = Name::lookup_names(5000, -3, "name", "desc").unwrap();
    assert_eq!((plan.limit, plan.offset, plan.order), (5000, -3, Direction::Desc));
}

#[test]
fn wallets_are_shown() {
    let mut w = Wallet::new(4, "kre3w0i79j".to_string(), 1_426_251_318_000);
    w.balance = 86945;
    w.total_in = 123364;
    w.total_out = 38292;
    let shown = AddressJson::from_model(w.duplicate(), None);
    assert_eq!(
        shown,
        AddressJson {
            address: "kre3w0i79j".to_owned(),
            balance: 86945,
            total_in: 123364,
            total_out: 38292,
            first_seen: "2015-03-13T12:55:18+00:00".to_owned(),
            names: None,
        }
    );
    let native = WalletResponse::from_model(w.duplicate(), Some(2));
    assert_eq!((native.id, native.balance, native.names), (4, 86945, Some(2)));
    assert_eq!(native.created_at, 1_426_251_318_000);
    let page = AddressListResponse::new(vec![shown.clone()], 10);
    assert_eq!((page.ok, page.count, page.total), (true, 1, 10));
    let found = LookupResponse::new(3, vec![shown.clone()]);
    assert_eq!((found.ok, found.found, found.not_found), (true, 1, 2));
    let found = LookupResponse::new(0, vec![shown]);
    assert_eq!((found.found, found.not_found), (1, 0));
}

#[test]
fn small_answers() {
    let version = get_walletversion();
    assert_eq!((version.ok, version.wallet_version), (true, 3));
    let wallet = |authed| VerifyResponse { authed, model: Wallet::new(1, "kre3w0i79j".to_string(), 0) };
    let yes = login_address(&wallet(true));
    assert_eq!((yes.ok, yes.authed, yes.address), (true, true, Some("kre3w0i79j".to_string())));
    let no = login_address(&wallet(false));
    assert_eq!((no.ok, no.authed, no.address), (true, false, None));
    let login = AuthenticatedResponse::login((7, 99, "kre3w0i79j".to_string()));
    assert_eq!((login.token, login.expires, login.address.as_str()), (7, 99, "kre3w0i79j"));
    let page = PaginatedResponse::new(vec![1, 2, 3], 4);
    assert_eq!((page.count, page.remaining, page.items), (3, 4, vec![1, 2, 3]));
    let empty: ApiResponse<i32> = ApiResponse::default();
    assert_eq!(empty, ApiResponse { data: None, meta: None, error: None, message: None });
    assert_eq!(ApiResponse::with_data(5).data, Some(5));
}

#[test]
fn supply_and_session_count_and_player_wallets() {
    let mut ledger = Ledger::new();
    let mut a = Wallet::new(1, "kaaaaaaaaa".to_string(), 0);
    a.balance = 70;
    let mut welfare = Wallet::new(2, "serverwelf".to_string(), 0);
    welfare.balance = 1000;
    ledger.insert_wallet(a.duplicate());
    ledger.insert_wallet(welfare);
    let supply = get_kromer_supply(&ledger).unwrap();
    assert_eq!((supply.ok, supply.money_supply), (true, 70));

    let mut server = WebSocketServer::new();
    assert_eq!(ws_session_get_count(&server).count, 0);
    server.insert_session(1, WebSocketTokenData::new("guest".to_string(), None, None));
    server.insert_session(2, WebSocketTokenData::new("guest".to_string(), None, None));
    assert_eq!(ws_session_get_count(&server).count, 2);

    assert_eq!(wallet_get_by_uuid(None), Err(PlayerError::NotFound));
    assert_eq!(wallet_get_by_name(None), Err(PlayerError::NotFound));
    assert_eq!(wallet_get_by_name(Some(vec![])), Ok(vec![]));
    let shown = wallet_get_by_uuid(Some(vec![a.duplicate(), a])).unwrap();
    assert_eq!(shown.len(), 2);
    assert_eq!((shown[1].id, shown[1].balance, shown[1].names), (1, 70, None));
    assert_eq!(shown[0].address, "kaaaaaaaaa");
}
