use kromer::errors::krist::KristError;
use kromer::ids::uuid_text;
use kromer::text::{chars_of, clone_opt_string, opt_str_eq, parse_i32, push_int, push_nat, str_eq};
use kromer::routes::krist::misc::get_motd;
use kromer::websockets::utils::make_url::{make_motd_urls, make_url};

fn samples() -> Vec<u128> {
    let mut out = vec![0, 1, u128::MAX, 0xa1a2a3a4b1b2c1c2d1d2d3d4d5d6d7d8, 1 << 127, 0xf << 60];
    let mut seed: u128 = 0x9e3779b97f4a7c15f39cc0605cedc834;
    for _ in 0..200 {
        seed = seed.wrapping_mul(0x2360ed051fc65da44385df649fccf645).wrapping_add(1);
        out.push(seed);
    }
    out
}

#[test]
fn identifiers_are_written_as_uuids() {
    assert_eq!(uuid_text(0), "00000000-0000-0000-0000-000000000000");
    assert_eq!(
        uuid_text(0xa1a2a3a4b1b2c1c2d1d2d3d4d5d6d7d8),
        "a1a2a3a4-b1b2-c1c2-d1d2-d3d4d5d6d7d8"
    );
    for id in samples() {
        assert_eq!(uuid_text(id), uuid::Uuid::from_u128(id).to_string());
    }
}

#[test]
fn numbers_are_written_in_decimal() {
    for n in [0u64, 1, 9, 10, 11, 99, 100, 12345, u64::MAX] {
        let mut out = String::from("n=");
        push_nat(&mut out, n);
        assert_eq!(out, format!("n={n}"));
    }
    for n in [0i64, 1, -1, 10, -10, i64::MAX, i64::MIN, -9_223_372_036_854_775_807] {
        let mut out = String::new();
        push_int(&mut out, n);
        assert_eq!(out, format!("{n}"));
    }
}

#[test]
fn numbers_are_read_like_the_standard_library_reads_them() {
    let inputs = [
        "0", "7", "17", "-17", "+17", "007", "-0", "+0", "2147483647", "2147483648",
        "-2147483648", "-2147483649", "99999999999999999999", "-99999999999999999999",
        "", "-", "+", "--1", "+-1", "1-", " 1", "1 ", "1.0", "1e3", "0x10", "١٢", "１２",
        "00000000000000000000000012", "-00000000000000000000002147483648",
    ];
    for input in inputs {
        assert_eq!(parse_i32(input), input.parse::<i32>().ok(), "{input:?}");
    }
    assert_eq!(parse_i32("17"), Some(17));
    assert_eq!(parse_i32("-2147483648"), Some(i32::MIN));
}

#[test]
fn text_helpers() {
    assert!(str_eq("guest", "guest"));
    assert!(!str_eq("guest", "Guest"));
    assert!(!str_eq("guest", "guest "));
    assert!(str_eq("", ""));
    assert!(opt_str_eq(&Some("a".to_string()), "a"));
    assert!(!opt_str_eq(&Some("a".to_string()), "b"));
    assert!(!opt_str_eq(&None, ""));
    assert_eq!(clone_opt_string(&Some("a".to_string())), Some("a".to_string()));
    assert_eq!(clone_opt_string(&None), None);
    assert_eq!(chars_of("a\u{e9}z"), vec!['a', '\u{e9}', 'z']);
    assert_eq!(chars_of(""), Vec::<char>::new());
}

#[test]
fn socket_address() {
    let id = 0xa1a2a3a4b1b2c1c2d1d2d3d4d5d6d7d8;
    let path = "/api/krist/ws/gateway/a1a2a3a4-b1b2-c1c2-d1d2-d3d4d5d6d7d8";
    assert_eq!(make_url(None, Some("kromer.example"), id), Ok(format!("ws://kromer.example{path}")));
    assert_eq!(
        make_url(Some("true"), Some("kromer.example"), id),
        Ok(format!("ws://kromer.example{path}"))
    );
    for other in ["false", "TRUE", "", "1"] {
        assert_eq!(
            make_url(Some(other), Some("kromer.example:8080"), id),
            Ok(format!("wss://kromer.example:8080{path}"))
        );
    }
    assert_eq!(make_url(None, None, id), Err(KristError::ServerConfigError));
    assert_eq!(make_url(Some("false"), None, id), Err(KristError::ServerConfigError));
}

#[test]
fn public_addresses() {
    assert_eq!(
        make_motd_urls(None, Some("kromer.example")),
        Ok(vec![
            "http://kromer.example".to_string(),
            "http://kromer.example/api/krist/ws/".to_string()
        ])
    );
    assert_eq!(
        make_motd_urls(Some("no"), Some("kromer.example")),
        Ok(vec![
            "https://kromer.example".to_string(),
            "https://kromer.example/api/krist/ws/".to_string()
        ])
    );
    assert_eq!(make_motd_urls(None, None), Err(KristError::ServerConfigError));
    assert_eq!(
        get_motd(Some("no"), Some("kromer.example")),
        ("https://kromer.example".to_string(), "https://kromer.example/api/krist/ws/".to_string())
    );
    assert_eq!(
        get_motd(None, None),
        (
            "https://kromer.reconnected.cc".to_string(),
            "https://kromer.reconnected.cc/api/krist/ws".to_string()
        )
    );
}
