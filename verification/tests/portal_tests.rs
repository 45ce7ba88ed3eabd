use rabbit_trading_core::portal::{join_comma, u64_to_string, IBClientPortal};

fn portal(ssl: bool) -> IBClientPortal {
    IBClientPortal::new("U1234567".to_string(), "localhost:5000".to_string(), ssl)
}

#[test]
fn ws_url_uses_the_tls_scheme_exactly_when_asked() {
    assert_eq!(portal(false).get_ws_url(), "ws://localhost:5000/v1/api/ws");
    assert_eq!(portal(true).get_ws_url(), "wss://localhost:5000/v1/api/ws");
}

#[test]
fn endpoint_urls_are_rooted_at_the_gateway() {
    assert_eq!(
        portal(false).get_url("/tickle"),
        "https://localhost:5000/v1/api/tickle"
    );
    assert_eq!(
        portal(false).get_url("/iserver/auth/status"),
        "https://localhost:5000/v1/api/iserver/auth/status"
    );
}

#[test]
fn ws_auth_msg_wraps_the_session_token() {
    assert_eq!(
        portal(false).ws_auth_msg("abc123".to_string()),
        "{\"session\":\"abc123\"}"
    );
}

#[test]
fn account_paths_interpolate_account_and_numbers() {
    let p = portal(false);
    assert_eq!(p.get_positions_path(0), "/portfolio/U1234567/positions/0");
    assert_eq!(p.get_positions_path(12), "/portfolio/U1234567/positions/12");
    assert_eq!(p.get_account_ledger_path(), "/portfolio/U1234567/ledger");
    assert_eq!(p.place_order_path(), "/iserver/account/U1234567/order");
    assert_eq!(
        p.get_contract_detail_path(320227571),
        "/iserver/contract/320227571/info"
    );
}

#[test]
fn u64_rendering_matches_decimal_notation() {
    assert_eq!(u64_to_string(0), "0");
    assert_eq!(u64_to_string(7), "7");
    assert_eq!(u64_to_string(100), "100");
    assert_eq!(u64_to_string(1705230000000), "1705230000000");
    assert_eq!(u64_to_string(u64::MAX), "18446744073709551615");
}

#[test]
fn comma_joins_preserve_order() {
    assert_eq!(join_comma(&vec![]), "");
    assert_eq!(join_comma(&vec!["QQQ".to_string()]), "QQQ");
    assert_eq!(
        join_comma(&vec!["QQQ".to_string(), "ABNB".to_string(), "SPY".to_string()]),
        "QQQ,ABNB,SPY"
    );
}

#[test]
fn market_data_query_carries_conids_fields_and_since() {
    let p = portal(false);
    let conids = vec!["320227571".to_string(), "1".to_string()];
    let fields = vec!["84".to_string(), "85".to_string(), "86".to_string(), "88".to_string()];
    let q = p.market_data_query(&conids, &fields, None);
    assert_eq!(q.len(), 2);
    assert_eq!(q[0], ("conids".to_string(), "320227571,1".to_string()));
    assert_eq!(q[1], ("fields".to_string(), "84,85,86,88".to_string()));

    let q = p.market_data_query(&conids, &fields, Some(1705230000000));
    assert_eq!(q.len(), 3);
    assert_eq!(q[2], ("since".to_string(), "1705230000000".to_string()));
}

#[test]
fn options_query_includes_only_given_filters() {
    let p = portal(false);
    let q = p.get_options_query(265598, &"OPT".to_string(), None, None, None);
    assert_eq!(
        q,
        vec![
            ("conid".to_string(), "265598".to_string()),
            ("sectype".to_string(), "OPT".to_string()),
        ]
    );

    let q = p.get_options_query(
        265598,
        &"OPT".to_string(),
        Some("JAN26".to_string()),
        None,
        Some("190.5".to_string()),
    );
    assert_eq!(
        q,
        vec![
            ("conid".to_string(), "265598".to_string()),
            ("sectype".to_string(), "OPT".to_string()),
            ("month".to_string(), "JAN26".to_string()),
            ("strike".to_string(), "190.5".to_string()),
        ]
    );
}

#[test]
fn history_query_always_has_six_pairs() {
    let p = portal(false);
    let q = p.get_market_data_history_query(
        320227571,
        None,
        &"1d".to_string(),
        &"5min".to_string(),
        false,
        None,
    );
    assert_eq!(
        q,
        vec![
            ("conid".to_string(), "320227571".to_string()),
            ("period".to_string(), "1d".to_string()),
            ("bar".to_string(), "5min".to_string()),
            ("exchange".to_string(), "".to_string()),
            ("outsideRth".to_string(), "false".to_string()),
            ("startTime".to_string(), "".to_string()),
        ]
    );

    let q = p.get_market_data_history_query(
        1,
        Some("NASDAQ".to_string()),
        &"1w".to_string(),
        &"1h".to_string(),
        true,
        Some("20240114-11:00:00".to_string()),
    );
    assert_eq!(q[3], ("exchange".to_string(), "NASDAQ".to_string()));
    assert_eq!(q[4], ("outsideRth".to_string(), "true".to_string()));
    assert_eq!(q[5], ("startTime".to_string(), "20240114-11:00:00".to_string()));
}

#[test]
fn ws_auth_msg_escapes_the_session_token() {
    let p = portal(false);
    assert_eq!(
        p.ws_auth_msg("a\"b\\c".to_string()),
        "{\"session\":\"a\\\"b\\\\c\"}"
    );
    assert_eq!(
        p.ws_auth_msg("line1\nline2\ttab\r\u{8}\u{c}".to_string()),
        "{\"session\":\"line1\\nline2\\ttab\\r\\b\\f\"}"
    );
    assert_eq!(
        p.ws_auth_msg("ctl\u{1}\u{1f}end".to_string()),
        "{\"session\":\"ctl\\u0001\\u001fend\"}"
    );
}
