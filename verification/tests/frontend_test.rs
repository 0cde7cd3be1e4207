use gate_arb::frontend::{is_ws_upgrade, page_head, route, FrontendWs, Route, DASHBOARD_HTML};
use gate_arb::types::{Fixed64, SCALE};

fn fixed(v: f64) -> Fixed64 {
    Fixed64::from_raw((v * SCALE as f64) as u64)
}

fn raw(v: f64) -> i64 {
    (v * SCALE as f64) as i64
}

fn float(v: Fixed64) -> f64 {
    v.raw() as f64 / SCALE as f64
}

#[test]
fn update_spread_and_prices() {
    let mut fw = FrontendWs::new();
    fw.update(raw(42.5), fixed(50000.0), fixed(50050.0));
    let s = &fw.state;
    assert!((s.spread_bps_raw as f64 / SCALE as f64 - 42.5).abs() < f64::EPSILON);
    assert!((float(s.bid_price) - 50000.0).abs() < f64::EPSILON);
    assert!((float(s.ask_price) - 50050.0).abs() < f64::EPSILON);
    assert!(s.timestamp_ms > 0);
}

#[test]
fn update_pnl_calculates_usd_and_pct() {
    let mut fw = FrontendWs::new();
    fw.update_pnl(100_000_000, 5, 4, 1, true);
    let s = &fw.state;
    let pnl_usd = s.pnl_raw as f64 / SCALE as f64;
    let pnl_pct = s.pnl_pct_billionths as f64 / 1e9;
    assert!((pnl_usd - 1.0).abs() < 1e-6, "pnl_usd should be 1.0");
    assert!((pnl_pct - 0.2).abs() < 1e-6, "pnl_pct should be 0.2%");
    assert_eq!(s.total_trades, 5);
    assert_eq!(s.wins, 4);
    assert_eq!(s.losses, 1);
    assert!(s.position_open);
}

#[test]
fn update_pnl_negative() {
    let mut fw = FrontendWs::new();
    fw.update_pnl(-50_000_000, 3, 1, 2, false);
    let s = &fw.state;
    let pnl_usd = s.pnl_raw as f64 / SCALE as f64;
    assert!((pnl_usd - (-0.5)).abs() < 1e-6, "pnl_usd should be -0.5");
    assert!(!s.position_open);
    assert_eq!(s.pnl_pct_billionths, -100_000_000);
}

#[test]
fn update_funding_rate() {
    let mut fw = FrontendWs::new();
    fw.update_funding_rate(150);
    assert_eq!(fw.state.funding_rate_bps, 150);
}

#[test]
fn updates_are_stamped() {
    let mut fw = FrontendWs::default();
    fw.update_at(raw(-1.0), fixed(2.0), fixed(3.0), 10);
    assert_eq!(fw.state.timestamp_ms, 10);
    fw.update_pnl_at(i64::MIN, 0, 0, 0, false, 11);
    assert_eq!(fw.state.timestamp_ms, 11);
    assert_eq!(fw.state.pnl_pct_billionths, i64::MIN as i128 * 2);
    fw.update_funding_rate_at(-1, 12);
    assert_eq!((fw.state.timestamp_ms, fw.state.funding_rate_bps), (12, -1));
    assert_eq!(fw.state.bid_price, fixed(2.0));
}

#[test]
fn log_appends_and_trims() {
    let mut fw = FrontendWs::new();
    for i in 0..120 {
        fw.log(format!("entry {}", i));
    }
    assert_eq!(fw.logs.len(), 100, "ring should cap at 100 entries");
    assert_eq!(fw.logs.front().unwrap(), "entry 20");
    assert_eq!(fw.state.recent_logs.len(), 100);
    assert_eq!(fw.state.recent_logs[0], "entry 20");
    assert_eq!(fw.state.recent_logs[99], "entry 119");
}

#[test]
fn state_serializes_to_json() {
    let mut fw = FrontendWs::new();
    fw.update(raw(12.3), fixed(48000.0), fixed(48100.0));
    fw.update_pnl(500_000_000, 10, 7, 3, true);
    fw.update_funding_rate(-80);
    fw.log("test event".to_string());

    let json = fw.state.to_json();
    assert!(json.contains("spread_bps"));
    assert!(json.contains("funding_rate_bps"));
    assert!(json.contains("timestamp_ms"));
    assert!(json.contains("recent_logs"));
    assert!(json.contains("test event"));
}

#[test]
fn the_percentage_is_exact() {
    let mut fw = FrontendWs::new();
    for (pnl_raw, text) in [
        (1, "0.000000002"),
        (-1, "-0.000000002"),
        (4, "0.000000008"),
        (0, "0.000000000"),
        (123_456_789, "0.246913578"),
        (i64::MAX, "18446744073.709551614"),
        (i64::MIN, "-18446744073.709551616"),
    ] {
        fw.update_pnl_at(pnl_raw, 0, 0, 0, false, 1);
        let json = fw.state.to_json();
        assert!(json.contains(&format!(",\"pnl_pct\":{},", text)), "{}", json);
        let v: serde_json::Value = serde_json::from_str(&json).unwrap();
        let pct = (pnl_raw as f64 / 100_000_000.0) / 500.0 * 100.0;
        assert!((v["pnl_pct"].as_f64().unwrap() - pct).abs() <= pct.abs() * 1e-15);
    }
    fw.state.pnl_pct_billionths = i128::MIN;
    let json = fw.state.to_json();
    assert!(json.contains("\"pnl_pct\":-170141183460469231731687303715.884105728,"));
}

#[test]
fn the_json_state_reads_back() {
    let mut fw = FrontendWs::new();
    fw.update_at(raw(-12.5), fixed(48000.0), fixed(48100.0), 1);
    fw.update_pnl_at(-50_000_000, 10, 7, 3, true, 2);
    fw.update_funding_rate_at(-80, 3);
    fw.log("a \"quoted\" line".to_string());
    fw.log("second".to_string());
    let v: serde_json::Value = serde_json::from_str(&fw.state.to_json()).unwrap();
    assert_eq!(v["spread_bps"].as_f64(), Some(-12.5));
    assert_eq!(v["bid_price"].as_f64(), Some(48000.0));
    assert_eq!(v["ask_price"].as_f64(), Some(48100.0));
    assert_eq!(v["pnl_raw"].as_i64(), Some(-50_000_000));
    assert_eq!(v["pnl_usd"].as_f64(), Some(-0.5));
    assert_eq!(v["pnl_pct"].as_f64(), Some(-0.1));
    assert_eq!(v["wins"].as_u64(), Some(7));
    assert_eq!(v["position_open"].as_bool(), Some(true));
    assert_eq!(v["funding_rate_bps"].as_i64(), Some(-80));
    assert_eq!(v["timestamp_ms"].as_u64(), Some(3));
    assert_eq!(v["recent_logs"][0], "a \"quoted\" line");
    assert_eq!(v["recent_logs"][1], "second");
}

#[test]
fn dashboard_html_not_empty() {
    assert!(
        DASHBOARD_HTML.len() > 1000,
        "embedded dashboard HTML should be substantial"
    );
    assert!(
        DASHBOARD_HTML.contains("gate-arb"),
        "dashboard should reference the product name"
    );
}

#[test]
fn upgrades_are_found_in_any_case() {
    assert!(is_ws_upgrade("GET / HTTP/1.1\r\nUpgrade: websocket\r\n\r\n"));
    assert!(is_ws_upgrade("UPGRADE: WebSocket"));
    assert!(is_ws_upgrade("uPgRaDe: wEbSoCkEt, h2c"));
    assert!(!is_ws_upgrade("Upgrade: h2c"));
    assert!(!is_ws_upgrade("Upgrade:websocket"));
    assert!(!is_ws_upgrade(""));
    assert!(!is_ws_upgrade("upgrade: websocke"));
    assert!(is_ws_upgrade("é upgrade: upgrade: websocket"));
}

#[test]
fn connections_are_routed() {
    assert_eq!(route(b""), Route::Close);
    assert_eq!(route(b"GET"), Route::Close);
    assert_eq!(route(b"POST / HTTP/1.1"), Route::Close);
    assert_eq!(route(b"get / HTTP/1.1"), Route::Close);
    assert_eq!(route(b"GET / HTTP/1.1\r\nHost: x\r\n\r\n"), Route::Page);
    assert_eq!(route(b"GET / HTTP/1.1\r\nUpgrade: WebSocket\r\n\r\n"), Route::WebSocket);
    assert_eq!(route(b"GET / HTTP/1.1\r\nUpgrade: WebSocket\r\n\r\n\xff"), Route::Page);
}

#[test]
fn the_page_head_counts_bytes() {
    assert_eq!(
        page_head(),
        format!(
            "HTTP/1.1 200 OK\r\nContent-Type: text/html; charset=utf-8\r\nContent-Length: {}\r\n\
             Connection: close\r\n\r\n",
            DASHBOARD_HTML.len()
        )
    );
}
