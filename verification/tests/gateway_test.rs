use gate_arb::decimal::try_parse_price;
use gate_arb::gateway::{
    parse_level, parse_price, try_parse_level, FundingRatePayload, ObUpdate, Reconnect, ReconnectConfig,
    ReconnectStep, SubscribeMsg, CHANNEL_FUNDING_RATE, CHANNEL_FUTURES_OB, CHANNEL_SPOT_OB,
};
use gate_arb::types::Fixed64;
use std::time::Duration;

#[test]
fn parse_price_basic_integer() {
    let p = parse_price("50000");
    assert_eq!(p.raw(), 5_000_000_000_000, "integer price");
}

#[test]
fn parse_price_8_decimal_places() {
    let p = parse_price("50000.12345678");
    assert_eq!(p.raw(), 5_000_012_345_678, "8 decimal places");
}

#[test]
fn parse_price_fewer_decimals() {
    let p = parse_price("50000.5");
    assert_eq!(p.raw(), 5_000_050_000_000, "1 decimal place");
}

#[test]
fn parse_price_two_decimals() {
    let p = parse_price("1.23");
    assert_eq!(p.raw(), 123_000_000, "2 decimal places");
}

#[test]
fn parse_price_zero_fractional() {
    let p = parse_price("100.00000000");
    assert_eq!(p.raw(), 10_000_000_000, "zero frac");
}

#[test]
fn parse_price_small_price() {
    let p = parse_price("0.00010000");
    assert_eq!(p.raw(), 10_000, "small price 0.0001");
}

#[test]
fn parse_price_truncates_beyond_8_decimals() {
    let p = parse_price("1.123456789");
    assert_eq!(p.raw(), 112_345_678, "truncate >8 decimals");
}

#[test]
fn parse_price_regression_was_wrong() {
    let p = parse_price("50000.12345678");
    let old_wrong = Fixed64::from_raw(50_000_123);
    assert_ne!(p.raw(), old_wrong.raw(), "must not produce old wrong value");
    assert_eq!(p.raw(), 5_000_012_345_678);
}

#[test]
fn parts_that_are_no_numbers_count_as_zero() {
    assert_eq!(parse_price("").raw(), 0);
    assert_eq!(parse_price("abc").raw(), 0);
    assert_eq!(parse_price(".5").raw(), 50_000_000);
    assert_eq!(parse_price("7.").raw(), 700_000_000);
    assert_eq!(parse_price("7.x").raw(), 700_000_000);
    assert_eq!(parse_price("-7.25").raw(), 25_000_000);
    assert_eq!(parse_price("1.2.3").raw(), 100_000_000);
    assert_eq!(parse_price("+1").raw(), 100_000_000);
}

#[test]
fn a_price_beyond_the_range_is_told() {
    assert_eq!(try_parse_price("184467440737.09551615"), Some(Fixed64::from_raw(u64::MAX)));
    assert_eq!(try_parse_price("184467440737.09551616"), None);
    assert!(try_parse_level("184467440738", "1").is_none());
}

#[test]
fn levels_are_read() {
    let l = parse_level("50000.5", "12");
    assert_eq!((l.price.raw(), l.qty), (5_000_050_000_000, 12));
    assert_eq!(parse_level("1", "0.5").qty, 0);
    assert_eq!(try_parse_level("1", "3").unwrap().qty, 3);
}

#[test]
fn a_snapshot_becomes_a_command() {
    let pair = |p: &str, q: &str| (p.to_string(), q.to_string());
    let mut update = ObUpdate {
        t: 1,
        s: "BTC_USDT".to_string(),
        bids: (0..25).map(|i| pair(&format!("{}", 100 - i), "2")).collect(),
        asks: vec![pair("101.5", "x")],
    };
    let cmd = update.to_cmd(true).unwrap();
    assert!(cmd.is_spot);
    assert_eq!(cmd.bids.len(), 20);
    assert_eq!(cmd.bids[19].price.raw(), 8_100_000_000);
    assert_eq!((cmd.asks[0].price.raw(), cmd.asks[0].qty), (10_150_000_000, 0));
    // a price beyond the range counts only among the first twenty
    update.bids[24] = pair("999999999999", "1");
    assert!(update.to_cmd(false).is_some());
    update.bids[3] = pair("999999999999", "1");
    assert!(update.to_cmd(false).is_none());
}

#[test]
fn a_subscription_names_the_pair() {
    let m = SubscribeMsg::new(CHANNEL_SPOT_OB, "BTC_USDT");
    assert_eq!((m.channel, m.event), ("spot.order_book", "subscribe"));
    assert_eq!(m.payload, vec!["BTC_USDT", "10", "0"]);
    assert_eq!(
        m.to_json(),
        "{\"channel\":\"spot.order_book\",\"event\":\"subscribe\",\
         \"payload\":[\"BTC_USDT\",\"10\",\"0\"]}"
    );
    assert_eq!(CHANNEL_FUTURES_OB, "futures.order_book");
    assert_eq!(CHANNEL_FUNDING_RATE, "futures.funding_rate");
}

#[test]
fn a_funding_payload_becomes_an_update() {
    let p = FundingRatePayload {
        contract: "BTC_USDT".to_string(),
        r: "0.0001".to_string(),
        t: 1_609_459_200_000,
    };
    let u = p.to_update(10_000);
    assert_eq!(u.contract, "BTC_USDT");
    assert_eq!((u.rate_raw, u.timestamp_ms), (10_000, 1_609_459_200_000));
}

fn backoff_for_attempt(attempt: u32, initial_ms: u64, max_ms: u64) -> Duration {
    let cfg = ReconnectConfig {
        initial_delay_ms: initial_ms,
        max_delay_ms: max_ms,
        ..ReconnectConfig::default()
    };
    Duration::from_millis(cfg.delay_for_attempt(attempt))
}

#[test]
fn backoff_doubles_each_attempt() {
    assert_eq!(backoff_for_attempt(1, 1000, 30_000), Duration::from_secs(1));
    assert_eq!(backoff_for_attempt(2, 1000, 30_000), Duration::from_secs(2));
    assert_eq!(backoff_for_attempt(3, 1000, 30_000), Duration::from_secs(4));
    assert_eq!(backoff_for_attempt(4, 1000, 30_000), Duration::from_secs(8));
    assert_eq!(backoff_for_attempt(5, 1000, 30_000), Duration::from_secs(16));
    assert_eq!(backoff_for_attempt(6, 1000, 30_000), Duration::from_secs(30));
    assert_eq!(backoff_for_attempt(7, 1000, 30_000), Duration::from_secs(30));
    assert_eq!(backoff_for_attempt(10, 1000, 30_000), Duration::from_secs(30));
}

#[test]
fn backoff_capped_at_max() {
    for a in 1u32..=100 {
        let d = backoff_for_attempt(a, 1000, 30_000);
        assert!(d <= Duration::from_secs(30), "attempt {} exceeded max", a);
    }
}

#[test]
fn backoff_minimum_is_initial() {
    assert_eq!(backoff_for_attempt(1, 500, 10_000), Duration::from_millis(500));
    assert_eq!(backoff_for_attempt(1, 2000, 60_000), Duration::from_secs(2));
}

#[test]
fn default_reconnect_config() {
    let cfg = ReconnectConfig::default();
    let initial = Duration::from_secs(1);
    let max = Duration::from_secs(30);
    assert_eq!(Duration::from_millis(cfg.initial_delay_ms), initial);
    assert_eq!(Duration::from_millis(cfg.max_delay_ms), max);
    assert_eq!(cfg.max_attempts, 10);
    assert_eq!(
        backoff_for_attempt(10, initial.as_millis() as u64, max.as_millis() as u64),
        max
    );
    assert_eq!(Duration::from_millis(cfg.pause_threshold_ms), Duration::from_secs(60));
}

#[test]
fn shift_clamp_never_overflows() {
    for a in 1u32..=200 {
        let capped = backoff_for_attempt(a, 1000, 30_000).as_millis() as u64;
        assert!(capped <= 30_000, "overflow at attempt {}", a);
    }
    // the exponent stops at 5
    assert_eq!(backoff_for_attempt(200, 1000, u64::MAX), Duration::from_secs(32));
}

#[test]
fn failures_lead_to_retries_and_an_end() {
    let cfg = ReconnectConfig::default();
    assert_eq!(
        cfg.after_failure(3, 60_000),
        ReconnectStep::Retry { delay_ms: 4_000, pause_entries: false }
    );
    assert_eq!(
        cfg.after_failure(9, 60_001),
        ReconnectStep::Retry { delay_ms: 30_000, pause_entries: true }
    );
    assert_eq!(cfg.after_failure(10, 0), ReconnectStep::GiveUp);
}

#[test]
fn giving_up_needs_no_delay() {
    let cfg = ReconnectConfig {
        initial_delay_ms: u64::MAX,
        max_attempts: 2,
        ..ReconnectConfig::default()
    };
    assert_eq!(
        cfg.after_failure(1, 0),
        ReconnectStep::Retry { delay_ms: 30_000, pause_entries: false }
    );
    assert_eq!(cfg.after_failure(2, 0), ReconnectStep::GiveUp);
}

#[test]
fn only_consecutive_failures_count() {
    let mut r = Reconnect::new(ReconnectConfig::default());
    let retry = |delay_ms, pause_entries| ReconnectStep::Retry { delay_ms, pause_entries };
    assert_eq!(r.lost(1_000), retry(1_000, false));
    assert_eq!(r.lost(3_000), retry(2_000, false));
    r.connected();
    assert_eq!(r.lost(500_000), retry(1_000, false));
    assert_eq!(r.lost(560_000), retry(2_000, false));
    assert_eq!(r.lost(560_001), retry(4_000, true));
    for _ in 0..6 {
        assert_ne!(r.lost(600_000), ReconnectStep::GiveUp);
    }
    assert_eq!(r.lost(600_000), ReconnectStep::GiveUp);
}
