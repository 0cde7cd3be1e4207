use gate_arb::funding::{FundingState, FundingStrategy, MAX_HOLD_AFTER_SNAPSHOT_SECS};
use gate_arb::types::{FundingRateUpdate, SCALE};

fn make_rate(bps: f64, now_ms: u64) -> FundingRateUpdate {
    FundingRateUpdate {
        contract: "BTC_USDT".into(),
        rate_raw: (bps / 10_000.0 * SCALE as f64) as i64,
        timestamp_ms: now_ms,
    }
}

#[test]
fn test_next_snapshot_ms() {
    let now = 0u64;
    let next = FundingStrategy::next_snapshot_ms(now);
    assert_eq!(next, 8 * 3600 * 1_000, "first snapshot after midnight = 08:00");
}

#[test]
fn snapshots_follow_each_other() {
    let h8 = 8 * 3600 * 1_000u64;
    assert_eq!(FundingStrategy::next_snapshot_ms(h8), 2 * h8);
    assert_eq!(FundingStrategy::next_snapshot_ms(h8 - 1_000), h8);
    assert_eq!(FundingStrategy::next_snapshot_ms(3 * h8 - 60_000), 3 * h8);
    // sharp, whatever the millisecond
    assert_eq!(FundingStrategy::next_snapshot_ms(500), h8);
    assert_eq!(FundingStrategy::next_snapshot_ms(h8 - 1), h8);
    assert_eq!(FundingStrategy::next_snapshot_ms(h8 + 1), 2 * h8);
}

#[test]
fn test_no_entry_below_threshold() {
    let mut strat = FundingStrategy::new(true);
    let rate = make_rate(0.1, 0);
    strat.on_funding_rate(rate);
    let snapshot = FundingStrategy::next_snapshot_ms(0);
    let now = snapshot - 4 * 60 * 1_000;
    strat.on_warm_tick(now, Some(5_000_000_000_000), Some(5_000_100_000_000));
    assert!(!strat.is_position_open(), "should not enter below threshold");
}

#[test]
fn test_entry_within_window() {
    let mut strat = FundingStrategy::new(true);
    let now_ms = 0u64;
    let rate = make_rate(2.0, now_ms);
    strat.on_funding_rate(rate);
    let snapshot = FundingStrategy::next_snapshot_ms(now_ms);
    let entry_ms = snapshot - 3 * 60 * 1_000;
    let spot = 5_000_000_000_000u64;
    let perp = 5_001_000_000_000u64;
    strat.on_warm_tick(entry_ms, Some(spot), Some(perp));
    assert!(strat.is_position_open(), "should enter with 2bps rate in window");
    assert_eq!(strat.get_stats().last_entry_at_ms, Some(entry_ms));
}

#[test]
fn test_entry_too_early() {
    let mut strat = FundingStrategy::new(true);
    let now_ms = 0u64;
    let rate = make_rate(2.0, now_ms);
    strat.on_funding_rate(rate);
    let snapshot = FundingStrategy::next_snapshot_ms(now_ms);
    let entry_ms = snapshot - 10 * 60 * 1_000;
    strat.on_warm_tick(entry_ms, Some(5_000_000_000_000), Some(5_001_000_000_000));
    assert!(!strat.is_position_open(), "should not enter too early");
}

#[test]
fn test_full_cycle() {
    let mut strat = FundingStrategy::new(true);
    let now_ms = 0u64;
    let rate = make_rate(5.0, now_ms);
    strat.on_funding_rate(rate);

    let snapshot = FundingStrategy::next_snapshot_ms(now_ms);
    let entry_ms = snapshot - 3 * 60 * 1_000;
    strat.on_warm_tick(entry_ms, Some(5_000_000_000_000), Some(5_001_000_000_000));
    assert!(strat.is_position_open(), "position should be open after entry");
    assert_eq!(strat.position_state(), Some(FundingState::Entered));

    let post_snap = snapshot + 1_000;
    strat.on_warm_tick(post_snap, Some(5_000_000_000_000), Some(5_001_000_000_000));
    assert_eq!(strat.position_state(), Some(FundingState::Collecting));

    let exit_ms = snapshot + MAX_HOLD_AFTER_SNAPSHOT_SECS * 1_000 + 1_000;
    strat.on_warm_tick(exit_ms, Some(5_000_000_000_000), Some(5_001_000_000_000));
    assert!(!strat.is_position_open(), "position should be closed after exit");

    let stats = strat.get_stats();
    assert_eq!(stats.total_cycles, 1, "should have completed 1 cycle");
}

#[test]
fn the_window_and_the_threshold_are_inclusive() {
    let snapshot = FundingStrategy::next_snapshot_ms(0);
    let price = Some(5_000_000_000_000u64);
    let at = |rate_raw: i64, before_ms: u64| {
        let mut s = FundingStrategy::new(true);
        s.on_funding_rate(FundingRateUpdate {
            contract: String::new(),
            rate_raw,
            timestamp_ms: 0,
        });
        s.on_warm_tick(snapshot - before_ms, price, price);
        s.is_position_open()
    };
    assert!(at(5_000, 300_000));
    assert!(!at(4_999, 300_000));
    assert!(!at(5_000, 301_000));
    assert!(at(5_000, 1_000));
    assert!(at(5_000, 300_999));
    // less than a second before the snapshot it is too late
    assert!(!at(5_000, 999));
    assert!(!at(5_000, 1));
    // at the snapshot itself the next one is eight hours away
    assert!(!at(5_000, 0));
}

#[test]
fn both_prices_are_needed_for_an_entry() {
    let snapshot = FundingStrategy::next_snapshot_ms(0);
    let mut s = FundingStrategy::new(false);
    assert_eq!(s.latest_rate_bps(), 0);
    s.on_warm_tick(snapshot - 60_000, Some(1), Some(1));
    assert!(!s.is_position_open());
    s.on_funding_rate(make_rate(1.0, 3));
    assert_eq!(s.latest_rate_bps(), 10_000);
    assert_eq!(s.get_stats().last_rate_bps, 10_000);
    s.on_warm_tick(snapshot - 60_000, None, Some(1));
    s.on_warm_tick(snapshot - 60_000, Some(1), None);
    assert!(!s.is_position_open());
    s.on_warm_tick(snapshot - 60_000, Some(1), Some(1));
    assert!(s.is_position_open());
}

#[test]
fn a_cycle_is_booked_to_the_unit() {
    let mut s = FundingStrategy::new(true);
    s.on_funding_rate(FundingRateUpdate {
        contract: "BTC_USDT".into(),
        rate_raw: 50_000,
        timestamp_ms: 0,
    });
    let snapshot = FundingStrategy::next_snapshot_ms(0);
    s.on_warm_tick(snapshot - 100_000, Some(5_000_000_000_000), Some(5_001_000_000_000));
    s.on_warm_tick(snapshot, None, None);
    assert!(s.on_warm_tick(snapshot + 119_999, None, None).is_none());
    let c = s.on_warm_tick(snapshot + 120_000, Some(5_010_000_000_050), None).unwrap();
    assert_eq!(c.spot_pnl_raw, 100_000_000);
    assert_eq!(c.perp_pnl_raw, 0);
    assert_eq!(c.funding_raw, 500);
    // 0.08% of 1000.1 USD
    assert_eq!(c.fee_raw, 80_008_000);
    assert_eq!(c.total_pnl_raw, 100_000_000 + 500 - 80_008_000);
    assert_eq!(c.hold_secs, 220);
    let stats = s.get_stats();
    assert_eq!(stats.profitable_cycles, 1);
    assert_eq!(stats.total_funding_collected_raw, 500);
    assert_eq!(stats.last_exit_at_ms, Some(snapshot + 120_000));
    assert!(s.has_headroom());
}

#[test]
fn a_position_collects_from_the_snapshot_on() {
    let h8 = 8 * 3600 * 1_000u64;
    let mut s = FundingStrategy::new(true);
    s.on_funding_rate(make_rate(2.0, 0));
    s.on_warm_tick(h8 - 1_500, Some(1), Some(1));
    assert_eq!(s.position_state(), Some(FundingState::Entered));
    s.on_warm_tick(h8 - 1, Some(1), Some(1));
    assert_eq!(s.position_state(), Some(FundingState::Entered));
    s.on_warm_tick(h8, Some(1), Some(1));
    assert_eq!(s.position_state(), Some(FundingState::Collecting));
}

#[test]
fn a_refused_entry_stays_out_and_an_exit_goes_ahead() {
    let h8 = 8 * 3600 * 1_000u64;
    let mut s = FundingStrategy::new(true);
    s.on_funding_rate(make_rate(2.0, 0));
    assert!(s.on_warm_tick_if(false, h8 - 60_000, Some(1), Some(1)).is_none());
    assert!(!s.is_position_open());
    s.on_warm_tick_if(true, h8 - 60_000, Some(1), Some(1));
    assert!(s.is_position_open());
    s.on_warm_tick_if(false, h8, Some(1), Some(1));
    assert!(s.on_warm_tick_if(false, h8 + 120_000, Some(1), Some(1)).is_some());
    assert!(!s.is_position_open());
}
