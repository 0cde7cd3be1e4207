use gate_arb::risk::{RiskConfig, RiskManager, RiskViolations};

fn make_risk(max_drawdown_usd: f64, max_positions: usize, ping_ms: u64) -> RiskManager {
    RiskManager::new(RiskConfig {
        max_drawdown_raw: (max_drawdown_usd * 1e8) as i64,
        max_positions,
        ping_threshold_ms: ping_ms,
    })
}

#[test]
fn kill_switch_blocks_in_live_mode() {
    let mut rm = make_risk(100.0, 5, 200);
    rm.set_paper_mode(false);
    assert!(rm.can_open_position());
    assert!(!rm.activate_kill_switch());
    assert!(rm.activate_kill_switch());
    assert!(!rm.can_open_position());
    assert!(rm.is_kill_switch_active());
    rm.deactivate_kill_switch();
    assert!(rm.can_open_position());
}

#[test]
fn kill_switch_blocks_in_paper_mode_too() {
    let mut rm = make_risk(100.0, 5, 200);
    rm.set_paper_mode(true);
    rm.activate_kill_switch();
    assert!(!rm.can_open_position());
}

#[test]
fn max_positions_blocks_in_live_mode() {
    let mut rm = make_risk(100.0, 2, 200);
    rm.set_paper_mode(false);
    rm.position_opened();
    assert!(rm.can_open_position());
    rm.position_opened();
    assert!(!rm.can_open_position());
}

#[test]
fn max_positions_advisory_in_paper_mode() {
    let mut rm = make_risk(100.0, 1, 200);
    rm.set_paper_mode(true);
    rm.position_opened();
    rm.position_opened();
    assert!(rm.can_open_position());
    assert_eq!(rm.check().reason(), Some("max_positions"));
}

#[test]
fn drawdown_blocks_in_live_mode() {
    let mut rm = make_risk(10.0, 5, 200);
    rm.set_paper_mode(false);
    rm.update_pnl(20_000_000_000);
    rm.update_pnl(-21_000_000_000);
    assert!(!rm.can_open_position());
    assert_eq!(rm.check().reason(), Some("drawdown_exceeded"));
}

#[test]
fn high_latency_blocks_in_both_modes() {
    for paper in [true, false] {
        let mut rm = make_risk(100.0, 5, 100);
        rm.set_paper_mode(paper);
        rm.update_ping_latency(101);
        assert!(
            !rm.can_open_position(),
            "paper={}: high latency should block",
            paper
        );
        rm.update_ping_latency(100);
        assert!(rm.can_open_position());
    }
}

#[test]
fn position_opened_and_closed_tracking() {
    let mut rm = make_risk(100.0, 3, 200);
    rm.set_paper_mode(false);
    rm.position_opened();
    rm.position_opened();
    rm.position_closed();
    let status = rm.status();
    assert_eq!(status.position_count, 1);
}

#[test]
fn drawdown_calculation() {
    let mut rm = make_risk(100.0, 5, 200);
    assert_eq!(rm.current_drawdown_raw(), 0);
    rm.update_pnl(1_000_000_000);
    rm.update_pnl(-500_000_000);
    assert_eq!(rm.current_drawdown_raw(), 500_000_000);
}

#[test]
fn a_synced_profit_moves_the_peak_up_only() {
    let mut rm = RiskManager::default();
    rm.sync_cumulative_pnl(70);
    assert_eq!(rm.current_drawdown_raw(), 0);
    rm.sync_cumulative_pnl(-30);
    assert_eq!(rm.current_drawdown_raw(), 100);
    assert_eq!(rm.status().cumulative_pnl, -30);
    assert!(rm.drawdown_fits());
    rm.sync_cumulative_pnl(i64::MIN);
    assert!(!rm.drawdown_fits());
    assert!(rm.check().drawdown_exceeded);
}

#[test]
fn risk_status_serializes() {
    let rm = make_risk(100.0, 5, 200);
    let status = rm.status();
    let json = status.to_json();
    assert!(json.contains("kill_switch"));
    assert!(json.contains("position_count"));
    assert!(json.contains("drawdown_raw"));
    assert_eq!(
        json,
        "{\"kill_switch\":false,\"position_count\":0,\"max_positions\":5,\"drawdown_raw\":0,\
         \"max_drawdown_raw\":10000000000,\"last_ping_ms\":0,\"ping_threshold_ms\":200,\
         \"cumulative_pnl\":0}"
    );
}

#[test]
fn a_status_with_a_loss_is_valid_json() {
    let mut rm = make_risk(-1.5, 5, 200);
    rm.update_pnl(-7);
    rm.activate_kill_switch();
    let v: serde_json::Value = serde_json::from_str(&rm.status().to_json()).unwrap();
    assert_eq!(v["cumulative_pnl"], -7);
    assert_eq!(v["max_drawdown_raw"], -150_000_000);
    assert_eq!(v["drawdown_raw"], 7);
    assert_eq!(v["kill_switch"], true);
}

#[test]
fn from_env_default_max_drawdown_is_ten_dollars() {
    let cfg = RiskConfig::from_vars(None, None, None);
    assert_eq!(
        cfg.max_drawdown_raw,
        10_000_000_000,
        "without GATE_MAX_DRAWDOWN_USD the default must hold, not $0"
    );
    assert_eq!(cfg.max_positions, 3);
    assert_eq!(cfg.ping_threshold_ms, 100);
    assert_eq!(cfg, RiskConfig::default());
}

#[test]
fn from_env_respects_explicit_value() {
    let drawdown = "25.5".parse::<f64>().ok().map(|v| (v * 1e8) as i64);
    let cfg = RiskConfig::from_vars(drawdown, Some("7"), Some("50"));
    assert_eq!(cfg.max_drawdown_raw, (25.5 * 1e8) as i64);
    assert_eq!(cfg.max_positions, 7);
    assert_eq!(cfg.ping_threshold_ms, 50);
    let cfg = RiskConfig::from_vars(None, Some("-7"), Some("x"));
    assert_eq!(cfg, RiskConfig::default());
}

#[test]
fn position_closed_saturates_at_zero() {
    let mut rm = make_risk(100.0, 5, 200);
    rm.position_closed();
    let status = rm.status();
    assert_eq!(
        status.position_count, 0,
        "position_closed() on 0 must not wrap"
    );
}

#[test]
fn position_count_accurate_through_open_close_cycle() {
    let mut rm = make_risk(100.0, 3, 200);
    rm.set_paper_mode(false);
    rm.position_opened();
    rm.position_opened();
    assert_eq!(rm.status().position_count, 2);
    rm.position_closed();
    assert_eq!(rm.status().position_count, 1);
    rm.position_closed();
    assert_eq!(rm.status().position_count, 0);
    rm.position_opened();
    rm.position_opened();
    rm.position_opened();
    assert!(!rm.can_open_position(), "at max_positions=3 should block");
}

#[test]
fn risk_violations_reason_priority() {
    let mut rm = make_risk(1.0, 1, 50);
    rm.set_paper_mode(false);
    rm.activate_kill_switch();
    rm.update_ping_latency(200);
    rm.update_pnl(2_000_000_000);
    rm.update_pnl(-3_000_000_000);
    let v = rm.check();
    assert_eq!(v.reason(), Some("kill_switch"));
    rm.deactivate_kill_switch();
    assert_eq!(rm.check().reason(), Some("high_latency"));
    assert!(RiskViolations::default().is_ok());
    assert_eq!(RiskViolations::default().reason(), None);
}

#[test]
fn the_drawdown_is_the_largest_loss_so_far() {
    let mut rm = make_risk(100.0, 5, 200);
    let mut sum = 0i64;
    let mut top = 0i64;
    for x in [-5i64, 3, 10, -20, 15, 4, -1, 30, -2] {
        rm.update_pnl(x);
        sum += x;
        top = top.max(sum);
        assert_eq!(rm.current_drawdown_raw(), top - sum);
    }
}
