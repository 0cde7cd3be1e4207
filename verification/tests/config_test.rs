use gate_arb::config::{Config, Vars};
use gate_arb::types::SCALE;

fn set(v: &str) -> Option<String> {
    Some(v.to_string())
}

#[test]
fn test_defaults() {
    let cfg = Config::from_vars(&Vars::default());
    assert_eq!(cfg.spot_symbol, "BTC_USDT");
    assert_eq!(cfg.perp_symbol, "BTC_USDT");
    assert_eq!(cfg.spread_threshold_bps, 50);
    assert_eq!(cfg.spread_threshold_raw, 25_000_000_000);
    assert_eq!(cfg.frontend_port, 8080);
    assert_eq!(cfg.health_port, 8081);
    assert_eq!(cfg.max_position_usd, 1000);
    assert!(cfg.paper_mode);
}

#[test]
fn test_gate_env_vars() {
    let vars = Vars {
        gate_spot_symbol: set("ETH_USDT"),
        gate_perp_symbol: set("ETH_USDT"),
        gate_spread_threshold_bps: set("100"),
        gate_frontend_port: set("9090"),
        gate_health_port: set("9091"),
        gate_max_position_usd: set("5000"),
        paper_mode: set("false"),
        ..Vars::default()
    };
    let cfg = Config::from_vars(&vars);
    assert_eq!(cfg.spot_symbol, "ETH_USDT");
    assert_eq!(cfg.perp_symbol, "ETH_USDT");
    assert_eq!(cfg.spread_threshold_bps, 100);
    assert_eq!(cfg.spread_threshold_raw, 50_000_000_000);
    assert_eq!(cfg.frontend_port, 9090);
    assert_eq!(cfg.health_port, 9091);
    assert_eq!(cfg.max_position_usd, 5000);
    assert!(!cfg.paper_mode);
    assert_eq!(
        cfg.log_effective(),
        "Config: spot=ETH_USDT perp=ETH_USDT threshold=100bps frontend_port=9090 \
         health_port=9091 max_pos_usd=5000 paper_mode=false"
    );
}

#[test]
fn test_legacy_fallback() {
    let vars = Vars {
        spot_symbol: set("SOL_USDT"),
        perp_symbol: set("SOL_USDT"),
        ..Vars::default()
    };
    let cfg = Config::from_vars(&vars);
    assert_eq!(cfg.spot_symbol, "SOL_USDT");
    assert_eq!(cfg.perp_symbol, "SOL_USDT");
}

#[test]
fn test_bps_to_raw_conversion() {
    let raw = |bps: &str| {
        let vars = Vars { gate_spread_threshold_bps: set(bps), ..Vars::default() };
        Config::from_vars(&vars).spread_threshold_raw
    };
    assert_eq!(50 * SCALE * 5, 25_000_000_000);
    assert_eq!(raw("50"), 25_000_000_000);
    assert_eq!(10 * SCALE * 5, 5_000_000_000);
    assert_eq!(raw("10"), 5_000_000_000);
    assert_eq!(100 * SCALE * 5, 50_000_000_000);
    assert_eq!(raw("100"), 50_000_000_000);
}

#[test]
fn newer_names_come_first_even_when_unusable() {
    let vars = Vars {
        gate_frontend_port: set("nine"),
        frontend_port: set("9090"),
        health_port: set("70000"),
        gate_spot_symbol: set("A"),
        spot_symbol: set("B"),
        ..Vars::default()
    };
    let cfg = Config::from_vars(&vars);
    assert_eq!(cfg.frontend_port, 8080);
    assert_eq!(cfg.health_port, 8081);
    assert_eq!(cfg.spot_symbol, "A");
}

#[test]
fn only_false_leaves_paper_mode() {
    for v in ["true", "False", "0", "", "false "] {
        let vars = Vars { paper_mode: set(v), ..Vars::default() };
        assert!(Config::from_vars(&vars).paper_mode);
    }
}

#[test]
fn a_threshold_beyond_the_range_is_told() {
    let fits = |bps: &str| {
        Config::threshold_fits(&Vars { gate_spread_threshold_bps: set(bps), ..Vars::default() })
    };
    assert!(fits("36893488147"));
    assert!(!fits("36893488148"));
    assert!(fits("nonsense"));
}
