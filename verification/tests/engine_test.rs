use gate_arb::engine::{Engine, SpreadDirection};
use gate_arb::types::{Fixed64, Level, ObUpdateCmd, SCALE};

fn fixed(v: f64) -> Fixed64 {
    Fixed64::from_raw((v * SCALE as f64) as u64)
}

fn level(price: f64) -> Level {
    Level { price: fixed(price), qty: 1_000_000 }
}

fn make_engine(spot_bid: f64, spot_ask: f64, perp_bid: f64, perp_ask: f64) -> Engine<20, 20> {
    let mut e = Engine::<20, 20>::new();
    e.spot_book.update_bids(&[level(spot_bid)]);
    e.spot_book.update_asks(&[level(spot_ask)]);
    e.perp_book.update_bids(&[level(perp_bid)]);
    e.perp_book.update_asks(&[level(perp_ask)]);
    e
}

#[test]
fn current_spread_normal_direction() {
    let e = make_engine(50000.0, 50001.0, 49999.0, 50010.0);
    let snap = e.current_spread().unwrap();
    assert_eq!(snap.spread_raw, fixed(10.0).raw());
    assert!(!snap.inverted);
    assert_eq!(snap.direction, SpreadDirection::Normal);
    assert_eq!(snap.leg_a.raw(), fixed(50000.0).raw());
    assert_eq!(snap.leg_b.raw(), fixed(50010.0).raw());
}

#[test]
fn current_spread_inverted() {
    let e = make_engine(50010.0, 50011.0, 49999.0, 49998.0);
    let snap = e.current_spread().unwrap();
    assert!(snap.inverted);
    assert_eq!(snap.spread_raw, 0);
}

#[test]
fn current_spread_exactly_zero() {
    let e = make_engine(50000.0, 50001.0, 49999.0, 50000.0);
    let snap = e.current_spread().unwrap();
    assert_eq!(snap.spread_raw, 0);
    assert!(!snap.inverted);
}

#[test]
fn current_spread_inverse_direction() {
    let e = make_engine(49999.0, 50015.0, 50000.0, 50010.0);
    let snap = e.current_spread_inverse().unwrap();
    assert_eq!(snap.spread_raw, fixed(15.0).raw());
    assert!(!snap.inverted);
    assert_eq!(snap.direction, SpreadDirection::Inverse);
    assert_eq!(snap.leg_a.raw(), fixed(50015.0).raw());
    assert_eq!(snap.leg_b.raw(), fixed(50000.0).raw());
}

#[test]
fn inverse_spread_is_clamped_too() {
    let e = make_engine(49999.0, 50000.0, 50015.0, 50020.0);
    let snap = e.current_spread_inverse().unwrap();
    assert_eq!(snap.spread_raw, 0);
    assert!(snap.inverted);
}

#[test]
fn check_spread_below_threshold_returns_none() {
    let e = make_engine(50000.0, 50001.0, 49999.0, 50005.0);
    let threshold = fixed(10.0).raw();
    assert!(e.check_spread(threshold).is_none());
}

#[test]
fn check_spread_above_threshold_returns_signal() {
    let e = make_engine(50000.0, 50001.0, 49999.0, 50010.0);
    let threshold = fixed(5.0).raw();
    let sig = e.check_spread(threshold).unwrap();
    assert_eq!(sig.spread_raw, fixed(10.0).raw());
    assert_eq!(sig.bid_price.raw(), fixed(50000.0).raw());
    assert_eq!(sig.ask_price.raw(), fixed(50010.0).raw());
}

#[test]
fn check_spread_stamps_and_relates_the_spread() {
    let e = make_engine(50000.0, 50001.0, 49999.0, 50010.0);
    let sig = e.check_spread_at(fixed(5.0).raw(), 123).unwrap();
    assert_eq!(sig.timestamp_us, 123);
    // 10 / 50000 = 0.0002
    assert_eq!(sig.spread_pct.raw(), 20_000);
    // the wall clock is past 2020
    assert!(e.check_spread(0).unwrap().timestamp_us > 1_577_836_800_000_000);
}

#[test]
fn a_spread_at_the_threshold_is_no_signal() {
    let e = make_engine(50000.0, 50001.0, 49999.0, 50010.0);
    assert!(e.check_spread(fixed(10.0).raw()).is_none());
    assert!(e.check_spread(fixed(10.0).raw() - 1).is_some());
}

#[test]
fn a_zero_bid_is_no_signal() {
    let e = make_engine(0.0, 1.0, 1.0, 2.0);
    assert_eq!(e.current_spread().unwrap().spread_raw, fixed(2.0).raw());
    assert!(e.check_spread(0).is_none());
}

#[test]
fn empty_books_returns_none() {
    let e = Engine::<20, 20>::new();
    assert!(e.current_spread().is_none());
    assert!(e.check_spread(0).is_none());
    assert!(e.current_spread_inverse().is_none());
}

#[test]
fn an_update_replaces_one_book() {
    let mut e = make_engine(50000.0, 50001.0, 49999.0, 50010.0);
    e.apply(&ObUpdateCmd { is_spot: false, bids: vec![], asks: vec![level(50020.0)] });
    assert_eq!(e.current_spread().unwrap().spread_raw, fixed(20.0).raw());
    assert!(e.current_spread_inverse().is_none());
    e.apply(&ObUpdateCmd { is_spot: true, bids: vec![level(50015.0)], asks: vec![] });
    assert_eq!(e.current_spread().unwrap().spread_raw, fixed(5.0).raw());
}
