use gate_arb::types::{
    ArbitragePosition, Fixed64, FundingRateUpdate, Leg, LegKind, Level, OrderAck, OrderBook,
    OrderCmd, OrderStatus, Side, TradeState, SCALE,
};

fn fixed(v: f64) -> Fixed64 {
    Fixed64::from_raw((v * SCALE as f64) as u64)
}

fn level(price: f64, qty: u64) -> Level {
    Level { price: fixed(price), qty }
}

#[test]
fn test_fixed64_conversion() {
    let price = fixed(50000.12345678);
    assert_eq!(price.raw(), 5_000_012_345_678);
    assert!((price.raw() as f64 / SCALE as f64 - 50000.12345678).abs() < 1e-6);
}

#[test]
fn fixed64_zero_and_one() {
    assert_eq!(Fixed64::zero().raw(), 0);
    assert_eq!(Fixed64::one().raw(), 100_000_000);
}

#[test]
fn test_order_book_new() {
    let book: OrderBook<10, 10> = OrderBook::new();
    assert_eq!(book.bid_count, 0);
    assert_eq!(book.ask_count, 0);
    assert!(book.bids.iter().all(|l| l.price.raw() == 0 && l.qty == 0));
    assert!(book.best_bid().is_none());
    assert!(book.best_ask().is_none());
    assert!(book.spread_raw().is_none());
}

#[test]
fn test_order_book_update() {
    let mut book: OrderBook<10, 10> = OrderBook::new();
    let bids = [level(50000.0, 1000), level(49999.0, 2000)];
    book.update_bids(&bids);
    assert_eq!(book.bid_count, 2);
    assert_eq!(book.best_bid().unwrap().raw(), fixed(50000.0).raw());
}

#[test]
fn best_prices_do_not_depend_on_level_order() {
    let mut book: OrderBook<4, 4> = OrderBook::default();
    book.update_bids(&[level(1.0, 1), level(3.0, 1), level(2.0, 1)]);
    book.update_asks(&[level(6.0, 1), level(4.0, 1), level(5.0, 1)]);
    assert_eq!(book.best_bid().unwrap().raw(), fixed(3.0).raw());
    assert_eq!(book.best_ask().unwrap().raw(), fixed(4.0).raw());
}

#[test]
fn a_snapshot_beyond_the_capacity_is_cut() {
    let mut book: OrderBook<2, 2> = OrderBook::new();
    book.update_asks(&[level(6.0, 1), level(5.0, 1), level(4.0, 1)]);
    assert_eq!(book.ask_count, 2);
    assert_eq!(book.best_ask().unwrap().raw(), fixed(5.0).raw());
    book.update_asks(&[level(7.0, 1)]);
    assert_eq!(book.ask_count, 1);
    assert_eq!(book.best_ask().unwrap().raw(), fixed(7.0).raw());
}

#[test]
fn test_spread_raw() {
    let mut book: OrderBook<10, 10> = OrderBook::new();
    book.update_bids(&[level(50000.0, 1000)]);
    book.update_asks(&[level(50001.0, 1000)]);
    let spread = book.spread_raw().unwrap();
    let expected = fixed(1.0).raw();
    assert_eq!(spread, expected);
}

#[test]
fn a_crossed_book_has_no_spread() {
    let mut book: OrderBook<2, 2> = OrderBook::new();
    book.update_bids(&[level(2.0, 1)]);
    book.update_asks(&[level(1.0, 1)]);
    assert!(book.spread_raw().is_none());
}

#[test]
fn a_new_position_has_sent_its_first_leg() {
    let leg = |kind| Leg {
        kind,
        price: fixed(1.0),
        qty: 5,
        state: TradeState::Idle,
        sent_at_us: None,
        filled_at_us: None,
    };
    let p = ArbitragePosition::new(leg(LegKind::SpotBuy), leg(LegKind::PerpShort), 77);
    assert_eq!(p.state, TradeState::Leg1Sent);
    assert_eq!(p.opened_at_us, 77);
    assert_eq!(p.legs[0].kind, LegKind::SpotBuy);
    assert_eq!(p.legs[1].kind, LegKind::PerpShort);
}

#[test]
fn order_cmd_roundtrip() {
    let cmd = OrderCmd::Place {
        client_id: 42,
        symbol: "BTC_USDT",
        side: Side::Bid,
        price: Fixed64::from_raw(5_000_000_000_000),
        qty: 1_000_000,
        post_only: true,
    };
    match cmd {
        OrderCmd::Place { client_id, post_only, .. } => {
            assert_eq!(client_id, 42);
            assert!(post_only);
        }
        _ => panic!("wrong variant"),
    }
}

#[test]
fn order_ack_status() {
    let ack = OrderAck {
        client_id: 42,
        exchange_id: "abc123".to_string(),
        status: OrderStatus::Open,
    };
    assert_eq!(ack.client_id, 42);
    assert_eq!(ack.status, OrderStatus::Open);
}

#[test]
fn test_rate_bps() {
    let bps = 1.0f64;
    let r = FundingRateUpdate {
        contract: "BTC_USDT".into(),
        rate_raw: (bps / 10_000.0 * SCALE as f64) as i64,
        timestamp_ms: 0,
    };
    let read = r.rate_bps() as f64 / gate_arb::types::RAW_PER_BPS as f64;
    assert!((read - 1.0).abs() < 0.001, "bps should be 1.0");
}
