use gate_arb::engine::Engine;
use gate_arb::strategy::{ExitReason, Strategy, LEG2_TIMEOUT_US, MAX_HOLD_TIME_US};
use gate_arb::types::{
    Fixed64, Level, OrderAck, OrderCmd, OrderStatus, Side, SpreadSignal, TradeState, SCALE,
};

fn fixed(v: f64) -> Fixed64 {
    Fixed64::from_raw((v * SCALE as f64) as u64)
}

fn level(price: f64) -> Level {
    Level { price: fixed(price), qty: 1_000_000 }
}

fn make_strategy(
    spot_bid: f64,
    spot_ask: f64,
    perp_bid: f64,
    perp_ask: f64,
    threshold: f64,
) -> Strategy {
    let mut engine = Engine::<20, 20>::new();
    engine.spot_book.update_bids(&[level(spot_bid)]);
    engine.spot_book.update_asks(&[level(spot_ask)]);
    engine.perp_book.update_bids(&[level(perp_bid)]);
    engine.perp_book.update_asks(&[level(perp_ask)]);
    Strategy::new(engine, fixed(threshold).raw())
}

#[test]
fn no_signal_below_threshold() {
    let mut strat = make_strategy(50000.0, 50001.0, 49999.0, 50005.0, 10.0);
    strat.on_tick();
    assert!(!strat.is_position_open());
}

#[test]
fn paper_open_on_signal() {
    let mut strat = make_strategy(50000.0, 50001.0, 49999.0, 50020.0, 10.0);
    strat.on_tick();
    assert!(strat.is_position_open());
}

#[test]
fn paper_close_when_spread_converges() {
    let mut strat = make_strategy(50000.0, 50001.0, 49999.0, 50020.0, 10.0);
    strat.on_tick();
    assert!(strat.is_position_open(), "should be open after signal");

    strat.engine.perp_book.update_bids(&[level(49990.0)]);
    strat.engine.perp_book.update_asks(&[level(49995.0)]);

    strat.on_tick();
    assert!(!strat.is_position_open(), "should be closed after spread inversion");
}

#[test]
fn exit_spread_raw_used_for_close() {
    let mut strat = make_strategy(50000.0, 50001.0, 49999.0, 50020.0, 10.0);
    strat.exit_spread_raw = fixed(5.0).raw();
    strat.on_tick();
    assert!(strat.is_position_open());

    strat.engine.perp_book.update_asks(&[level(50004.0)]);
    strat.on_tick();
    assert!(!strat.is_position_open(), "should close when spread ≤ exit_spread_raw");
}

#[test]
fn min_profit_guard_blocks_graceful_close_at_zero() {
    let mut strat = make_strategy(50000.0, 50001.0, 49999.0, 50020.0, 10.0);
    strat.min_profit_raw = 100_000_000_000;
    strat.on_tick();
    assert!(strat.is_position_open());

    strat.engine.perp_book.update_asks(&[level(50000.0)]);
    strat.on_tick();
    assert!(
        strat.is_position_open(),
        "min_profit should block close when spread just reached 0"
    );

    // an inverted spread closes all the same
    strat.engine.perp_book.update_asks(&[level(49999.0)]);
    let out = strat.on_tick();
    assert!(!strat.is_position_open());
    assert_eq!(out.closed.unwrap().reason, ExitReason::SpreadInverted);
}

#[test]
fn paper_stats_updated_on_close() {
    let mut strat = make_strategy(50000.0, 50001.0, 49999.0, 50020.0, 10.0);
    strat.on_tick();
    assert_eq!(strat.get_paper_stats().total_trades, 0);

    strat.engine.perp_book.update_asks(&[level(49990.0)]);
    strat.on_tick();
    let stats = strat.get_paper_stats();
    assert_eq!(stats.total_trades, 1, "trade count incremented on close");
    assert_eq!(stats.wins + stats.losses, 1, "win or loss recorded");
}

#[test]
fn a_paper_trade_is_booked_to_the_unit() {
    let mut strat = make_strategy(50000.0, 50001.0, 49999.0, 50500.0, 10.0);
    strat.on_tick_at(1_000);
    strat.engine.perp_book.update_asks(&[level(50000.0)]);
    let out = strat.on_tick_at(3_000_000);
    let trade = out.closed.unwrap();
    assert_eq!(trade.reason, ExitReason::ExitSpread);
    assert_eq!(trade.reason.as_str(), "exit_spread");
    assert_eq!(trade.hold_time_us, 2_999_000);
    assert_eq!(trade.opened_at_us, 1_000);
    // the perp leg gains 500 USD on 0.01 BTC, the fee is 0.04% of 1005 USD
    assert_eq!(trade.fee_raw, 40_200_000);
    assert_eq!(trade.trade_pnl_raw, 500_000_000 - 40_200_000);
    assert_eq!(strat.get_pnl(), 459_800_000);
    let stats = strat.get_paper_stats();
    assert_eq!(stats.pnl_raw, 459_800_000);
    assert_eq!((stats.wins, stats.losses), (1, 0));
    assert_eq!(stats.last_signal_at_us, Some(1_000));
}

#[test]
fn a_losing_trade_rounds_toward_zero() {
    let mut strat = make_strategy(50000.0, 50001.0, 49999.0, 50020.0, 10.0);
    strat.on_tick_at(1);
    // spot falls by one raw unit more than the perp
    strat.engine.spot_book.update_bids(&[Level { price: Fixed64::from_raw(4_999_999_999_999), qty: 1 }]);
    strat.engine.perp_book.update_asks(&[level(49999.0)]);
    let trade = strat.on_tick_at(2).closed.unwrap();
    assert_eq!(trade.reason, ExitReason::SpreadInverted);
    // (-1 + 2_100_000_000) * 1_000_000 / 100_000_000, truncated
    assert_eq!(trade.trade_pnl_raw, 20_999_999 - trade.fee_raw);
    assert_eq!(trade.fee_raw, 40_008_000);
    let stats = strat.get_paper_stats();
    assert_eq!((stats.wins, stats.losses), (0, 1));
}

#[test]
fn the_longest_hold_closes() {
    let mut strat = make_strategy(50000.0, 50001.0, 49999.0, 50020.0, 10.0);
    strat.on_tick_at(0);
    assert!(strat.on_tick_at(MAX_HOLD_TIME_US - 1).closed.is_none());
    let trade = strat.on_tick_with_signal_at(None, MAX_HOLD_TIME_US).closed.unwrap();
    assert_eq!(trade.reason, ExitReason::MaxHold);
    assert_eq!(trade.reason.as_str(), "max_hold");
    // the books are there, but without a signal the entry prices stand
    assert!(strat.engine.current_spread().is_some());
    assert_eq!((trade.spot_exit, trade.perp_exit), (trade.spot_entry, trade.perp_entry));
    assert_eq!(trade.trade_pnl_raw, -trade.fee_raw);
}

#[test]
fn the_longest_hold_closes_at_the_signal() {
    let mut strat = Strategy::new(Engine::new(), 0);
    strat.on_tick_with_signal_at(Some(spread_signal()), 5);
    let later = SpreadSignal {
        bid_price: fixed(50003.0),
        ask_price: fixed(50011.0),
        ..spread_signal()
    };
    let trade = strat.on_tick_with_signal_at(Some(later), 5 + MAX_HOLD_TIME_US).closed.unwrap();
    assert_eq!(trade.reason, ExitReason::MaxHold);
    assert_eq!((trade.spot_exit, trade.perp_exit), (fixed(50003.0), fixed(50011.0)));
    // 0.01 of 3.0 gained and 1.0 lost, in raw units
    assert_eq!(trade.trade_pnl_raw, 2_000_000 - trade.fee_raw);
}

#[test]
fn without_a_market_the_entry_prices_stand() {
    let mut strat = Strategy::new(Engine::new(), 0);
    strat.on_tick_with_signal_at(Some(spread_signal()), 5);
    let trade = strat.on_tick_with_signal_at(None, 5 + MAX_HOLD_TIME_US).closed.unwrap();
    assert_eq!(trade.spot_exit, trade.spot_entry);
    assert_eq!(trade.perp_exit, trade.perp_entry);
    assert_eq!(trade.trade_pnl_raw, -trade.fee_raw);
    assert_eq!(ExitReason::SpreadInverted.as_str(), "spread_inverted");
}

#[test]
fn a_summary_is_due_every_hundred_ticks() {
    let mut strat = Strategy::new(Engine::new(), 0);
    for i in 1..=200u64 {
        let out = strat.on_tick_at(i);
        assert_eq!(out.summary_due, i % 100 == 0);
    }
    assert_eq!(strat.ticks(), 200);
    assert!(strat.has_headroom());
}

fn make_strategy_live() -> Strategy {
    let engine = Engine::<20, 20>::new();
    let mut s = Strategy::new(engine, 0);
    s.paper_mode = false;
    s.set_order_sender(true);
    s
}

fn spread_signal() -> SpreadSignal {
    SpreadSignal {
        spread_raw: 1_000_000,
        spread_pct: Fixed64::from_raw(0),
        bid_price: fixed(50000.0),
        ask_price: fixed(50010.0),
        timestamp_us: 1_000_000,
    }
}

fn place_id(cmd: &OrderCmd) -> u64 {
    match cmd {
        OrderCmd::Place { client_id, .. } => *client_id,
        _ => panic!("expected Place"),
    }
}

#[test]
fn live_open_sends_leg1_order() {
    let mut s = make_strategy_live();
    let cmd = s.on_tick_with_signal(Some(spread_signal())).order.expect("leg1 cmd");
    match cmd {
        OrderCmd::Place { side, post_only, qty, symbol, price, .. } => {
            assert_eq!(side, Side::Bid, "leg1 must be spot BUY");
            assert!(post_only, "must be post-only");
            assert_eq!(qty, 1_000_000, "qty must be 1e6 units = 0.01 BTC");
            assert_eq!(symbol, "BTC_USDT");
            assert_eq!(price, fixed(50000.0));
        }
        other => panic!("expected Place, got {:?}", other),
    }
    assert_eq!(s.position_state(), Some(TradeState::Leg1Sent));
}

#[test]
fn on_order_ack_leg1_filled_sends_leg2() {
    let mut s = make_strategy_live();
    let leg1_cmd = s.on_tick_with_signal(Some(spread_signal())).order.expect("leg1 cmd");
    let leg1_client_id = place_id(&leg1_cmd);

    let leg2_cmd = s.on_order_ack(OrderAck {
        client_id: leg1_client_id,
        exchange_id: "ex-111".to_string(),
        status: OrderStatus::Filled,
    });

    match leg2_cmd.expect("leg2 cmd") {
        OrderCmd::Place { client_id, side, post_only, price, .. } => {
            assert_eq!(side, Side::Ask, "leg2 must be perp SHORT (sell)");
            assert!(post_only, "leg2 must be post-only");
            assert_eq!(client_id % 2, 1, "leg2 client_id must be odd");
            assert_eq!(client_id, leg1_client_id + 1);
            assert_eq!(price, fixed(50010.0));
        }
        other => panic!("expected Place for leg2, got {:?}", other),
    }
    assert_eq!(s.position_state(), Some(TradeState::Leg2Sent));
}

#[test]
fn on_order_ack_leg2_filled_both_filled() {
    let mut s = make_strategy_live();
    let leg1_id = place_id(&s.on_tick_with_signal(Some(spread_signal())).order.unwrap());
    let leg2_cmd = s.on_order_ack(OrderAck {
        client_id: leg1_id,
        exchange_id: "e1".into(),
        status: OrderStatus::Filled,
    });
    let leg2_id = place_id(&leg2_cmd.unwrap());
    s.on_order_ack(OrderAck {
        client_id: leg2_id,
        exchange_id: "e2".into(),
        status: OrderStatus::Filled,
    });
    assert!(
        s.is_position_open(),
        "position should still be open (BOTH_FILLED, not CLOSED)"
    );
    assert_eq!(s.position_state(), Some(TradeState::BothFilled));
}

#[test]
fn on_order_ack_cancelled_triggers_closing() {
    let mut s = make_strategy_live();
    let client_id = place_id(&s.on_tick_with_signal(Some(spread_signal())).order.unwrap());
    s.on_order_ack(OrderAck {
        client_id,
        exchange_id: "".into(),
        status: OrderStatus::Cancelled,
    });
    assert!(s.is_position_open(), "position guard still holds");
    assert_eq!(s.position_state(), Some(TradeState::Closing));
}

#[test]
fn paper_mode_does_not_send_orders() {
    let mut s = Strategy::new(Engine::<20, 20>::new(), 0);
    s.set_order_sender(true);
    let out = s.on_tick_with_signal(Some(spread_signal()));
    assert!(out.order.is_none(), "paper mode must not send any OrderCmd");
}

#[test]
fn a_rejected_second_leg_closes() {
    let mut s = make_strategy_live();
    let id = place_id(&s.on_tick_with_signal_at(Some(spread_signal()), 1).order.unwrap());
    let ack = |client_id, status| OrderAck { client_id, exchange_id: String::new(), status };
    s.on_order_ack_at(ack(id, OrderStatus::Filled), 2);
    // partial fills, open orders and strangers change nothing
    s.on_order_ack_at(ack(id + 1, OrderStatus::PartiallyFilled), 3);
    s.on_order_ack_at(ack(id + 1, OrderStatus::Open), 3);
    s.on_order_ack_at(ack(id + 40, OrderStatus::Cancelled), 3);
    s.on_order_ack_at(ack(id, OrderStatus::Cancelled), 3);
    assert_eq!(s.position_state(), Some(TradeState::Leg2Sent));
    s.on_order_ack_at(ack(id + 1, OrderStatus::Rejected), 4);
    assert_eq!(s.position_state(), Some(TradeState::Closing));
    // no second position beside it
    assert!(s.on_tick_with_signal_at(Some(spread_signal()), 5).order.is_none());
    assert_eq!(s.position_state(), Some(TradeState::Closing));
}

#[test]
fn an_overdue_second_leg_closes() {
    let mut s = make_strategy_live();
    let id = place_id(&s.on_tick_with_signal_at(Some(spread_signal()), 10).order.unwrap());
    // nobody takes orders any more, so the second leg is not sent
    s.set_order_sender(false);
    let ack = OrderAck { client_id: id, exchange_id: String::new(), status: OrderStatus::Filled };
    assert!(s.on_order_ack_at(ack, 1_000).is_none());
    assert_eq!(s.position_state(), Some(TradeState::Leg1Filled));
    s.on_tick_with_signal_at(None, 1_000 + LEG2_TIMEOUT_US);
    assert_eq!(s.position_state(), Some(TradeState::Leg1Filled));
    s.on_tick_with_signal_at(None, 1_001 + LEG2_TIMEOUT_US);
    assert_eq!(s.position_state(), Some(TradeState::Closing));
}

#[test]
fn a_refused_entry_stays_out() {
    let mut strat = make_strategy(50000.0, 50001.0, 49999.0, 50020.0, 10.0);
    strat.on_tick_if_at(false, 1);
    assert!(!strat.is_position_open());
    strat.on_tick_if(false);
    assert!(!strat.is_position_open());
    strat.on_tick_if_at(true, 2);
    assert!(strat.is_position_open());
    // an open position is still closed
    strat.engine.perp_book.update_asks(&[level(49999.0)]);
    assert!(strat.on_tick_if_at(false, 3).closed.is_some());
    assert_eq!(strat.ticks(), 4);
}

#[test]
fn the_books_balance_over_many_ticks() {
    let mut strat = make_strategy(50000.0, 50001.0, 49999.0, 50020.0, 10.0);
    let mut profit = 0i64;
    let mut trades = 0u64;
    for i in 0..50u64 {
        let ask = if i % 3 == 0 { 50000.0 - i as f64 } else { 50020.0 + i as f64 };
        strat.engine.perp_book.update_asks(&[level(ask)]);
        if let Some(t) = strat.on_tick_at(i).closed {
            profit += t.trade_pnl_raw;
            trades += 1;
        }
        let s = strat.get_paper_stats();
        assert_eq!(s.wins + s.losses, s.total_trades);
        assert_eq!((s.pnl_raw, s.total_trades), (profit, trades));
        assert_eq!(strat.get_pnl(), profit);
    }
    assert!(trades > 10);
}
