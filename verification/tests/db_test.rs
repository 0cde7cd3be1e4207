use gate_arb::strategy::{ExitReason, PaperClose};
use gate_arb::types::Fixed64;
use gate_arb::db::{Db, RingBuffer, SpreadRecord, TradeRecord, RING_CAP};

#[test]
fn test_ring_buffer_full() {
    let mut ring: RingBuffer<u32> = RingBuffer::new();
    for i in 0..RING_CAP {
        assert!(ring.push(i as u32));
    }
    assert!(!ring.push(999));
}

#[test]
fn test_ring_basic() {
    let mut ring: RingBuffer<u32> = RingBuffer::new();
    assert!(ring.push(42u32));
    let mut found = false;
    for v in ring.drain() {
        found = true;
        assert_eq!(v, 42);
    }
    assert!(found, "drain should have found 42");
}

#[test]
fn items_come_out_in_order_across_the_wrap() {
    let mut ring: RingBuffer<u32> = RingBuffer::default();
    let mut next = 0u32;
    for round in 0..5u32 {
        let n = 1_500 + round;
        let first = next;
        for _ in 0..n {
            assert!(ring.push(next));
            next += 1;
        }
        let out = ring.drain();
        assert_eq!(out, (first..next).collect::<Vec<u32>>());
        assert!(ring.drain().is_empty());
    }
}

#[test]
fn a_drained_ring_has_room_again() {
    let mut ring: RingBuffer<u32> = RingBuffer::new();
    for i in 0..RING_CAP {
        ring.push(i as u32);
    }
    assert_eq!(ring.drain().len(), RING_CAP);
    assert!(ring.push(1));
}

#[test]
fn a_flush_hands_out_trades_and_spreads() {
    let trade = TradeRecord {
        symbol: "BTC_USDT",
        entry_ts: 1_700_000_000_000_000,
        exit_ts: 1_700_000_001_000_000,
        spot_entry: 50_000_000_000,
        perp_entry: 50_001_000_000,
        spot_exit: 50_010_000_000,
        perp_exit: 50_005_000_000,
        size_usd_raw: 1_000_000_000,
        pnl_usd_raw: 10_000_000,
        pnl_pct_raw: 100_000,
        exit_reason: "spread_closed",
    };
    let spread = SpreadRecord { ts: 5, spread_raw: 6, spread_pct_raw: 7, symbol: "BTC_USDT" };
    let mut db = Db::new();
    assert!(db.push_trade(trade));
    assert!(db.push_spread(spread));
    assert!(db.push_spread(SpreadRecord::default()));
    let batch = db.flush();
    assert_eq!(batch.trades, vec![trade]);
    assert_eq!(batch.spreads, vec![spread, SpreadRecord::default()]);
    let batch = db.flush();
    assert!(batch.trades.is_empty() && batch.spreads.is_empty());
}

#[test]
fn a_full_queue_drops_records() {
    let mut db = Db::default();
    for _ in 0..RING_CAP {
        assert!(db.push_trade(TradeRecord::default()));
    }
    assert!(!db.push_trade(TradeRecord::default()));
    assert!(db.push_spread(SpreadRecord::default()));
    assert_eq!(db.flush().trades.len(), RING_CAP);
}

#[test]
fn a_closed_trade_becomes_a_record() {
    let mut c = PaperClose {
        reason: ExitReason::ExitSpread,
        opened_at_us: 1_000,
        hold_time_us: 500,
        spot_entry: Fixed64::from_raw(5_000_000_000_000),
        perp_entry: Fixed64::from_raw(5_050_000_000_000),
        spot_exit: Fixed64::from_raw(5_000_000_000_001),
        perp_exit: Fixed64::from_raw(5_000_000_000_002),
        fee_raw: 3,
        trade_pnl_raw: -459_800_000,
    };
    let t = TradeRecord::of_close("BTC_USDT", &c).unwrap();
    assert_eq!((t.symbol, t.exit_reason), ("BTC_USDT", "exit_spread"));
    assert_eq!((t.entry_ts, t.exit_ts), (1_000, 1_500));
    assert_eq!((t.spot_entry, t.perp_entry), (5_000_000_000_000, 5_050_000_000_000));
    assert_eq!((t.spot_exit, t.perp_exit), (5_000_000_000_001, 5_000_000_000_002));
    // 0.01 BTC at 50000 USD is 500 USD; the loss is 0.9196% of that
    assert_eq!(t.size_usd_raw, 50_000_000_000);
    assert_eq!(t.pnl_usd_raw, -459_800_000);
    assert_eq!(t.pnl_pct_raw, -919_600);
    c.spot_entry = Fixed64::from_raw(99);
    assert_eq!(TradeRecord::of_close("", &c).unwrap().pnl_pct_raw, 0);
    c.perp_exit = Fixed64::from_raw(u64::MAX);
    assert!(TradeRecord::of_close("", &c).is_none());
}
