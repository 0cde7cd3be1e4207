//! Spot-perp strategy: entry and exit decisions, position state machine, paper profit and loss.
//!
//! The strategy decides and keeps the books. It sends nothing itself: a tick or an
//! acknowledgement hands back the order that is due, if there is one.

use vstd::prelude::*;

use crate::clock::unix_micros;
use crate::engine::{
    is_signal_of, signals, snapshot_of, Engine, SpreadDirection, SpreadSnapshot,
};
use crate::types::{
    highest, lowest, ArbitragePosition, Fixed64, Leg, LegKind, ObUpdateCmd, OrderAck, OrderCmd, OrderStatus, Side,
    SpreadSignal, TradeState, SCALE,
};

verus! {

/// The second leg must be under way this long after the first was filled.
pub const LEG2_TIMEOUT_US: u64 = 500_000;

/// A paper position is closed after four hours.
pub const MAX_HOLD_TIME_US: u64 = 14_400_000_000;

/// Maker fee in basis points per leg.
pub const MAKER_FEE_BPS: u64 = 2;

/// A summary is due every so many ticks.
pub const PAPER_SUMMARY_EVERY_N_TICKS: u64 = 100;

/// Quantity of each leg in raw units: 0.01 BTC.
pub const LEG_QTY: u64 = 1_000_000;

/// No single paper trade gains or loses more than this, in raw units.
pub const PNL_HEADROOM: i64 = 400_000_000_000_000_000;

/// Paper-mode statistics.
#[derive(Debug, Clone, Copy, PartialEq, Eq, Structural)]
pub struct PaperStats {
    pub total_trades: u64,
    pub wins: u64,
    pub losses: u64,
    pub pnl_raw: i64,
    pub last_signal_at_us: Option<u64>,
}

impl Default for PaperStats {
    fn default() -> (r: Self)
        ensures
            r == (PaperStats {
                total_trades: 0,
                wins: 0,
                losses: 0,
                pnl_raw: 0,
                last_signal_at_us: None,
            }),
    {
        PaperStats { total_trades: 0, wins: 0, losses: 0, pnl_raw: 0, last_signal_at_us: None }
    }
}

/// Why a paper position was closed.
#[derive(Debug, Clone, Copy, PartialEq, Eq, Structural)]
pub enum ExitReason {
    /// The spread turned negative.
    SpreadInverted,
    /// The spread narrowed to the exit spread.
    ExitSpread,
    /// The position was held for the longest time allowed.
    MaxHold,
}

impl ExitReason {
    /// The name of the reason.
    pub open spec fn word(self) -> Seq<char> {
        match self {
            ExitReason::SpreadInverted => "spread_inverted"@,
            ExitReason::ExitSpread => "exit_spread"@,
            ExitReason::MaxHold => "max_hold"@,
        }
    }

    /// The name of the reason.
    pub fn as_str(self) -> (r: &'static str)
        ensures
            r@ == self.word(),
    {
        match self {
            ExitReason::SpreadInverted => "spread_inverted",
            ExitReason::ExitSpread => "exit_spread",
            ExitReason::MaxHold => "max_hold",
        }
    }
}

/// A closed paper trade.
#[derive(Debug, Clone, Copy, PartialEq, Eq, Structural)]
pub struct PaperClose {
    pub reason: ExitReason,
    pub opened_at_us: u64,
    pub hold_time_us: u64,
    pub spot_entry: Fixed64,
    pub perp_entry: Fixed64,
    pub spot_exit: Fixed64,
    pub perp_exit: Fixed64,
    pub fee_raw: i64,
    pub trade_pnl_raw: i64,
}

/// What a tick asks of the caller.
#[derive(Debug, Clone)]
pub struct TickOutcome {
    /// Order to send, in live mode with orders connected.
    pub order: Option<OrderCmd>,
    /// Paper trade that this tick closed.
    pub closed: Option<PaperClose>,
    /// The periodic summary is due.
    pub summary_due: bool,
}

/// The market that an exit is judged by.
#[derive(Debug, Clone, Copy, PartialEq, Eq, Structural)]
pub struct ExitQuote {
    /// The quote is the tick's signal, not the books.
    pub from_signal: bool,
    pub spread_raw: u64,
    pub inverted: bool,
    pub spot: Fixed64,
    pub perp: Fixed64,
}

/// A position as plain values.
pub struct PositionModel {
    pub leg1: Leg,
    pub leg2: Leg,
    pub opened_at_us: u64,
    pub state: TradeState,
}

/// What a ledger holds, as plain values.
pub struct LedgerModel {
    pub position: Option<PositionModel>,
    pub cumulative_pnl: i64,
    pub stats: PaperStats,
    pub ticks: u64,
    pub orders_connected: bool,
    pub next_client_id: u64,
    pub leg1_client_id: u64,
}

/// Everything a strategy holds besides the order books.
pub struct StrategyModel {
    pub paper_mode: bool,
    pub threshold_spread_raw: u64,
    pub exit_spread_raw: u64,
    pub min_profit_raw: i64,
    pub position: Option<PositionModel>,
    pub cumulative_pnl: i64,
    pub stats: PaperStats,
    pub ticks: u64,
    pub orders_connected: bool,
    pub next_client_id: u64,
    pub leg1_client_id: u64,
}

/// The plain values of a position.
pub open spec fn position_model(p: ArbitragePosition) -> PositionModel {
    PositionModel {
        leg1: p.legs@[0],
        leg2: p.legs@[1],
        opened_at_us: p.opened_at_us,
        state: p.state,
    }
}

/// Division that rounds toward zero.
pub open spec fn trunc_div(a: int, b: int) -> int {
    if a >= 0 {
        a / b
    } else {
        -((-a) / b)
    }
}

/// Maker fee of a round trip on both legs, for given entry prices.
pub open spec fn round_trip_fee(spot_entry: int, perp_entry: int) -> int {
    (spot_entry + perp_entry) * LEG_QTY * (MAKER_FEE_BPS * 2) / 10_000 / SCALE as int
}

/// Profit of a paper trade in raw units: the long spot leg plus the short perp leg minus the fee.
pub open spec fn trade_pnl(
    spot_entry: int,
    perp_entry: int,
    spot_exit: int,
    perp_exit: int,
) -> int {
    trunc_div(
        (spot_exit - spot_entry) * LEG_QTY + (perp_entry - perp_exit) * LEG_QTY,
        SCALE as int,
    ) - round_trip_fee(spot_entry, perp_entry)
}

/// The market to judge an exit by: the signal if the tick has one, else the books.
pub open spec fn exit_quote(
    sig: Option<SpreadSignal>,
    snap: Option<SpreadSnapshot>,
) -> Option<ExitQuote> {
    match (sig, snap) {
        (Some(s), _) => Some(
            ExitQuote {
                from_signal: true,
                spread_raw: s.spread_raw,
                inverted: s.ask_price@ < s.bid_price@,
                spot: s.bid_price,
                perp: s.ask_price,
            },
        ),
        (None, Some(s)) => Some(
            ExitQuote {
                from_signal: false,
                spread_raw: s.spread_raw,
                inverted: s.inverted,
                spot: s.leg_a,
                perp: s.leg_b,
            },
        ),
        (None, None) => None,
    }
}

/// The exit prices: the quote's. The longest hold goes by the tick's signal alone, and without one
/// by the entry prices.
pub open spec fn exit_prices(
    p: PositionModel,
    quote: Option<ExitQuote>,
    reason: ExitReason,
) -> (Fixed64, Fixed64) {
    match quote {
        Some(q) if q.from_signal || reason != ExitReason::MaxHold => (q.spot, q.perp),
        _ => (p.leg1.price, p.leg2.price),
    }
}

/// The profit of a position that is closed at given prices.
pub open spec fn pnl_at(p: PositionModel, prices: (Fixed64, Fixed64)) -> int {
    trade_pnl(p.leg1.price@ as int, p.leg2.price@ as int, prices.0@ as int, prices.1@ as int)
}

/// The profit of a position that is closed for a given reason.
pub open spec fn close_pnl(
    p: PositionModel,
    quote: Option<ExitQuote>,
    reason: ExitReason,
) -> int {
    pnl_at(p, exit_prices(p, quote, reason))
}

/// Time since the position was opened, 0 if the clock went backwards.
pub open spec fn hold_time(p: PositionModel, now_us: u64) -> int {
    if now_us >= p.opened_at_us {
        now_us - p.opened_at_us
    } else {
        0
    }
}

/// Whether and why a paper position is to be closed. An inverted spread always closes it. A spread
/// at or below the exit spread closes it unless a minimum profit is set and not reached. The
/// longest hold closes it in any case.
pub open spec fn exit_reason(
    m: StrategyModel,
    p: PositionModel,
    quote: Option<ExitQuote>,
    now_us: u64,
) -> Option<ExitReason> {
    if p.state != TradeState::BothFilled {
        None
    } else if quote is Some && quote->0.inverted {
        Some(ExitReason::SpreadInverted)
    } else if quote is Some && quote->0.spread_raw <= m.exit_spread_raw && (m.min_profit_raw <= 0
        || close_pnl(p, quote, ExitReason::ExitSpread) >= m.min_profit_raw) {
        Some(ExitReason::ExitSpread)
    } else if hold_time(p, now_us) >= MAX_HOLD_TIME_US {
        Some(ExitReason::MaxHold)
    } else {
        None
    }
}

/// A leg of a position that is simulated as filled at once.
pub open spec fn paper_leg(kind: LegKind, price: Fixed64, now_us: u64) -> Leg {
    Leg {
        kind,
        price,
        qty: LEG_QTY,
        state: TradeState::BothFilled,
        sent_at_us: Some(now_us),
        filled_at_us: Some(now_us),
    }
}

/// The paper position that a signal opens.
pub open spec fn paper_position(sig: SpreadSignal, now_us: u64) -> PositionModel {
    PositionModel {
        leg1: paper_leg(LegKind::SpotBuy, sig.bid_price, now_us),
        leg2: paper_leg(LegKind::PerpShort, sig.ask_price, now_us),
        opened_at_us: now_us,
        state: TradeState::BothFilled,
    }
}

/// The live position that a signal opens: the spot leg is sent, the perp leg waits.
pub open spec fn live_position(sig: SpreadSignal, now_us: u64) -> PositionModel {
    PositionModel {
        leg1: Leg {
            kind: LegKind::SpotBuy,
            price: sig.bid_price,
            qty: LEG_QTY,
            state: TradeState::Leg1Sent,
            sent_at_us: Some(now_us),
            filled_at_us: None,
        },
        leg2: Leg {
            kind: LegKind::PerpShort,
            price: sig.ask_price,
            qty: LEG_QTY,
            state: TradeState::Idle,
            sent_at_us: None,
            filled_at_us: None,
        },
        opened_at_us: now_us,
        state: TradeState::Leg1Sent,
    }
}

/// The identifier behind `id`, on the circle of 64-bit numbers.
pub open spec fn id_after(id: u64, step: int) -> u64 {
    ((id + step) % 0x1_0000_0000_0000_0000) as u64
}

/// First step of a tick: a signal is noted, and opens a position if there is none.
pub open spec fn after_signal(
    m: StrategyModel,
    sig: Option<SpreadSignal>,
    now_us: u64,
) -> StrategyModel {
    match sig {
        None => m,
        Some(s) => {
            let noted = StrategyModel {
                stats: PaperStats { last_signal_at_us: Some(s.timestamp_us), ..m.stats },
                ..m
            };
            if m.position is Some {
                noted
            } else if m.paper_mode {
                StrategyModel { position: Some(paper_position(s, now_us)), ..noted }
            } else {
                StrategyModel {
                    position: Some(live_position(s, now_us)),
                    leg1_client_id: m.next_client_id,
                    next_client_id: id_after(m.next_client_id, 2),
                    ..noted
                }
            }
        },
    }
}

/// Paper mode, second step of a tick: the position is closed if there is a reason.
pub open spec fn after_paper_close(
    m: StrategyModel,
    quote: Option<ExitQuote>,
    now_us: u64,
) -> StrategyModel {
    match m.position {
        Some(p) if exit_reason(m, p, quote, now_us) is Some => {
            let pnl = close_pnl(p, quote, exit_reason(m, p, quote, now_us)->0);
            let total = (m.cumulative_pnl + pnl) as i64;
            StrategyModel {
                position: None,
                cumulative_pnl: total,
                stats: PaperStats {
                    total_trades: (m.stats.total_trades + 1) as u64,
                    wins: (m.stats.wins + if pnl >= 0 {
                        1int
                    } else {
                        0
                    }) as u64,
                    losses: (m.stats.losses + if pnl >= 0 {
                        0int
                    } else {
                        1
                    }) as u64,
                    pnl_raw: total,
                    ..m.stats
                },
                ..m
            }
        },
        _ => m,
    }
}

/// The paper trade that is closed at the quote, if any.
pub open spec fn paper_close_report(
    m: StrategyModel,
    quote: Option<ExitQuote>,
    now_us: u64,
) -> Option<PaperClose> {
    match m.position {
        Some(p) if exit_reason(m, p, quote, now_us) is Some => {
            let reason = exit_reason(m, p, quote, now_us)->0;
            Some(
                PaperClose {
                    reason,
                    opened_at_us: p.opened_at_us,
                    hold_time_us: hold_time(p, now_us) as u64,
                    spot_entry: p.leg1.price,
                    perp_entry: p.leg2.price,
                    spot_exit: exit_prices(p, quote, reason).0,
                    perp_exit: exit_prices(p, quote, reason).1,
                    fee_raw: round_trip_fee(p.leg1.price@ as int, p.leg2.price@ as int) as i64,
                    trade_pnl_raw: close_pnl(p, quote, reason) as i64,
                },
            )
        },
        _ => None,
    }
}

/// The second leg is overdue: the first was filled too long ago.
pub open spec fn leg2_overdue(p: PositionModel, now_us: u64) -> bool {
    &&& p.state == TradeState::Leg1Filled
    &&& p.leg1.filled_at_us is Some
    &&& now_us - p.leg1.filled_at_us->0 > LEG2_TIMEOUT_US
}

/// Live mode, second step of a tick: an overdue second leg makes the position close.
pub open spec fn after_timeouts(m: StrategyModel, now_us: u64) -> StrategyModel {
    match m.position {
        Some(p) if leg2_overdue(p, now_us) => StrategyModel {
            position: Some(PositionModel { state: TradeState::Closing, ..p }),
            ..m
        },
        _ => m,
    }
}

/// A whole tick.
pub open spec fn after_tick(
    m: StrategyModel,
    sig: Option<SpreadSignal>,
    snap: Option<SpreadSnapshot>,
    now_us: u64,
) -> StrategyModel {
    let opened = after_signal(m, sig, now_us);
    let settled = if m.paper_mode {
        after_paper_close(opened, exit_quote(sig, snap), now_us)
    } else {
        after_timeouts(opened, now_us)
    };
    StrategyModel { ticks: (m.ticks + 1) as u64, ..settled }
}

/// The paper trade that a tick closes, if any.
pub open spec fn closed_by_tick(
    m: StrategyModel,
    sig: Option<SpreadSignal>,
    snap: Option<SpreadSnapshot>,
    now_us: u64,
) -> Option<PaperClose> {
    if m.paper_mode {
        paper_close_report(after_signal(m, sig, now_us), exit_quote(sig, snap), now_us)
    } else {
        None
    }
}

/// A post-only order for one leg.
pub open spec fn is_leg_order(cmd: OrderCmd, id: u64, order_side: Side, order_price: Fixed64) -> bool {
    cmd matches OrderCmd::Place { client_id, symbol, side, price, qty, post_only } && client_id == id
        && symbol@ == "BTC_USDT"@ && side == order_side && price == order_price && qty == LEG_QTY
        && post_only
}

/// Orders go out: somebody takes them, and the mode is live.
pub open spec fn sends_orders(m: StrategyModel) -> bool {
    &&& m.orders_connected
    &&& !m.paper_mode
}

/// A tick opens a live position.
pub open spec fn opens_live(m: StrategyModel, sig: Option<SpreadSignal>) -> bool {
    &&& sig is Some
    &&& m.position is None
    &&& !m.paper_mode
}

/// The signal that a tick finds: there is one exactly when the spread exceeds the threshold.
pub open spec fn is_tick_signal(
    sig: Option<SpreadSignal>,
    snap: Option<SpreadSnapshot>,
    m: StrategyModel,
    now_us: u64,
) -> bool {
    &&& sig is Some <==> signals(snap, m.threshold_spread_raw)
    &&& sig matches Some(s) ==> is_signal_of(s, snap->0, now_us)
}

/// The state of the first leg's order was awaited, and this acknowledgement is about it.
pub open spec fn awaits_leg1(m: StrategyModel, client_id: u64) -> bool {
    &&& m.position is Some
    &&& m.position->0.state == TradeState::Leg1Sent
    &&& client_id == m.leg1_client_id
}

/// The state of the second leg's order was awaited, and this acknowledgement is about it.
pub open spec fn awaits_leg2(m: StrategyModel, client_id: u64) -> bool {
    &&& m.position is Some
    &&& m.position->0.state == TradeState::Leg2Sent
    &&& client_id == id_after(m.leg1_client_id, 1)
}

/// The order ended without a fill.
pub open spec fn is_dead(status: OrderStatus) -> bool {
    status == OrderStatus::Cancelled || status == OrderStatus::Rejected
}

/// The position after an acknowledgement. A filled first leg sends the second if orders go out; a filled second leg completes the position; an order that ended without a fill makes
/// the position close. Any other acknowledgement changes nothing.
pub open spec fn after_ack(
    m: StrategyModel,
    client_id: u64,
    status: OrderStatus,
    now_us: u64,
) -> StrategyModel {
    match m.position {
        None => m,
        Some(p) => {
            let next = if awaits_leg1(m, client_id) && status == OrderStatus::Filled {
                let filled = Leg {
                    state: TradeState::Leg1Filled,
                    filled_at_us: Some(now_us),
                    ..p.leg1
                };
                if sends_orders(m) {
                    PositionModel {
                        leg1: filled,
                        leg2: Leg {
                            state: TradeState::Leg2Sent,
                            sent_at_us: Some(now_us),
                            ..p.leg2
                        },
                        state: TradeState::Leg2Sent,
                        ..p
                    }
                } else {
                    PositionModel { leg1: filled, state: TradeState::Leg1Filled, ..p }
                }
            } else if awaits_leg2(m, client_id) && status == OrderStatus::Filled {
                PositionModel {
                    leg1: Leg { state: TradeState::BothFilled, ..p.leg1 },
                    leg2: Leg {
                        state: TradeState::BothFilled,
                        filled_at_us: Some(now_us),
                        ..p.leg2
                    },
                    state: TradeState::BothFilled,
                    ..p
                }
            } else if (awaits_leg1(m, client_id) || awaits_leg2(m, client_id)) && is_dead(status) {
                PositionModel { state: TradeState::Closing, ..p }
            } else {
                p
            };
            StrategyModel { position: Some(next), ..m }
        },
    }
}

/// An acknowledgement calls for the order of the second leg.
pub open spec fn sends_leg2(m: StrategyModel, client_id: u64, status: OrderStatus) -> bool {
    &&& awaits_leg1(m, client_id)
    &&& status == OrderStatus::Filled
    &&& sends_orders(m)
}

/// What holds of a strategy between calls.
pub open spec fn consistent(m: StrategyModel) -> bool {
    &&& m.stats.wins + m.stats.losses == m.stats.total_trades
    &&& m.stats.pnl_raw == m.cumulative_pnl
    &&& m.next_client_id % 2 == 0
    &&& m.leg1_client_id % 2 == 0
    &&& m.position matches Some(p) ==> {
        &&& p.leg1.kind == LegKind::SpotBuy
        &&& p.leg2.kind == LegKind::PerpShort
        &&& p.leg1.qty == LEG_QTY
        &&& p.leg2.qty == LEG_QTY
        &&& p.state != TradeState::Idle
        &&& p.state != TradeState::Closed
    }
}

/// A close at the quote does not run out of numbers: if there is one, the totals fit.
pub open spec fn close_fits(m: StrategyModel, quote: Option<ExitQuote>, now_us: u64) -> bool {
    m.position matches Some(p) ==> exit_reason(m, p, quote, now_us) is Some ==> {
        &&& m.stats.total_trades < u64::MAX
        &&& i64::MIN <= m.cumulative_pnl + close_pnl(
            p,
            quote,
            exit_reason(m, p, quote, now_us)->0,
        ) <= i64::MAX
    }
}

/// A tick does not run out of numbers.
pub open spec fn tick_fits(
    m: StrategyModel,
    sig: Option<SpreadSignal>,
    snap: Option<SpreadSnapshot>,
    now_us: u64,
) -> bool {
    &&& m.ticks < u64::MAX
    &&& m.paper_mode ==> close_fits(
        after_signal(m, sig, now_us),
        exit_quote(sig, snap),
        now_us,
    )
}

/// The signal that a tick acts on while new positions may be refused: none if one would be opened.
pub open spec fn admitted(
    sig: Option<SpreadSignal>,
    m: StrategyModel,
    may_open: bool,
) -> Option<SpreadSignal> {
    if may_open || m.position is Some {
        sig
    } else {
        None
    }
}

/// There is room for any one more tick, whatever the market.
pub open spec fn has_room(m: StrategyModel) -> bool {
    &&& m.ticks < u64::MAX
    &&& m.paper_mode ==> {
        &&& m.stats.total_trades < u64::MAX
        &&& -(i64::MAX - PNL_HEADROOM) <= m.cumulative_pnl <= i64::MAX - PNL_HEADROOM
    }
}

/// How far a position has come on its way from idle to closed.
pub open spec fn progress(s: TradeState) -> int {
    match s {
        TradeState::Idle => 0,
        TradeState::Leg1Sent => 1,
        TradeState::Leg1Filled => 2,
        TradeState::Leg2Sent => 3,
        TradeState::BothFilled => 4,
        TradeState::Closing => 5,
        TradeState::Closed => 6,
    }
}

/// What the amounts of a trade come to once the lot and the fee rate are put in.
proof fn amounts_of_a_trade(e1: int, e2: int, x1: int, x2: int)
    ensures
        (e1 + e2) * LEG_QTY * (MAKER_FEE_BPS * 2) == (e1 + e2) * 4_000_000,
        (x1 - e1) * LEG_QTY + (e2 - x2) * LEG_QTY == (x1 - e1) * 1_000_000 + (e2 - x2) * 1_000_000,
{
    assert((e1 + e2) * LEG_QTY * (MAKER_FEE_BPS * 2) == (e1 + e2) * 4_000_000) by (nonlinear_arith)
        requires
            LEG_QTY == 1_000_000,
            MAKER_FEE_BPS == 2,
    ;
    assert((x1 - e1) * LEG_QTY + (e2 - x2) * LEG_QTY == (x1 - e1) * 1_000_000 + (e2 - x2)
        * 1_000_000) by (nonlinear_arith)
        requires
            LEG_QTY == 1_000_000,
    ;
}

/// The profit of a trade stays within the headroom, and so does its fee.
proof fn pnl_is_bounded(spot_entry: u64, perp_entry: u64, spot_exit: u64, perp_exit: u64)
    ensures
        0 <= round_trip_fee(spot_entry as int, perp_entry as int) <= PNL_HEADROOM,
        -PNL_HEADROOM <= trade_pnl(
            spot_entry as int,
            perp_entry as int,
            spot_exit as int,
            perp_exit as int,
        ) <= PNL_HEADROOM,
{
    amounts_of_a_trade(
        spot_entry as int,
        perp_entry as int,
        spot_exit as int,
        perp_exit as int,
    );
    assert(SCALE as int == 100_000_000);
}

/// However a position is closed, its profit stays within the headroom.
proof fn close_is_bounded(p: PositionModel, quote: Option<ExitQuote>)
    ensures
        forall|reason: ExitReason|
            -PNL_HEADROOM <= #[trigger] close_pnl(p, quote, reason) <= PNL_HEADROOM,
{
    assert forall|reason: ExitReason|
        -PNL_HEADROOM <= #[trigger] close_pnl(p, quote, reason) <= PNL_HEADROOM by {
        let (spot, perp) = exit_prices(p, quote, reason);
        pnl_is_bounded(p.leg1.price@, p.leg2.price@, spot@, perp@);
    }
}

/// Profit of a paper trade and its fee.
fn compute_pnl(spot_entry: Fixed64, perp_entry: Fixed64, spot_exit: Fixed64, perp_exit: Fixed64) -> (r: (
    i64,
    i64,
))
    ensures
        r.0 == trade_pnl(
            spot_entry@ as int,
            perp_entry@ as int,
            spot_exit@ as int,
            perp_exit@ as int,
        ),
        r.1 == round_trip_fee(spot_entry@ as int, perp_entry@ as int),
        -PNL_HEADROOM <= r.0 <= PNL_HEADROOM,
{
    let e1: i128 = spot_entry.raw() as i128;
    let e2: i128 = perp_entry.raw() as i128;
    let x1: i128 = spot_exit.raw() as i128;
    let x2: i128 = perp_exit.raw() as i128;
    proof {
        pnl_is_bounded(spot_entry@, perp_entry@, spot_exit@, perp_exit@);
        amounts_of_a_trade(e1 as int, e2 as int, x1 as int, x2 as int);
    }
    let gross: i128 = (x1 - e1) * 1_000_000 + (e2 - x2) * 1_000_000;
    let fee: i128 = (e1 + e2) * 4_000_000 / 10_000 / (SCALE as i128);
    let pnl: i128 = gross / (SCALE as i128) - fee;
    (pnl as i64, fee as i64)
}

/// Position, profit and counters of a strategy.
pub struct Ledger {
    /// The open position, if any.
    position: Option<ArbitragePosition>,
    /// Cumulative profit in raw units.
    cumulative_pnl: i64,
    paper_stats: PaperStats,
    tick_counter: u64,
    /// Orders are taken by somebody.
    orders_connected: bool,
    /// Identifier of the next first leg, always even.
    next_client_id: u64,
    /// Identifier of the first leg of the latest live position.
    leg1_client_id: u64,
}

impl View for Ledger {
    type V = LedgerModel;

    closed spec fn view(&self) -> LedgerModel {
        LedgerModel {
            position: match self.position {
                Some(p) => Some(position_model(p)),
                None => None,
            },
            cumulative_pnl: self.cumulative_pnl,
            stats: self.paper_stats,
            ticks: self.tick_counter,
            orders_connected: self.orders_connected,
            next_client_id: self.next_client_id,
            leg1_client_id: self.leg1_client_id,
        }
    }
}

/// Spread detection, entry and exit, live orders.
pub struct Strategy {
    pub engine: Engine<20, 20>,
    /// Positions are simulated and no order is ever sent.
    pub paper_mode: bool,
    /// A signal needs a spread above this, in raw units.
    pub threshold_spread_raw: u64,
    /// A paper position is closed when the spread is at or below this, in raw units.
    pub exit_spread_raw: u64,
    /// Least profit for such a close, in raw units. Zero or less sets no minimum.
    pub min_profit_raw: i64,
    pub ledger: Ledger,
}

impl View for Strategy {
    type V = StrategyModel;

    open spec fn view(&self) -> StrategyModel {
        StrategyModel {
            paper_mode: self.paper_mode,
            threshold_spread_raw: self.threshold_spread_raw,
            exit_spread_raw: self.exit_spread_raw,
            min_profit_raw: self.min_profit_raw,
            position: self.ledger@.position,
            cumulative_pnl: self.ledger@.cumulative_pnl,
            stats: self.ledger@.stats,
            ticks: self.ledger@.ticks,
            orders_connected: self.ledger@.orders_connected,
            next_client_id: self.ledger@.next_client_id,
            leg1_client_id: self.ledger@.leg1_client_id,
        }
    }
}

impl Strategy {
    /// The order books and the ledger are well formed.
    pub open spec fn wf(self) -> bool {
        &&& self.engine.wf()
        &&& consistent(self@)
    }

    /// A strategy in paper mode with no position.
    pub fn new(engine: Engine<20, 20>, threshold_spread_raw: u64) -> (r: Self)
        requires
            engine.wf(),
        ensures
            r.wf(),
            r.engine == engine,
            r@ == (StrategyModel {
                paper_mode: true,
                threshold_spread_raw,
                exit_spread_raw: 0,
                min_profit_raw: 0,
                position: None,
                cumulative_pnl: 0,
                stats: PaperStats {
                    total_trades: 0,
                    wins: 0,
                    losses: 0,
                    pnl_raw: 0,
                    last_signal_at_us: None,
                },
                ticks: 0,
                orders_connected: false,
                next_client_id: 0,
                leg1_client_id: 0,
            }),
    {
        Self {
            engine,
            paper_mode: true,
            threshold_spread_raw,
            exit_spread_raw: 0,
            min_profit_raw: 0,
            ledger: Ledger {
                position: None,
                cumulative_pnl: 0,
                paper_stats: PaperStats::default(),
                tick_counter: 0,
                orders_connected: false,
                next_client_id: 0,
                leg1_client_id: 0,
            },
        }
    }

    /// Says whether somebody takes the orders that ticks and acknowledgements hand back.
    pub fn set_order_sender(&mut self, connected: bool)
        requires
            old(self).wf(),
        ensures
            final(self).wf(),
            final(self).engine == old(self).engine,
            final(self)@ == (StrategyModel { orders_connected: connected, ..old(self)@ }),
    {
        self.ledger.orders_connected = connected;
    }

    /// Notes a signal and opens a position if there is none; hands back the order for the first
    /// leg.
    fn take_signal(&mut self, sig: Option<SpreadSignal>, now_us: u64) -> (r: Option<OrderCmd>)
        requires
            old(self).wf(),
        ensures
            final(self).wf(),
            final(self).engine == old(self).engine,
            final(self)@ == after_signal(old(self)@, sig, now_us),
            r is Some <==> opens_live(old(self)@, sig) && sends_orders(old(self)@),
            r matches Some(cmd) ==> is_leg_order(
                cmd,
                old(self)@.next_client_id,
                Side::Bid,
                sig->0.bid_price,
            ),
    {
        let s = match sig {
            Some(s) => s,
            None => return None,
        };
        self.ledger.paper_stats.last_signal_at_us = Some(s.timestamp_us);
        if self.ledger.position.is_some() {
            return None;
        }
        if self.paper_mode {
            let leg1 = Leg {
                kind: LegKind::SpotBuy,
                price: s.bid_price,
                qty: LEG_QTY,
                state: TradeState::BothFilled,
                sent_at_us: Some(now_us),
                filled_at_us: Some(now_us),
            };
            let leg2 = Leg {
                kind: LegKind::PerpShort,
                price: s.ask_price,
                qty: LEG_QTY,
                state: TradeState::BothFilled,
                sent_at_us: Some(now_us),
                filled_at_us: Some(now_us),
            };
            let mut pos = ArbitragePosition::new(leg1, leg2, now_us);
            pos.state = TradeState::BothFilled;
            self.ledger.position = Some(pos);
            return None;
        }
        let leg1 = Leg {
            kind: LegKind::SpotBuy,
            price: s.bid_price,
            qty: LEG_QTY,
            state: TradeState::Leg1Sent,
            sent_at_us: Some(now_us),
            filled_at_us: None,
        };
        let leg2 = Leg {
            kind: LegKind::PerpShort,
            price: s.ask_price,
            qty: LEG_QTY,
            state: TradeState::Idle,
            sent_at_us: None,
            filled_at_us: None,
        };
        let client_id: u64 = self.ledger.next_client_id;
        self.ledger.position = Some(ArbitragePosition::new(leg1, leg2, now_us));
        self.ledger.leg1_client_id = client_id;
        self.ledger.next_client_id = client_id.wrapping_add(2);
        if self.ledger.orders_connected {
            Some(
                OrderCmd::Place {
                    client_id,
                    symbol: "BTC_USDT",
                    side: Side::Bid,
                    price: s.bid_price,
                    qty: LEG_QTY,
                    post_only: true,
                },
            )
        } else {
            None
        }
    }

    /// The market to judge an exit by.
    fn exit_market(&self, sig: Option<SpreadSignal>) -> (r: Option<ExitQuote>)
        requires
            self.wf(),
        ensures
            r == exit_quote(sig, self.engine.normal()),
    {
        match sig {
            Some(s) => Some(
                ExitQuote {
                    from_signal: true,
                    spread_raw: s.spread_raw,
                    inverted: s.ask_price.raw() < s.bid_price.raw(),
                    spot: s.bid_price,
                    perp: s.ask_price,
                },
            ),
            None => match self.engine.current_spread() {
                Some(s) => Some(
                    ExitQuote {
                        from_signal: false,
                        spread_raw: s.spread_raw,
                        inverted: s.inverted,
                        spot: s.leg_a,
                        perp: s.leg_b,
                    },
                ),
                None => None,
            },
        }
    }

    /// Closes the paper position if there is a reason, and books its profit.
    fn paper_close_if_needed(&mut self, quote: Option<ExitQuote>, now_us: u64) -> (r: Option<
        PaperClose,
    >)
        requires
            old(self).wf(),
            close_fits(old(self)@, quote, now_us),
        ensures
            final(self).wf(),
            final(self).engine == old(self).engine,
            final(self)@ == after_paper_close(old(self)@, quote, now_us),
            r == paper_close_report(old(self)@, quote, now_us),
    {
        let (opened_at_us, state, spot_entry, perp_entry) = match &self.ledger.position {
            Some(p) => (p.opened_at_us, p.state, p.legs[0].price, p.legs[1].price),
            None => return None,
        };
        if state != TradeState::BothFilled {
            return None;
        }
        let hold_time_us: u64 = now_us.saturating_sub(opened_at_us);
        let max_hold = hold_time_us >= MAX_HOLD_TIME_US;
        let reason = match quote {
            Some(q) if q.inverted => ExitReason::SpreadInverted,
            Some(q) if q.spread_raw <= self.exit_spread_raw && (self.min_profit_raw <= 0
                || compute_pnl(spot_entry, perp_entry, q.spot, q.perp).0 >= self.min_profit_raw) =>
                ExitReason::ExitSpread,
            _ if max_hold => ExitReason::MaxHold,
            _ => return None,
        };
        let (spot_exit, perp_exit) = match quote {
            Some(q) if q.from_signal || reason != ExitReason::MaxHold => (q.spot, q.perp),
            _ => (spot_entry, perp_entry),
        };
        let (trade_pnl_raw, fee_raw) = compute_pnl(spot_entry, perp_entry, spot_exit, perp_exit);
        self.ledger.cumulative_pnl = self.ledger.cumulative_pnl + trade_pnl_raw;
        self.ledger.paper_stats.total_trades = self.ledger.paper_stats.total_trades + 1;
        if trade_pnl_raw >= 0 {
            self.ledger.paper_stats.wins = self.ledger.paper_stats.wins + 1;
        } else {
            self.ledger.paper_stats.losses = self.ledger.paper_stats.losses + 1;
        }
        self.ledger.paper_stats.pnl_raw = self.ledger.cumulative_pnl;
        self.ledger.position = None;
        Some(
            PaperClose {
                reason,
                opened_at_us,
                hold_time_us,
                spot_entry,
                perp_entry,
                spot_exit,
                perp_exit,
                fee_raw,
                trade_pnl_raw,
            },
        )
    }

    /// A second leg that is overdue makes the position close.
    fn check_timeouts(&mut self, now_us: u64)
        requires
            old(self).wf(),
        ensures
            final(self).wf(),
            final(self).engine == old(self).engine,
            final(self)@ == after_timeouts(old(self)@, now_us),
    {
        let overdue = match &self.ledger.position {
            Some(p) if p.state == TradeState::Leg1Filled => match p.legs[0].filled_at_us {
                Some(filled) => now_us.saturating_sub(filled) > LEG2_TIMEOUT_US,
                None => false,
            },
            _ => false,
        };
        if overdue {
            if let Some(mut p) = self.ledger.position.take() {
                p.state = TradeState::Closing;
                self.ledger.position = Some(p);
            }
        }
    }

    /// One tick at a given time, with the signal of that tick if there is one.
    pub fn on_tick_with_signal_at(&mut self, sig: Option<SpreadSignal>, now_us: u64) -> (r:
        TickOutcome)
        requires
            old(self).wf(),
            has_room(old(self)@) || tick_fits(
                old(self)@,
                sig,
                old(self).engine.normal(),
                now_us,
            ),
        ensures
            final(self).wf(),
            final(self).engine == old(self).engine,
            final(self)@ == after_tick(old(self)@, sig, old(self).engine.normal(), now_us),
            r.closed == closed_by_tick(old(self)@, sig, old(self).engine.normal(), now_us),
            r.order is Some <==> opens_live(old(self)@, sig) && sends_orders(old(self)@),
            r.order matches Some(cmd) ==> is_leg_order(
                cmd,
                old(self)@.next_client_id,
                Side::Bid,
                sig->0.bid_price,
            ),
            r.summary_due <==> final(self)@.ticks % PAPER_SUMMARY_EVERY_N_TICKS == 0,
    {
        proof {
            if has_room(self@) {
                headroom_suffices(self@, sig, self.engine.normal(), now_us);
            }
        }
        let order = self.take_signal(sig, now_us);
        let mut closed: Option<PaperClose> = None;
        if self.paper_mode {
            let quote = self.exit_market(sig);
            closed = self.paper_close_if_needed(quote, now_us);
        } else {
            self.check_timeouts(now_us);
        }
        self.ledger.tick_counter = self.ledger.tick_counter + 1;
        let summary_due = self.ledger.tick_counter % PAPER_SUMMARY_EVERY_N_TICKS == 0;
        TickOutcome { order, closed, summary_due }
    }

    /// One tick now, with the signal of this tick if there is one.
    pub fn on_tick_with_signal(&mut self, sig: Option<SpreadSignal>) -> (r: TickOutcome)
        requires
            old(self).wf(),
            has_room(old(self)@) || forall|now_us: u64| #[trigger]
                tick_fits(old(self)@, sig, old(self).engine.normal(), now_us),
        ensures
            final(self).wf(),
            final(self).engine == old(self).engine,
            exists|now_us: u64|
                {
                    &&& final(self)@ == #[trigger] after_tick(
                        old(self)@,
                        sig,
                        old(self).engine.normal(),
                        now_us,
                    )
                    &&& r.closed == closed_by_tick(
                        old(self)@,
                        sig,
                        old(self).engine.normal(),
                        now_us,
                    )
                },
            r.order is Some <==> opens_live(old(self)@, sig) && sends_orders(old(self)@),
            r.order matches Some(cmd) ==> is_leg_order(
                cmd,
                old(self)@.next_client_id,
                Side::Bid,
                sig->0.bid_price,
            ),
            r.summary_due <==> final(self)@.ticks % PAPER_SUMMARY_EVERY_N_TICKS == 0,
    {
        self.on_tick_with_signal_at(sig, unix_micros())
    }

    /// One tick at a given time: checks the spread and acts on the signal.
    pub fn on_tick_at(&mut self, now_us: u64) -> (r: TickOutcome)
        requires
            old(self).wf(),
            has_room(old(self)@) || forall|sig: Option<SpreadSignal>|
                is_tick_signal(sig, old(self).engine.normal(), old(self)@, now_us)
                    ==> #[trigger] tick_fits(old(self)@, sig, old(self).engine.normal(), now_us),
        ensures
            final(self).wf(),
            final(self).engine == old(self).engine,
            exists|sig: Option<SpreadSignal>|
                {
                    &&& is_tick_signal(sig, old(self).engine.normal(), old(self)@, now_us)
                    &&& final(self)@ == #[trigger] after_tick(
                        old(self)@,
                        sig,
                        old(self).engine.normal(),
                        now_us,
                    )
                    &&& r.closed == closed_by_tick(
                        old(self)@,
                        sig,
                        old(self).engine.normal(),
                        now_us,
                    )
                    &&& r.order is Some <==> opens_live(old(self)@, sig)
                        && sends_orders(old(self)@)
                },
            r.order matches Some(cmd) ==> is_leg_order(
                cmd,
                old(self)@.next_client_id,
                Side::Bid,
                old(self).engine.normal()->0.leg_a,
            ),
            r.summary_due <==> final(self)@.ticks % PAPER_SUMMARY_EVERY_N_TICKS == 0,
    {
        let sig = self.engine.check_spread_at(self.threshold_spread_raw, now_us);
        self.on_tick_with_signal_at(sig, now_us)
    }

    /// One tick now: checks the spread and acts on the signal.
    pub fn on_tick(&mut self) -> (r: TickOutcome)
        requires
            old(self).wf(),
            has_room(old(self)@) || forall|sig: Option<SpreadSignal>, now_us: u64|
                is_tick_signal(sig, old(self).engine.normal(), old(self)@, now_us)
                    ==> #[trigger] tick_fits(old(self)@, sig, old(self).engine.normal(), now_us),
        ensures
            final(self).wf(),
            final(self).engine == old(self).engine,
            exists|sig: Option<SpreadSignal>, now_us: u64|
                {
                    &&& is_tick_signal(sig, old(self).engine.normal(), old(self)@, now_us)
                    &&& final(self)@ == #[trigger] after_tick(
                        old(self)@,
                        sig,
                        old(self).engine.normal(),
                        now_us,
                    )
                    &&& r.closed == closed_by_tick(
                        old(self)@,
                        sig,
                        old(self).engine.normal(),
                        now_us,
                    )
                    &&& r.order is Some <==> opens_live(old(self)@, sig)
                        && sends_orders(old(self)@)
                },
            r.order matches Some(cmd) ==> is_leg_order(
                cmd,
                old(self)@.next_client_id,
                Side::Bid,
                old(self).engine.normal()->0.leg_a,
            ),
            r.summary_due <==> final(self)@.ticks % PAPER_SUMMARY_EVERY_N_TICKS == 0,
    {
        self.on_tick_at(unix_micros())
    }

    /// One tick at a given time during which a new position may be refused: unless `may_open`, no
    /// position is opened, and an open one is treated as ever.
    pub fn on_tick_if_at(&mut self, may_open: bool, now_us: u64) -> (r: TickOutcome)
        requires
            old(self).wf(),
            has_room(old(self)@) || forall|sig: Option<SpreadSignal>|
                is_tick_signal(sig, old(self).engine.normal(), old(self)@, now_us)
                    ==> tick_fits(
                    old(self)@,
                    #[trigger] admitted(sig, old(self)@, may_open),
                    old(self).engine.normal(),
                    now_us,
                ),
        ensures
            final(self).wf(),
            final(self).engine == old(self).engine,
            exists|sig: Option<SpreadSignal>|
                {
                    let acted = #[trigger] admitted(sig, old(self)@, may_open);
                    let snap = old(self).engine.normal();
                    &&& is_tick_signal(sig, snap, old(self)@, now_us)
                    &&& final(self)@ == after_tick(old(self)@, acted, snap, now_us)
                    &&& r.closed == closed_by_tick(old(self)@, acted, snap, now_us)
                    &&& r.order is Some <==> opens_live(old(self)@, acted)
                        && sends_orders(old(self)@)
                },
            r.order matches Some(cmd) ==> is_leg_order(
                cmd,
                old(self)@.next_client_id,
                Side::Bid,
                old(self).engine.normal()->0.leg_a,
            ),
            r.summary_due <==> final(self)@.ticks % PAPER_SUMMARY_EVERY_N_TICKS == 0,
    {
        let sig = self.engine.check_spread_at(self.threshold_spread_raw, now_us);
        let ghost acted = admitted(sig, self@, may_open);
        if may_open || self.ledger.position.is_some() {
            self.on_tick_with_signal_at(sig, now_us)
        } else {
            self.on_tick_with_signal_at(None, now_us)
        }
    }

    /// One tick now during which a new position may be refused.
    pub fn on_tick_if(&mut self, may_open: bool) -> (r: TickOutcome)
        requires
            old(self).wf(),
            has_room(old(self)@) || forall|sig: Option<SpreadSignal>, now_us: u64|
                is_tick_signal(sig, old(self).engine.normal(), old(self)@, now_us)
                    ==> #[trigger] tick_fits(
                    old(self)@,
                    admitted(sig, old(self)@, may_open),
                    old(self).engine.normal(),
                    now_us,
                ),
        ensures
            final(self).wf(),
            final(self).engine == old(self).engine,
            exists|sig: Option<SpreadSignal>, now_us: u64|
                #![trigger is_tick_signal(sig, old(self).engine.normal(), old(self)@, now_us)]
                {
                    let acted = admitted(sig, old(self)@, may_open);
                    let snap = old(self).engine.normal();
                    &&& is_tick_signal(sig, snap, old(self)@, now_us)
                    &&& final(self)@ == after_tick(old(self)@, acted, snap, now_us)
                    &&& r.closed == closed_by_tick(old(self)@, acted, snap, now_us)
                    &&& r.order is Some <==> opens_live(old(self)@, acted)
                        && sends_orders(old(self)@)
                },
            r.order matches Some(cmd) ==> is_leg_order(
                cmd,
                old(self)@.next_client_id,
                Side::Bid,
                old(self).engine.normal()->0.leg_a,
            ),
            r.summary_due <==> final(self)@.ticks % PAPER_SUMMARY_EVERY_N_TICKS == 0,
    {
        self.on_tick_if_at(may_open, unix_micros())
    }

    /// Takes an acknowledgement at a given time; hands back the order for the second leg once the
    /// first is filled.
    pub fn on_order_ack_at(&mut self, ack: OrderAck, now_us: u64) -> (r: Option<OrderCmd>)
        requires
            old(self).wf(),
        ensures
            final(self).wf(),
            final(self).engine == old(self).engine,
            final(self)@ == after_ack(old(self)@, ack.client_id, ack.status, now_us),
            r is Some <==> sends_leg2(old(self)@, ack.client_id, ack.status),
            r matches Some(cmd) ==> is_leg_order(
                cmd,
                id_after(ack.client_id, 1),
                Side::Ask,
                old(self)@.position->0.leg2.price,
            ),
    {
        let leg1_id: u64 = self.ledger.leg1_client_id;
        let leg2_id: u64 = leg1_id.wrapping_add(1);
        let live = self.ledger.orders_connected && !self.paper_mode;
        let mut p = match self.ledger.position.take() {
            Some(p) => p,
            None => return None,
        };
        let for_leg1 = p.state == TradeState::Leg1Sent && ack.client_id == leg1_id;
        let for_leg2 = p.state == TradeState::Leg2Sent && ack.client_id == leg2_id;
        let mut leg1 = p.legs[0];
        let mut leg2 = p.legs[1];
        let mut order: Option<OrderCmd> = None;
        if for_leg1 && ack.status == OrderStatus::Filled {
            leg1.state = TradeState::Leg1Filled;
            leg1.filled_at_us = Some(now_us);
            p.state = TradeState::Leg1Filled;
            if live {
                leg2.state = TradeState::Leg2Sent;
                leg2.sent_at_us = Some(now_us);
                p.state = TradeState::Leg2Sent;
                order = Some(
                    OrderCmd::Place {
                        client_id: leg2_id,
                        symbol: "BTC_USDT",
                        side: Side::Ask,
                        price: leg2.price,
                        qty: LEG_QTY,
                        post_only: true,
                    },
                );
            }
        } else if for_leg2 && ack.status == OrderStatus::Filled {
            leg1.state = TradeState::BothFilled;
            leg2.state = TradeState::BothFilled;
            leg2.filled_at_us = Some(now_us);
            p.state = TradeState::BothFilled;
        } else if (for_leg1 || for_leg2) && (ack.status == OrderStatus::Cancelled || ack.status
            == OrderStatus::Rejected) {
            p.state = TradeState::Closing;
        }
        p.legs = [leg1, leg2];
        self.ledger.position = Some(p);
        order
    }

    /// Takes an acknowledgement now.
    pub fn on_order_ack(&mut self, ack: OrderAck) -> (r: Option<OrderCmd>)
        requires
            old(self).wf(),
        ensures
            final(self).wf(),
            final(self).engine == old(self).engine,
            exists|now_us: u64|
                final(self)@ == #[trigger] after_ack(
                    old(self)@,
                    ack.client_id,
                    ack.status,
                    now_us,
                ),
            r is Some <==> sends_leg2(old(self)@, ack.client_id, ack.status),
            r matches Some(cmd) ==> is_leg_order(
                cmd,
                id_after(ack.client_id, 1),
                Side::Ask,
                old(self)@.position->0.leg2.price,
            ),
    {
        self.on_order_ack_at(ack, unix_micros())
    }

    /// There is room for any one more tick: it fits whatever the market and the time.
    pub fn has_headroom(&self) -> (r: bool)
        ensures
            r <==> has_room(self@),
            r ==> forall|sig: Option<SpreadSignal>, snap: Option<SpreadSnapshot>, now_us: u64|
                #[trigger] tick_fits(self@, sig, snap, now_us),
    {
        proof {
            if has_room(self@) {
                assert forall|sig: Option<SpreadSignal>, snap: Option<SpreadSnapshot>, now_us: u64|
                    #[trigger] tick_fits(self@, sig, snap, now_us) by {
                    headroom_suffices(self@, sig, snap, now_us);
                }
            }
        }
        let limit: i64 = i64::MAX - PNL_HEADROOM;
        self.ledger.tick_counter < u64::MAX && (!self.paper_mode
            || self.ledger.paper_stats.total_trades < u64::MAX && -limit
            <= self.ledger.cumulative_pnl && self.ledger.cumulative_pnl <= limit)
    }

    /// Cumulative profit in raw units.
    pub fn get_pnl(&self) -> (r: i64)
        ensures
            r == self@.cumulative_pnl,
    {
        self.ledger.cumulative_pnl
    }

    /// Paper-mode statistics.
    pub fn get_paper_stats(&self) -> (r: PaperStats)
        ensures
            r == self@.stats,
    {
        self.ledger.paper_stats
    }

    /// Number of ticks so far.
    pub fn ticks(&self) -> (r: u64)
        ensures
            r == self@.ticks,
    {
        self.ledger.tick_counter
    }

    /// A position is open.
    pub fn is_position_open(&self) -> (r: bool)
        ensures
            r <==> self@.position is Some,
    {
        self.ledger.position.is_some()
    }

    /// State of the open position.
    pub fn position_state(&self) -> (r: Option<TradeState>)
        ensures
            r == match self@.position {
                Some(p) => Some(p.state),
                None => None,
            },
    {
        match &self.ledger.position {
            Some(p) => Some(p.state),
            None => None,
        }
    }
}

/// With room for any tick, each tick fits.
pub proof fn headroom_suffices(
    m: StrategyModel,
    sig: Option<SpreadSignal>,
    snap: Option<SpreadSnapshot>,
    now_us: u64,
)
    requires
        has_room(m),
    ensures
        tick_fits(m, sig, snap, now_us),
{
    let opened = after_signal(m, sig, now_us);
    let quote = exit_quote(sig, snap);
    if m.paper_mode && opened.position is Some {
        close_is_bounded(opened.position->0, quote);
    }
}

/// A position only ever moves forward along idle, leg 1 sent, leg 1 filled, leg 2 sent, both
/// filled, closing, closed. A tick keeps its legs' kinds, prices and quantities and opens no second
/// position beside it; it may close it.
pub proof fn ticks_move_forward(
    m: StrategyModel,
    sig: Option<SpreadSignal>,
    snap: Option<SpreadSnapshot>,
    now_us: u64,
)
    requires
        m.position is Some,
    ensures
        !opens_live(m, sig),
        after_tick(m, sig, snap, now_us).position matches Some(q) ==> {
            let p = m.position->0;
            &&& progress(p.state) <= progress(q.state)
            &&& q.leg1 == p.leg1
            &&& q.leg2 == p.leg2
            &&& q.opened_at_us == p.opened_at_us
        },
        after_tick(m, sig, snap, now_us).position is None ==> m.paper_mode && m.position->0.state
            == TradeState::BothFilled,
{
}

/// An acknowledgement moves a position forward, never closes it outright, and leaves a strategy
/// without a position alone.
pub proof fn acks_move_forward(m: StrategyModel, client_id: u64, status: OrderStatus, now_us: u64)
    ensures
        m.position is None ==> after_ack(m, client_id, status, now_us) == m,
        m.position matches Some(p) ==> {
            let q = after_ack(m, client_id, status, now_us).position->0;
            &&& after_ack(m, client_id, status, now_us).position is Some
            &&& progress(p.state) <= progress(q.state)
            &&& q.leg1.kind == p.leg1.kind && q.leg1.price == p.leg1.price && q.leg1.qty
                == p.leg1.qty
            &&& q.leg2.kind == p.leg2.kind && q.leg2.price == p.leg2.price && q.leg2.qty
                == p.leg2.qty
            &&& q.opened_at_us == p.opened_at_us
        },
{
}

/// In paper mode neither a tick nor an acknowledgement hands back an order, whether or not
/// somebody takes orders.
pub proof fn paper_mode_sends_nothing(
    m: StrategyModel,
    sig: Option<SpreadSignal>,
    client_id: u64,
    status: OrderStatus,
)
    requires
        m.paper_mode,
    ensures
        !(opens_live(m, sig) && sends_orders(m)),
        !sends_leg2(m, client_id, status),
{
}

/// Without a position, a spread above the threshold opens one, long spot at the bid and short perp
/// at the ask, as long as positions are not left above the threshold; without a signal none is
/// opened.
pub proof fn wide_spread_opens(
    m: StrategyModel,
    sig: Option<SpreadSignal>,
    spot: Option<Fixed64>,
    perp: Option<Fixed64>,
    now_us: u64,
)
    requires
        m.position is None,
        m.exit_spread_raw <= m.threshold_spread_raw,
        is_tick_signal(sig, snapshot_of(SpreadDirection::Normal, spot, perp), m, now_us),
    ensures
        ({
            let snap = snapshot_of(SpreadDirection::Normal, spot, perp);
            let next = after_tick(m, sig, snap, now_us).position;
            &&& next is Some <==> signals(snap, m.threshold_spread_raw)
            &&& next matches Some(p) ==> {
                &&& p.leg1.kind == LegKind::SpotBuy && Some(p.leg1.price) == spot
                &&& p.leg2.kind == LegKind::PerpShort && Some(p.leg2.price) == perp
                &&& p.state == if m.paper_mode {
                    TradeState::BothFilled
                } else {
                    TradeState::Leg1Sent
                }
            }
        }),
{
}

/// A paper position is closed as soon as the spread is zero or negative, unless a minimum profit
/// is set; a negative spread closes it even then.
pub proof fn converged_spread_closes(
    m: StrategyModel,
    sig: Option<SpreadSignal>,
    snap: Option<SpreadSnapshot>,
    now_us: u64,
)
    requires
        m.paper_mode,
        m.position matches Some(p) && p.state == TradeState::BothFilled,
        exit_quote(sig, snap) matches Some(q) && (q.inverted || q.spread_raw == 0
            && m.min_profit_raw <= 0),
    ensures
        after_tick(m, sig, snap, now_us).position is None,
{
}

/// A first leg that was filled more than `LEG2_TIMEOUT_US` ago, while the second leg is not under
/// way, makes a live position close on the next tick.
pub proof fn overdue_second_leg_closes(
    m: StrategyModel,
    sig: Option<SpreadSignal>,
    snap: Option<SpreadSnapshot>,
    now_us: u64,
)
    requires
        !m.paper_mode,
        m.position is Some,
        m.position->0.state == TradeState::Leg1Filled,
        m.position->0.leg1.filled_at_us is Some,
        now_us - m.position->0.leg1.filled_at_us->0 > LEG2_TIMEOUT_US,
    ensures
        after_tick(m, sig, snap, now_us).position matches Some(q) && q.state == TradeState::Closing,
{
}

/// A live signal followed by the fills of both orders leads to a position with both legs filled,
/// at the prices of the signal. The second order's identifier is odd and follows the first, which
/// is even.
pub proof fn live_fills_complete_the_position(
    m: StrategyModel,
    sig: SpreadSignal,
    snap: Option<SpreadSnapshot>,
    t0: u64,
    t1: u64,
    t2: u64,
)
    requires
        consistent(m),
        m.position is None,
        sends_orders(m),
    ensures
        ({
            let leg1_id = m.next_client_id;
            let leg2_id = id_after(leg1_id, 1);
            let sent = after_tick(m, Some(sig), snap, t0);
            let half = after_ack(sent, leg1_id, OrderStatus::Filled, t1);
            let full = after_ack(half, leg2_id, OrderStatus::Filled, t2);
            &&& leg1_id % 2 == 0
            &&& leg2_id % 2 == 1
            &&& opens_live(m, Some(sig))
            &&& sends_leg2(sent, leg1_id, OrderStatus::Filled)
            &&& half.position->0.state == TradeState::Leg2Sent
            &&& full.position is Some
            &&& full.position->0.state == TradeState::BothFilled
            &&& full.position->0.leg1.price == sig.bid_price
            &&& full.position->0.leg2.price == sig.ask_price
            &&& full.position->0.leg1.filled_at_us == Some(t1)
            &&& full.position->0.leg2.filled_at_us == Some(t2)
        }),
{
}

/// A tick books exactly the trade that it reports: profit, counters and the report agree.
pub proof fn closed_trade_is_booked(
    m: StrategyModel,
    sig: Option<SpreadSignal>,
    snap: Option<SpreadSnapshot>,
    now_us: u64,
)
    requires
        consistent(m),
        tick_fits(m, sig, snap, now_us),
    ensures
        ({
            let next = after_tick(m, sig, snap, now_us);
            match closed_by_tick(m, sig, snap, now_us) {
                Some(trade) => {
                    &&& next.position is None
                    &&& next.cumulative_pnl == m.cumulative_pnl + trade.trade_pnl_raw
                    &&& next.stats.total_trades == m.stats.total_trades + 1
                    &&& next.stats.wins > m.stats.wins <==> trade.trade_pnl_raw >= 0
                },
                None => {
                    &&& next.cumulative_pnl == m.cumulative_pnl
                    &&& next.stats.total_trades == m.stats.total_trades
                },
            }
        }),
{
    if m.paper_mode {
        let opened = after_signal(m, sig, now_us);
        let quote = exit_quote(sig, snap);
        if opened.position is Some {
            close_is_bounded(opened.position->0, quote);
        }
    }
}

/// A position that is given up for its age while the tick has no signal leaves at its entry prices,
/// so that the trade costs its fee.
pub proof fn expired_hold_costs_its_fee(
    m: StrategyModel,
    snap: Option<SpreadSnapshot>,
    now_us: u64,
)
    ensures
        closed_by_tick(m, None, snap, now_us) matches Some(trade) ==> trade.reason
            == ExitReason::MaxHold ==> {
            &&& trade.spot_exit == trade.spot_entry
            &&& trade.perp_exit == trade.perp_entry
            &&& trade.trade_pnl_raw == -trade.fee_raw
        },
{
    if m.paper_mode && m.position is Some {
        let p = m.position->0;
        pnl_is_bounded(p.leg1.price@, p.leg2.price@, p.leg1.price@, p.leg2.price@);
        amounts_of_a_trade(
            p.leg1.price@ as int,
            p.leg2.price@ as int,
            p.leg1.price@ as int,
            p.leg2.price@ as int,
        );
    }
}

/// While new positions are refused none is opened.
pub proof fn refused_entries_stay_out(
    m: StrategyModel,
    sig: Option<SpreadSignal>,
    snap: Option<SpreadSnapshot>,
    now_us: u64,
)
    requires
        m.position is None,
    ensures
        after_tick(m, admitted(sig, m, false), snap, now_us).position is None,
        !opens_live(m, admitted(sig, m, false)),
{
}

/// A tick keeps the books consistent, counts itself, notes its signal and keeps the mode.
pub proof fn a_tick_is_accounted_for(
    m: StrategyModel,
    sig: Option<SpreadSignal>,
    snap: Option<SpreadSnapshot>,
    now_us: u64,
)
    requires
        consistent(m),
        tick_fits(m, sig, snap, now_us),
    ensures
        ({
            let next = after_tick(m, sig, snap, now_us);
            &&& consistent(next)
            &&& next.ticks == m.ticks + 1
            &&& next.paper_mode == m.paper_mode
            &&& next.stats.last_signal_at_us == match sig {
                Some(s) => Some(s.timestamp_us),
                None => m.stats.last_signal_at_us,
            }
        }),
{
    closed_trade_is_booked(m, sig, snap, now_us);
}

/// The profit of some trades with one more.
proof fn total_profit_of_one_more(trades: Seq<PaperClose>, trade: PaperClose)
    ensures
        total_profit(trades.push(trade)) == total_profit(trades) + trade.trade_pnl_raw,
{
    assert(trades.push(trade).drop_last() =~= trades);
}

/// What a tick is given.
pub struct TickInput {
    pub sig: Option<SpreadSignal>,
    pub snap: Option<SpreadSnapshot>,
    pub now_us: u64,
}

/// A strategy after several ticks, one after another.
pub open spec fn after_ticks(m: StrategyModel, inputs: Seq<TickInput>) -> StrategyModel
    decreases inputs.len(),
{
    if inputs.len() == 0 {
        m
    } else {
        let t = inputs.last();
        after_tick(after_ticks(m, inputs.drop_last()), t.sig, t.snap, t.now_us)
    }
}

/// Every tick fits when its turn comes.
pub open spec fn ticks_fit(m: StrategyModel, inputs: Seq<TickInput>) -> bool
    decreases inputs.len(),
{
    inputs.len() == 0 || {
        let t = inputs.last();
        &&& ticks_fit(m, inputs.drop_last())
        &&& tick_fits(after_ticks(m, inputs.drop_last()), t.sig, t.snap, t.now_us)
    }
}

/// The time stamp of the latest signal among some ticks, or of the latest one before them.
pub open spec fn latest_signal(before: Option<u64>, inputs: Seq<TickInput>) -> Option<u64>
    decreases inputs.len(),
{
    if inputs.len() == 0 {
        before
    } else {
        match inputs.last().sig {
            Some(s) => Some(s.timestamp_us),
            None => latest_signal(before, inputs.drop_last()),
        }
    }
}

/// The trades that some ticks close, in order.
pub open spec fn trades_closed(m: StrategyModel, inputs: Seq<TickInput>) -> Seq<PaperClose>
    decreases inputs.len(),
{
    if inputs.len() == 0 {
        Seq::empty()
    } else {
        let t = inputs.last();
        let before = trades_closed(m, inputs.drop_last());
        match closed_by_tick(after_ticks(m, inputs.drop_last()), t.sig, t.snap, t.now_us) {
            Some(trade) => before.push(trade),
            None => before,
        }
    }
}

/// The profit of some trades.
pub open spec fn total_profit(trades: Seq<PaperClose>) -> int
    decreases trades.len(),
{
    if trades.len() == 0 {
        0
    } else {
        total_profit(trades.drop_last()) + trades.last().trade_pnl_raw
    }
}

/// After any sequence of ticks wins and losses add up to the trades, the statistics show the
/// cumulative profit, that profit has grown by exactly the profits of the trades that were closed,
/// one count for each, and the latest signal is the one noted. A tick closes one trade at most.
pub proof fn books_balance(m: StrategyModel, inputs: Seq<TickInput>)
    requires
        consistent(m),
        ticks_fit(m, inputs),
    ensures
        ({
            let end = after_ticks(m, inputs);
            let trades = trades_closed(m, inputs);
            &&& consistent(end)
            &&& end.stats.wins + end.stats.losses == end.stats.total_trades
            &&& end.stats.pnl_raw == end.cumulative_pnl
            &&& end.cumulative_pnl == m.cumulative_pnl + total_profit(trades)
            &&& end.stats.total_trades == m.stats.total_trades + trades.len()
            &&& trades.len() <= inputs.len()
            &&& end.stats.last_signal_at_us == latest_signal(m.stats.last_signal_at_us, inputs)
            &&& end.ticks == m.ticks + inputs.len()
            &&& end.paper_mode == m.paper_mode
        }),
    decreases inputs.len(),
{
    if inputs.len() > 0 {
        let init = inputs.drop_last();
        let t = inputs.last();
        books_balance(m, init);
        let before = after_ticks(m, init);
        let end = after_ticks(m, inputs);
        assert(end == after_tick(before, t.sig, t.snap, t.now_us));
        closed_trade_is_booked(before, t.sig, t.snap, t.now_us);
        a_tick_is_accounted_for(before, t.sig, t.snap, t.now_us);
        if let Some(trade) = closed_by_tick(before, t.sig, t.snap, t.now_us) {
            total_profit_of_one_more(trades_closed(m, init), trade);
        }
    }
}

/// What a paper trade earns, by its bounds: 0.01 of the distance that the two legs moved in their
/// favour, cut toward zero, less a fee of one part in 250 000 of the two entry prices, cut down.
proof fn trade_earns_its_distance(spot_entry: u64, perp_entry: u64, spot_exit: u64, perp_exit: u64)
    ensures
        ({
            let fee = round_trip_fee(spot_entry as int, perp_entry as int);
            let gross = fee + trade_pnl(
                spot_entry as int,
                perp_entry as int,
                spot_exit as int,
                perp_exit as int,
            );
            let moved = spot_exit - spot_entry + perp_entry - perp_exit;
            &&& fee * 250_000 <= spot_entry + perp_entry < fee * 250_000 + 250_000
            &&& moved >= 0 ==> 100 * gross <= moved < 100 * gross + 100
            &&& moved <= 0 ==> 100 * gross - 100 < moved <= 100 * gross
        }),
{
    amounts_of_a_trade(
        spot_entry as int,
        perp_entry as int,
        spot_exit as int,
        perp_exit as int,
    );
    assert(SCALE as int == 100_000_000);
}

/// An acknowledgement acts on the leg whose order is awaited, and on nothing else. The first leg
/// goes by the identifier of the position, the second by the one behind it. An order that ended
/// without a fill makes the position close. Only the fill of the second order completes it, and
/// only the fill of a leg's own order gives that leg a fill time.
pub proof fn acks_decide_the_awaited_leg(
    s: &mut Strategy,
    ack: OrderAck,
    now_us: u64,
    r: Option<OrderCmd>,
)
    requires
        old(s).wf(),
        call_ensures(Strategy::on_order_ack_at, (s, ack, now_us), r),
        old(s)@.position is Some,
    ensures
        ({
            let p = old(s)@.position->0;
            let q = final(s)@.position->0;
            let first = p.state == TradeState::Leg1Sent && ack.client_id == old(s)@.leg1_client_id;
            let second = p.state == TradeState::Leg2Sent && ack.client_id
                == old(s)@.leg1_client_id + 1;
            let ended = ack.status == OrderStatus::Cancelled || ack.status == OrderStatus::Rejected;
            let filled = ack.status == OrderStatus::Filled;
            let live = old(s)@.orders_connected && !old(s)@.paper_mode;
            &&& final(s)@.position is Some
            &&& q.state == TradeState::Closing <==> p.state == TradeState::Closing || (first
                || second) && ended
            &&& q.state == TradeState::BothFilled <==> p.state == TradeState::BothFilled || second
                && filled
            &&& q.state == TradeState::Leg2Sent <==> first && filled && live || p.state
                == TradeState::Leg2Sent && !(second && (filled || ended))
            &&& q.state == TradeState::Leg1Filled <==> first && filled && !live || p.state
                == TradeState::Leg1Filled
            &&& q.state == TradeState::Leg1Sent <==> p.state == TradeState::Leg1Sent && !(first && (
            filled || ended))
            &&& q.leg1.filled_at_us == if first && filled {
                Some(now_us)
            } else {
                p.leg1.filled_at_us
            }
            &&& q.leg2.filled_at_us == if second && filled {
                Some(now_us)
            } else {
                p.leg2.filled_at_us
            }
            &&& q.leg2.sent_at_us == if first && filled && live {
                Some(now_us)
            } else {
                p.leg2.sent_at_us
            }
            &&& q.leg1.sent_at_us == p.leg1.sent_at_us
        }),
{
}

/// A leg's own state follows the position's: it changes only by a fill or by being sent.
pub proof fn acks_move_the_legs(
    s: &mut Strategy,
    ack: OrderAck,
    now_us: u64,
    r: Option<OrderCmd>,
)
    requires
        old(s).wf(),
        call_ensures(Strategy::on_order_ack_at, (s, ack, now_us), r),
        old(s)@.position is Some,
    ensures
        ({
            let p = old(s)@.position->0;
            let q = final(s)@.position->0;
            &&& q.state == p.state || q.state == TradeState::Closing ==> q.leg1 == p.leg1 && q.leg2
                == p.leg2
            &&& q.state != p.state && q.state == TradeState::Leg1Filled ==> q.leg1.state
                == TradeState::Leg1Filled && q.leg2 == p.leg2
            &&& q.state != p.state && q.state == TradeState::Leg2Sent ==> q.leg1.state
                == TradeState::Leg1Filled && q.leg2.state == TradeState::Leg2Sent
            &&& q.state != p.state && q.state == TradeState::BothFilled ==> q.leg1.state
                == TradeState::BothFilled && q.leg2.state == TradeState::BothFilled
            &&& q.leg1.price == p.leg1.price && q.leg1.qty == p.leg1.qty && q.leg1.kind
                == p.leg1.kind
            &&& q.leg2.price == p.leg2.price && q.leg2.qty == p.leg2.qty && q.leg2.kind
                == p.leg2.kind
            &&& q.opened_at_us == p.opened_at_us
        }),
{
}

/// The fill of the awaited first order, and nothing else, hands back an order, and only in live
/// mode with somebody to take it: a post-only sale of 0.01 BTC at the price of the second leg,
/// under the identifier behind the first order's. Besides the position nothing changes.
pub proof fn second_order_follows_the_first_fill(
    s: &mut Strategy,
    ack: OrderAck,
    now_us: u64,
    r: Option<OrderCmd>,
)
    requires
        old(s).wf(),
        call_ensures(Strategy::on_order_ack_at, (s, ack, now_us), r),
    ensures
        r is Some <==> {
            &&& old(s)@.position is Some
            &&& old(s)@.position->0.state == TradeState::Leg1Sent
            &&& ack.client_id == old(s)@.leg1_client_id
            &&& ack.status == OrderStatus::Filled
            &&& old(s)@.orders_connected
            &&& !old(s)@.paper_mode
        },
        r matches Some(cmd) ==> {
            &&& final(s)@.position is Some
            &&& final(s)@.position->0.state == TradeState::Leg2Sent
            &&& cmd matches OrderCmd::Place { client_id, symbol, side, price, qty, post_only }
            &&& client_id == ack.client_id + 1
            &&& symbol@ == "BTC_USDT"@
            &&& side == Side::Ask
            &&& price == old(s)@.position->0.leg2.price
            &&& qty == 1_000_000
            &&& post_only
        },
        final(s)@ == (StrategyModel { position: final(s)@.position, ..old(s)@ }),
        final(s)@.position is Some <==> old(s)@.position is Some,
        final(s).engine == old(s).engine,
{
}

/// An acknowledgement that is taken now has the same effect as one at some time: which state the
/// position takes and which order is handed back do not depend on the time.
pub proof fn acks_decide_whatever_the_time(s: &mut Strategy, ack: OrderAck, r: Option<OrderCmd>)
    requires
        old(s).wf(),
        call_ensures(Strategy::on_order_ack, (s, ack), r),
        old(s)@.position is Some,
    ensures
        ({
            let p = old(s)@.position->0;
            let q = final(s)@.position->0;
            let first = p.state == TradeState::Leg1Sent && ack.client_id == old(s)@.leg1_client_id;
            let second = p.state == TradeState::Leg2Sent && ack.client_id
                == old(s)@.leg1_client_id + 1;
            let ended = ack.status == OrderStatus::Cancelled || ack.status == OrderStatus::Rejected;
            let filled = ack.status == OrderStatus::Filled;
            let live = old(s)@.orders_connected && !old(s)@.paper_mode;
            &&& final(s)@.position is Some
            &&& q.state == TradeState::Closing <==> p.state == TradeState::Closing || (first
                || second) && ended
            &&& q.state == TradeState::BothFilled <==> p.state == TradeState::BothFilled || second
                && filled
            &&& q.leg1.filled_at_us != p.leg1.filled_at_us ==> first && filled
            &&& q.leg2.filled_at_us != p.leg2.filled_at_us ==> second && filled
            &&& r is Some <==> first && filled && live
            &&& r matches Some(OrderCmd::Place { client_id, symbol, side, price, qty, post_only })
                ==> client_id == ack.client_id + 1 && side == Side::Ask && price == p.leg2.price
                && qty == 1_000_000 && post_only && symbol@ == "BTC_USDT"@
            &&& r matches Some(cmd) ==> cmd is Place
        }),
{
}

/// A trade that a tick closes leaves at the market of that tick: at the prices of the signal if
/// there is one; else, when the spread inverted or narrowed, at the best spot bid and the best
/// perp ask; else, for its age, at the prices it was entered at. It was entered at the prices of
/// the position that was open, or of the signal that opened it in this very tick.
pub proof fn trades_leave_at_the_market(
    s: &mut Strategy,
    sig: Option<SpreadSignal>,
    now_us: u64,
    r: TickOutcome,
)
    requires
        old(s).wf(),
        has_room(old(s)@) || tick_fits(old(s)@, sig, old(s).engine.normal(), now_us),
        call_ensures(Strategy::on_tick_with_signal_at, (s, sig, now_us), r),
        r.closed is Some,
    ensures
        ({
            let t = r.closed->0;
            let spot_bid = highest(old(s).engine.spot_book.bid_levels());
            let perp_ask = lowest(old(s).engine.perp_book.ask_levels());
            &&& old(s)@.paper_mode
            &&& sig matches Some(g) ==> t.spot_exit == g.bid_price && t.perp_exit == g.ask_price
            &&& sig is None && t.reason != ExitReason::MaxHold ==> Some(t.spot_exit) == spot_bid
                && Some(t.perp_exit) == perp_ask
            &&& sig is None && t.reason == ExitReason::MaxHold ==> t.spot_exit == t.spot_entry
                && t.perp_exit == t.perp_entry
            &&& old(s)@.position matches Some(p) ==> t.spot_entry == p.leg1.price && t.perp_entry
                == p.leg2.price && t.opened_at_us == p.opened_at_us && p.state
                == TradeState::BothFilled
            &&& old(s)@.position is None ==> sig is Some && t.spot_entry == sig->0.bid_price
                && t.perp_entry == sig->0.ask_price && t.opened_at_us == now_us
            &&& now_us >= t.opened_at_us ==> t.hold_time_us == now_us - t.opened_at_us
            &&& now_us < t.opened_at_us ==> t.hold_time_us == 0
        }),
{
    headroom_or_fits(*old(s), sig, now_us);
}

/// A closed trade books what its two legs earned on 0.01 BTC each: the spot leg gains what the
/// spot price rose, the short perp leg what the perp price fell, and the fee goes off. The profit
/// is added to the total, and the trade counts as a win exactly if it lost nothing.
pub proof fn trades_book_what_they_earned(
    s: &mut Strategy,
    sig: Option<SpreadSignal>,
    now_us: u64,
    r: TickOutcome,
)
    requires
        old(s).wf(),
        has_room(old(s)@) || tick_fits(old(s)@, sig, old(s).engine.normal(), now_us),
        call_ensures(Strategy::on_tick_with_signal_at, (s, sig, now_us), r),
    ensures
        r.closed matches Some(t) ==> {
            let moved = t.spot_exit@ - t.spot_entry@ + t.perp_entry@ - t.perp_exit@;
            let gross = t.trade_pnl_raw + t.fee_raw;
            &&& t.fee_raw * 250_000 <= t.spot_entry@ + t.perp_entry@ < t.fee_raw * 250_000 + 250_000
            &&& moved >= 0 ==> 100 * gross <= moved < 100 * gross + 100
            &&& moved <= 0 ==> 100 * gross - 100 < moved <= 100 * gross
            &&& final(s)@.position is None
            &&& final(s)@.cumulative_pnl == old(s)@.cumulative_pnl + t.trade_pnl_raw
            &&& final(s)@.stats.pnl_raw == final(s)@.cumulative_pnl
            &&& final(s)@.stats.total_trades == old(s)@.stats.total_trades + 1
            &&& t.trade_pnl_raw >= 0 ==> final(s)@.stats.wins == old(s)@.stats.wins + 1
                && final(s)@.stats.losses == old(s)@.stats.losses
            &&& t.trade_pnl_raw < 0 ==> final(s)@.stats.losses == old(s)@.stats.losses + 1
                && final(s)@.stats.wins == old(s)@.stats.wins
        },
        r.closed is None ==> {
            &&& final(s)@.cumulative_pnl == old(s)@.cumulative_pnl
            &&& final(s)@.stats == (PaperStats {
                last_signal_at_us: final(s)@.stats.last_signal_at_us,
                ..old(s)@.stats
            })
            &&& old(s)@.position is Some ==> final(s)@.position is Some
        },
{
    headroom_or_fits(*old(s), sig, now_us);
    if let Some(t) = r.closed {
        pnl_is_bounded(t.spot_entry@, t.perp_entry@, t.spot_exit@, t.perp_exit@);
        trade_earns_its_distance(t.spot_entry@, t.perp_entry@, t.spot_exit@, t.perp_exit@);
    }
}

/// A strategy whose next tick is promised to fit can take it.
proof fn headroom_or_fits(s: Strategy, sig: Option<SpreadSignal>, now_us: u64)
    requires
        has_room(s@) || tick_fits(s@, sig, s.engine.normal(), now_us),
    ensures
        tick_fits(s@, sig, s.engine.normal(), now_us),
{
    if has_room(s@) {
        headroom_suffices(s@, sig, s.engine.normal(), now_us);
    }
}

/// A paper tick closes exactly the position whose legs are both filled and whose time has come: the
/// market's perp price is below its spot price; or the market's spread is at most the exit spread,
/// and where a least profit is set the trade reaches it; or the position is at least four hours
/// old. The first of these that holds is the reason given. Where a narrow spread does not close it,
/// what it would have earned falls short.
pub proof fn trades_close_when_their_time_has_come(
    s: &mut Strategy,
    sig: Option<SpreadSignal>,
    now_us: u64,
    r: TickOutcome,
    spot: u64,
    perp: u64,
    spread: u64,
)
    requires
        old(s).wf(),
        has_room(old(s)@) || tick_fits(old(s)@, sig, old(s).engine.normal(), now_us),
        call_ensures(Strategy::on_tick_with_signal_at, (s, sig, now_us), r),
        old(s)@.paper_mode,
        old(s)@.position is Some,
        old(s)@.position->0.state == TradeState::BothFilled,
        match sig {
            Some(g) => g.bid_price@ == spot && g.ask_price@ == perp && g.spread_raw == spread,
            None => {
                &&& highest(old(s).engine.spot_book.bid_levels()) matches Some(b) && b@ == spot
                &&& lowest(old(s).engine.perp_book.ask_levels()) matches Some(a) && a@ == perp
                &&& spread == if perp >= spot {
                    perp - spot
                } else {
                    0
                }
            },
        },
    ensures
        ({
            let m = old(s)@;
            let p = m.position->0;
            let old_enough = now_us >= p.opened_at_us + 14_400_000_000;
            &&& perp < spot ==> r.closed is Some && r.closed->0.reason
                == ExitReason::SpreadInverted
            &&& perp >= spot && spread <= m.exit_spread_raw && m.min_profit_raw <= 0
                ==> r.closed is Some && r.closed->0.reason == ExitReason::ExitSpread
            &&& perp >= spot && spread > m.exit_spread_raw ==> (r.closed is Some <==> old_enough)
            &&& old_enough ==> r.closed is Some
            &&& r.closed matches Some(t) ==> {
                &&& t.reason == ExitReason::SpreadInverted ==> perp < spot
                &&& t.reason == ExitReason::ExitSpread ==> perp >= spot && spread
                    <= m.exit_spread_raw
                &&& t.reason == ExitReason::ExitSpread && m.min_profit_raw > 0 ==> t.trade_pnl_raw
                    >= m.min_profit_raw
                &&& t.reason == ExitReason::MaxHold ==> old_enough && perp >= spot
            }
            &&& perp >= spot && spread <= m.exit_spread_raw && !(r.closed is Some
                && r.closed->0.reason == ExitReason::ExitSpread) ==> exists|pnl: int, fee: int|
                {
                    let moved = spot - p.leg1.price@ + p.leg2.price@ - perp;
                    &&& pnl < m.min_profit_raw
                    &&& #[trigger] (fee * 250_000) <= p.leg1.price@ + p.leg2.price@ < fee * 250_000
                        + 250_000
                    &&& moved >= 0 ==> #[trigger] (100 * (pnl + fee)) <= moved < 100 * (pnl + fee)
                        + 100
                    &&& moved <= 0 ==> 100 * (pnl + fee) - 100 < moved <= 100 * (pnl + fee)
                }
        }),
{
    headroom_or_fits(*old(s), sig, now_us);
    let p = old(s)@.position->0;
    pnl_is_bounded(p.leg1.price@, p.leg2.price@, spot, perp);
    trade_earns_its_distance(p.leg1.price@, p.leg2.price@, spot, perp);
    let fee = round_trip_fee(p.leg1.price@ as int, p.leg2.price@ as int);
    let pnl = trade_pnl(p.leg1.price@ as int, p.leg2.price@ as int, spot as int, perp as int);
    let _ = fee * 250_000;
    let _ = 100 * (pnl + fee);
}

/// Without a market to judge by only its age closes a position; without both legs filled, or in
/// live mode, nothing does.
pub proof fn nothing_else_closes_a_trade(
    s: &mut Strategy,
    sig: Option<SpreadSignal>,
    now_us: u64,
    r: TickOutcome,
)
    requires
        old(s).wf(),
        has_room(old(s)@) || tick_fits(old(s)@, sig, old(s).engine.normal(), now_us),
        call_ensures(Strategy::on_tick_with_signal_at, (s, sig, now_us), r),
    ensures
        !old(s)@.paper_mode ==> r.closed is None,
        old(s)@.position is None && sig is None ==> r.closed is None,
        old(s)@.position matches Some(p) ==> p.state != TradeState::BothFilled ==> r.closed is None,
        old(s)@.position matches Some(p) ==> old(s)@.paper_mode && p.state == TradeState::BothFilled
            && sig is None && (highest(old(s).engine.spot_book.bid_levels()) is None || lowest(
            old(s).engine.perp_book.ask_levels(),
        ) is None) ==> (r.closed is Some <==> now_us >= p.opened_at_us + 14_400_000_000),
{
    headroom_or_fits(*old(s), sig, now_us);
}

/// A signal opens a position where there is none: it buys 0.01 BTC of spot at the bid and sells as
/// much of the perp at the ask, as of now. On paper both legs are filled at once. Live, the spot leg
/// is sent under an identifier of its own and the perp leg waits. Without a signal none is opened,
/// and an open position is not replaced.
pub proof fn signals_open_positions(
    s: &mut Strategy,
    sig: Option<SpreadSignal>,
    now_us: u64,
    r: TickOutcome,
)
    requires
        old(s).wf(),
        has_room(old(s)@) || tick_fits(old(s)@, sig, old(s).engine.normal(), now_us),
        call_ensures(Strategy::on_tick_with_signal_at, (s, sig, now_us), r),
    ensures
        old(s)@.position is None && sig is None ==> final(s)@.position is None,
        old(s)@.position is None && sig is Some ==> {
            &&& final(s)@.position is None <==> r.closed is Some
            &&& final(s)@.position matches Some(p) ==> {
                let both = TradeState::BothFilled;
                let paper = old(s)@.paper_mode;
                &&& p.opened_at_us == now_us
                &&& p.leg1.kind == LegKind::SpotBuy && p.leg1.price == sig->0.bid_price
                    && p.leg1.qty == 1_000_000 && p.leg1.sent_at_us == Some(now_us)
                &&& p.leg2.kind == LegKind::PerpShort && p.leg2.price == sig->0.ask_price
                    && p.leg2.qty == 1_000_000
                &&& paper ==> p.state == both && p.leg1.state == both && p.leg2.state == both
                    && p.leg2.sent_at_us == Some(now_us) && p.leg1.filled_at_us == Some(now_us)
                    && p.leg2.filled_at_us == Some(now_us)
                &&& !paper ==> p.state == TradeState::Leg1Sent && p.leg1.state
                    == TradeState::Leg1Sent && p.leg2.state == TradeState::Idle
                    && p.leg2.sent_at_us is None && p.leg1.filled_at_us is None
                    && p.leg2.filled_at_us is None
                &&& !paper ==> final(s)@.leg1_client_id == old(s)@.next_client_id
            }
        },
        final(s)@.next_client_id != old(s)@.next_client_id <==> {
            &&& old(s)@.position is None
            &&& sig is Some
            &&& !old(s)@.paper_mode
        },
        final(s)@.next_client_id != old(s)@.next_client_id ==> final(s)@.next_client_id == if old(s)@.next_client_id == 0xffff_ffff_ffff_fffe {
            0
        } else {
            old(s)@.next_client_id + 2
        },
        final(s)@.next_client_id == old(s)@.next_client_id ==> final(s)@.leg1_client_id == old(s)@.leg1_client_id,
{
    headroom_or_fits(*old(s), sig, now_us);
}

/// A tick hands back an order exactly when it opens a live position and somebody takes orders: a
/// post-only purchase of 0.01 BTC at the bid, under the identifier that the position goes by.
pub proof fn first_order_opens_the_position(
    s: &mut Strategy,
    sig: Option<SpreadSignal>,
    now_us: u64,
    r: TickOutcome,
)
    requires
        old(s).wf(),
        has_room(old(s)@) || tick_fits(old(s)@, sig, old(s).engine.normal(), now_us),
        call_ensures(Strategy::on_tick_with_signal_at, (s, sig, now_us), r),
    ensures
        r.order is Some <==> {
            &&& sig is Some
            &&& old(s)@.position is None
            &&& !old(s)@.paper_mode
            &&& old(s)@.orders_connected
        },
        r.order matches Some(cmd) ==> {
            &&& final(s)@.position is Some
            &&& final(s)@.position->0.state == TradeState::Leg1Sent
            &&& cmd matches OrderCmd::Place { client_id, symbol, side, price, qty, post_only }
            &&& client_id == final(s)@.leg1_client_id
            &&& client_id % 2 == 0
            &&& symbol@ == "BTC_USDT"@
            &&& side == Side::Bid
            &&& price == sig->0.bid_price
            &&& price == final(s)@.position->0.leg1.price
            &&& qty == 1_000_000
            &&& post_only
        },
{
    headroom_or_fits(*old(s), sig, now_us);
}

/// A live tick makes a position close exactly when its first leg was filled more than half a second
/// ago and the second is not under way. Otherwise a tick leaves an open position as it is, or
/// closes it on paper. Each tick counts, a summary is due every hundredth, and the latest signal is
/// noted. The settings stay.
pub proof fn ticks_keep_the_rest(
    s: &mut Strategy,
    sig: Option<SpreadSignal>,
    now_us: u64,
    r: TickOutcome,
)
    requires
        old(s).wf(),
        has_room(old(s)@) || tick_fits(old(s)@, sig, old(s).engine.normal(), now_us),
        call_ensures(Strategy::on_tick_with_signal_at, (s, sig, now_us), r),
    ensures
        old(s)@.position matches Some(p) ==> {
            let overdue = !old(s)@.paper_mode && p.state == TradeState::Leg1Filled
                && p.leg1.filled_at_us is Some && now_us > p.leg1.filled_at_us->0 + 500_000;
            &&& overdue ==> final(s)@.position == Some(
                PositionModel { state: TradeState::Closing, ..p },
            )
            &&& !overdue && r.closed is None ==> final(s)@.position == Some(p)
        },
        final(s)@.ticks == old(s)@.ticks + 1,
        r.summary_due <==> (old(s)@.ticks + 1) % 100 == 0,
        sig matches Some(g) ==> final(s)@.stats.last_signal_at_us == Some(g.timestamp_us),
        sig is None ==> final(s)@.stats.last_signal_at_us == old(s)@.stats.last_signal_at_us,
        final(s)@.paper_mode == old(s)@.paper_mode,
        final(s)@.threshold_spread_raw == old(s)@.threshold_spread_raw,
        final(s)@.exit_spread_raw == old(s)@.exit_spread_raw,
        final(s)@.min_profit_raw == old(s)@.min_profit_raw,
        final(s)@.orders_connected == old(s)@.orders_connected,
        final(s).engine == old(s).engine,
{
    headroom_or_fits(*old(s), sig, now_us);
}

/// A tick that reads the books enters exactly when the best perp ask exceeds the best spot bid by
/// more than the threshold and the bid is not zero, as long as positions are not left above the
/// threshold. It enters at those two prices.
pub proof fn ticks_enter_above_the_threshold(s: &mut Strategy, now_us: u64, r: TickOutcome)
    requires
        old(s).wf(),
        has_room(old(s)@),
        call_ensures(Strategy::on_tick_at, (s, now_us), r),
        old(s)@.position is None,
        old(s)@.exit_spread_raw <= old(s)@.threshold_spread_raw,
    ensures
        ({
            let bid = highest(old(s).engine.spot_book.bid_levels());
            let ask = lowest(old(s).engine.perp_book.ask_levels());
            &&& final(s)@.position is Some <==> bid is Some && ask is Some && bid->0@ > 0
                && ask->0@ > bid->0@ + old(s)@.threshold_spread_raw
            &&& final(s)@.position matches Some(p) ==> Some(p.leg1.price) == bid && Some(
                p.leg2.price,
            ) == ask && p.opened_at_us == now_us && final(s)@.stats.last_signal_at_us == Some(
                now_us,
            )
            &&& r.closed is None
            &&& r.order is Some <==> final(s)@.position is Some && !old(s)@.paper_mode && old(s)@.orders_connected
            &&& r.order matches Some(cmd) ==> (cmd matches OrderCmd::Place { side, price, .. }
                && side == Side::Bid && Some(price) == bid)
        }),
{
}

/// A tick that may not open leaves a strategy without a position; one that may open, or that has a
/// position already, does what any tick does.
pub proof fn refused_ticks_open_nothing(
    s: &mut Strategy,
    may_open: bool,
    now_us: u64,
    r: TickOutcome,
)
    requires
        old(s).wf(),
        has_room(old(s)@),
        call_ensures(Strategy::on_tick_if_at, (s, may_open, now_us), r),
        old(s)@.exit_spread_raw <= old(s)@.threshold_spread_raw,
    ensures
        ({
            let bid = highest(old(s).engine.spot_book.bid_levels());
            let ask = lowest(old(s).engine.perp_book.ask_levels());
            let wide = bid is Some && ask is Some && bid->0@ > 0 && ask->0@ > bid->0@ + old(s)@.threshold_spread_raw;
            &&& old(s)@.position is None ==> (final(s)@.position is Some <==> may_open && wide)
            &&& r.order is Some <==> may_open && wide && old(s)@.position is None && !old(s)@.paper_mode && old(s)@.orders_connected
            &&& old(s)@.position is Some && wide ==> final(s)@.stats.last_signal_at_us == Some(
                now_us,
            )
            &&& old(s)@.position matches Some(p) ==> old(s)@.paper_mode && p.state
                == TradeState::BothFilled && bid is Some && ask is Some && ask->0@ < bid->0@
                ==> final(s)@.position is None && r.closed is Some
            &&& old(s)@.position matches Some(p) ==> old(s)@.paper_mode && p.state
                == TradeState::BothFilled && now_us >= p.opened_at_us + 14_400_000_000 ==> final(s)@.position is None
            &&& final(s)@.ticks == old(s)@.ticks + 1
        }),
{
}

/// A strategy starts flat, on paper, with empty books of profit, no least profit, and positions that
/// are left once the spread is gone. Nobody takes its orders until somebody is said to.
pub proof fn strategies_start_flat(
    engine: Engine<20, 20>,
    threshold: u64,
    r: Strategy,
    s: &mut Strategy,
    connected: bool,
)
    requires
        engine.wf(),
        call_ensures(Strategy::new, (engine, threshold), r),
        *old(s) == r,
        call_ensures(Strategy::set_order_sender, (s, connected), ()),
    ensures
        r@.position is None,
        r@.paper_mode,
        r@.threshold_spread_raw == threshold,
        r@.exit_spread_raw == 0 && r@.min_profit_raw == 0,
        r@.cumulative_pnl == 0 && r@.ticks == 0,
        r@.stats.total_trades == 0 && r@.stats.wins == 0 && r@.stats.losses == 0,
        r@.stats.pnl_raw == 0 && r@.stats.last_signal_at_us is None,
        !r@.orders_connected,
        r@.next_client_id == 0,
        r.engine == engine,
        final(s)@.orders_connected == connected,
        final(s)@ == (StrategyModel { orders_connected: connected, ..r@ }),
{
}

/// What a strategy tells of itself is what it holds. It has room for a tick exactly if the counts
/// can go up by one and, on paper, the total stays in range whatever the trade.
pub proof fn strategies_tell_what_they_hold(
    s: Strategy,
    pnl: i64,
    stats: PaperStats,
    ticks: u64,
    open: bool,
    state: Option<TradeState>,
    room: bool,
)
    requires
        call_ensures(Strategy::get_pnl, (&s,), pnl),
        call_ensures(Strategy::get_paper_stats, (&s,), stats),
        call_ensures(Strategy::ticks, (&s,), ticks),
        call_ensures(Strategy::is_position_open, (&s,), open),
        call_ensures(Strategy::position_state, (&s,), state),
        call_ensures(Strategy::has_headroom, (&s,), room),
    ensures
        pnl == s@.cumulative_pnl,
        stats == s@.stats,
        ticks == s@.ticks,
        open <==> s@.position is Some,
        state is Some <==> open,
        s@.position matches Some(p) ==> state == Some(p.state),
        room <==> {
            &&& s@.ticks < 0xffff_ffff_ffff_ffff
            &&& !s@.paper_mode || s@.stats.total_trades < 0xffff_ffff_ffff_ffff
                && -8_823_372_036_854_775_807 <= s@.cumulative_pnl <= 8_823_372_036_854_775_807
        },
{
}

/// A tick of this moment with a signal books and leaves as one at a given time does.
pub proof fn ticks_of_now_book_what_they_earned(
    s: &mut Strategy,
    sig: Option<SpreadSignal>,
    r: TickOutcome,
)
    requires
        old(s).wf(),
        has_room(old(s)@),
        call_ensures(Strategy::on_tick_with_signal, (s, sig), r),
    ensures
        r.closed matches Some(t) ==> {
            let moved = t.spot_exit@ - t.spot_entry@ + t.perp_entry@ - t.perp_exit@;
            let gross = t.trade_pnl_raw + t.fee_raw;
            &&& old(s)@.paper_mode
            &&& sig matches Some(g) ==> t.spot_exit == g.bid_price && t.perp_exit == g.ask_price
            &&& sig is None && t.reason != ExitReason::MaxHold ==> Some(t.spot_exit) == highest(
                old(s).engine.spot_book.bid_levels(),
            ) && Some(t.perp_exit) == lowest(old(s).engine.perp_book.ask_levels())
            &&& sig is None && t.reason == ExitReason::MaxHold ==> t.spot_exit == t.spot_entry
                && t.perp_exit == t.perp_entry
            &&& t.fee_raw * 250_000 <= t.spot_entry@ + t.perp_entry@ < t.fee_raw * 250_000 + 250_000
            &&& moved >= 0 ==> 100 * gross <= moved < 100 * gross + 100
            &&& moved <= 0 ==> 100 * gross - 100 < moved <= 100 * gross
            &&& final(s)@.position is None
            &&& final(s)@.cumulative_pnl == old(s)@.cumulative_pnl + t.trade_pnl_raw
            &&& final(s)@.stats.total_trades == old(s)@.stats.total_trades + 1
        },
        r.order is Some <==> sig is Some && old(s)@.position is None && !old(s)@.paper_mode && old(s)@.orders_connected,
        r.order matches Some(cmd) ==> (cmd matches OrderCmd::Place { side, price, qty, .. } && side
            == Side::Bid && price == sig->0.bid_price && qty == 1_000_000),
        old(s)@.position is None && sig is None ==> final(s)@.position is None,
        final(s)@.ticks == old(s)@.ticks + 1,
        r.summary_due <==> (old(s)@.ticks + 1) % 100 == 0,
{
    let now_us = choose|now_us: u64|
        {
            &&& final(s)@ == #[trigger] after_tick(old(s)@, sig, old(s).engine.normal(), now_us)
            &&& r.closed == closed_by_tick(old(s)@, sig, old(s).engine.normal(), now_us)
        };
    headroom_or_fits(*old(s), sig, now_us);
    if let Some(t) = r.closed {
        pnl_is_bounded(t.spot_entry@, t.perp_entry@, t.spot_exit@, t.perp_exit@);
        trade_earns_its_distance(t.spot_entry@, t.perp_entry@, t.spot_exit@, t.perp_exit@);
    }
}

/// A tick of this moment that reads the books enters, and refuses to enter, under the same
/// conditions as one at a given time.
pub proof fn ticks_of_now_enter_above_the_threshold(
    s: &mut Strategy,
    t: &mut Strategy,
    may_open: bool,
    r: TickOutcome,
    q: TickOutcome,
)
    requires
        old(s).wf(),
        old(t).wf(),
        has_room(old(s)@),
        has_room(old(t)@),
        call_ensures(Strategy::on_tick, (s,), r),
        call_ensures(Strategy::on_tick_if, (t, may_open), q),
        old(s)@.position is None,
        old(t)@.position is None,
        old(s)@.exit_spread_raw <= old(s)@.threshold_spread_raw,
        old(t)@.exit_spread_raw <= old(t)@.threshold_spread_raw,
    ensures
        ({
            let bid = highest(old(s).engine.spot_book.bid_levels());
            let ask = lowest(old(s).engine.perp_book.ask_levels());
            &&& final(s)@.position is Some <==> bid is Some && ask is Some && bid->0@ > 0
                && ask->0@ > bid->0@ + old(s)@.threshold_spread_raw
            &&& final(s)@.position matches Some(p) ==> Some(p.leg1.price) == bid && Some(
                p.leg2.price,
            ) == ask
            &&& r.order is Some <==> final(s)@.position is Some && !old(s)@.paper_mode && old(s)@.orders_connected
            &&& r.closed is None
        }),
        ({
            let bid = highest(old(t).engine.spot_book.bid_levels());
            let ask = lowest(old(t).engine.perp_book.ask_levels());
            &&& final(t)@.position is Some <==> may_open && bid is Some && ask is Some && bid->0@
                > 0 && ask->0@ > bid->0@ + old(t)@.threshold_spread_raw
            &&& q.order is Some <==> final(t)@.position is Some && !old(t)@.paper_mode && old(t)@.orders_connected
        }),
{
}

} // verus!
