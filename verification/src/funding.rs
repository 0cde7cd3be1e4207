//! Funding rate arbitrage: short perp and long spot across a funding snapshot.
//!
//! The exchange pays funding every eight hours (00:00, 08:00 and 16:00 UTC). A position is entered
//! shortly before a snapshot when the rate is high enough, and left once the snapshot has passed.

use vstd::prelude::*;

use crate::strategy::trunc_div;
use crate::types::{FundingRateUpdate, SCALE};

verus! {

/// A position is entered at most this many seconds before a snapshot.
pub const ENTRY_WINDOW_SECS: u64 = 300;

/// Least funding rate for an entry: 0.5 bps, as a count of 1/10_000 bps.
pub const ENTRY_THRESHOLD_BPS: i64 = 5_000;

/// A position is left this many seconds after the snapshot.
pub const MAX_HOLD_AFTER_SNAPSHOT_SECS: u64 = 120;

/// Milliseconds between two snapshots: eight hours.
pub const FUNDING_INTERVAL_MS: u64 = 28_800_000;

/// Quantity of each leg in raw units: 0.01 BTC.
pub const FUNDING_QTY: u64 = 1_000_000;

/// Maker fee in basis points per leg.
pub const FUNDING_FEE_BPS: u64 = 2;

/// No single cycle collects or pays more funding than this, in raw units.
pub const FUNDING_HEADROOM: i64 = 100_000_000_000_000_000;

/// Funding state machine.
#[derive(Debug, Clone, Copy, PartialEq, Eq, Structural)]
pub enum FundingState {
    /// No position, waiting for the next opportunity.
    Idle,
    /// Position entered, waiting for the snapshot.
    Entered,
    /// Snapshot passed, holding briefly.
    Collecting,
    /// Leaving the position.
    Exiting,
    /// Trade complete.
    Done,
}

/// Statistics of the funding strategy.
#[derive(Debug, Clone, Copy, PartialEq, Eq, Structural)]
pub struct FundingStats {
    pub total_cycles: u64,
    pub profitable_cycles: u64,
    pub total_funding_collected_raw: i64,
    /// Latest rate as a count of 1/10_000 bps.
    pub last_rate_bps: i64,
    pub last_entry_at_ms: Option<u64>,
    pub last_exit_at_ms: Option<u64>,
}

impl Default for FundingStats {
    fn default() -> (r: Self)
        ensures
            r == no_stats(),
    {
        FundingStats {
            total_cycles: 0,
            profitable_cycles: 0,
            total_funding_collected_raw: 0,
            last_rate_bps: 0,
            last_entry_at_ms: None,
            last_exit_at_ms: None,
        }
    }
}

/// One active funding position.
#[derive(Debug, Clone, Copy, PartialEq, Eq, Structural)]
pub struct FundingPosition {
    /// Funding rate at entry in raw units.
    pub entry_rate_raw: i64,
    /// Expected time of the snapshot in milliseconds.
    pub snapshot_at_ms: u64,
    pub entered_at_ms: u64,
    /// Spot price paid at entry in raw units.
    pub spot_entry_price: u64,
    /// Perp price sold at entry in raw units.
    pub perp_entry_price: u64,
    pub state: FundingState,
}

/// A completed cycle.
#[derive(Debug, Clone, Copy, PartialEq, Eq, Structural)]
pub struct FundingClose {
    pub spot_pnl_raw: i64,
    pub perp_pnl_raw: i64,
    pub funding_raw: i64,
    pub fee_raw: i64,
    pub total_pnl_raw: i64,
    pub hold_secs: u64,
}

/// A published rate as plain values.
pub struct RateModel {
    pub contract: Seq<char>,
    pub rate_raw: i64,
    pub timestamp_ms: u64,
}

/// What a funding ledger holds, as plain values.
pub struct FundingLedgerModel {
    pub latest: Option<RateModel>,
    pub position: Option<FundingPosition>,
    pub stats: FundingStats,
}

/// Statistics before the first rate and the first cycle.
pub open spec fn no_stats() -> FundingStats {
    FundingStats {
        total_cycles: 0,
        profitable_cycles: 0,
        total_funding_collected_raw: 0,
        last_rate_bps: 0,
        last_entry_at_ms: None,
        last_exit_at_ms: None,
    }
}

/// The plain values of a published rate.
pub open spec fn rate_model(u: FundingRateUpdate) -> RateModel {
    RateModel { contract: u.contract@, rate_raw: u.rate_raw, timestamp_ms: u.timestamp_ms }
}

/// The next snapshot after `now_ms`: the next whole multiple of eight hours since the epoch, which
/// is 00:00, 08:00 or 16:00 UTC.
pub open spec fn next_snapshot(now_ms: int) -> int {
    (now_ms / 28_800_000 + 1) * 28_800_000
}

/// Whole seconds from `now_ms` to the next snapshot.
pub open spec fn secs_to_snapshot(now_ms: int) -> int {
    (next_snapshot(now_ms) - now_ms) / 1_000
}

/// Profit of the long spot leg.
pub open spec fn spot_profit(p: FundingPosition, spot_exit: u64) -> int {
    trunc_div((spot_exit - p.spot_entry_price) * FUNDING_QTY, SCALE as int)
}

/// Profit of the short perp leg.
pub open spec fn perp_profit(p: FundingPosition, perp_exit: u64) -> int {
    trunc_div((p.perp_entry_price - perp_exit) * FUNDING_QTY, SCALE as int)
}

/// Funding collected over the snapshot.
pub open spec fn funding_profit(p: FundingPosition) -> int {
    trunc_div(p.entry_rate_raw * FUNDING_QTY, SCALE as int)
}

/// Maker fee for opening and closing both legs.
pub open spec fn funding_fee(p: FundingPosition) -> int {
    (p.spot_entry_price + p.perp_entry_price) * FUNDING_QTY * (FUNDING_FEE_BPS * 4) / 10_000
        / SCALE as int
}

/// Profit of a whole cycle.
pub open spec fn cycle_profit(p: FundingPosition, spot_exit: u64, perp_exit: u64) -> int {
    spot_profit(p, spot_exit) + perp_profit(p, perp_exit) + funding_profit(p) - funding_fee(p)
}

/// A missing price is replaced by the entry price.
pub open spec fn price_or(price: Option<u64>, entry: u64) -> u64 {
    match price {
        Some(p) => p,
        None => entry,
    }
}

/// The position is to be left: the snapshot passed long enough ago.
pub open spec fn hold_is_over(p: FundingPosition, now_ms: u64) -> bool {
    &&& p.state == FundingState::Collecting
    &&& now_ms - p.snapshot_at_ms >= MAX_HOLD_AFTER_SNAPSHOT_SECS * 1_000
}

/// First step of a tick: a position whose snapshot has passed collects, and one that has collected
/// for long enough is closed and booked.
pub open spec fn after_exit_check(
    m: FundingLedgerModel,
    now_ms: u64,
    spot_price: Option<u64>,
    perp_price: Option<u64>,
) -> FundingLedgerModel {
    match m.position {
        Some(p) if p.state == FundingState::Entered && now_ms >= p.snapshot_at_ms =>
            FundingLedgerModel {
            position: Some(FundingPosition { state: FundingState::Collecting, ..p }),
            ..m
        },
        Some(p) if hold_is_over(p, now_ms) => {
            let profit = cycle_profit(
                p,
                price_or(spot_price, p.spot_entry_price),
                price_or(perp_price, p.perp_entry_price),
            );
            FundingLedgerModel {
                position: None,
                stats: FundingStats {
                    total_cycles: (m.stats.total_cycles + 1) as u64,
                    profitable_cycles: (m.stats.profitable_cycles + if profit >= 0 {
                        1int
                    } else {
                        0
                    }) as u64,
                    total_funding_collected_raw: (m.stats.total_funding_collected_raw
                        + funding_profit(p)) as i64,
                    last_exit_at_ms: Some(now_ms),
                    ..m.stats
                },
                ..m
            }
        },
        _ => m,
    }
}

/// The cycle that the exit check closes, if any.
pub open spec fn is_close_report(
    r: Option<FundingClose>,
    m: FundingLedgerModel,
    now_ms: u64,
    spot_price: Option<u64>,
    perp_price: Option<u64>,
) -> bool {
    match m.position {
        Some(p) if hold_is_over(p, now_ms) => {
            let spot_exit = price_or(spot_price, p.spot_entry_price);
            let perp_exit = price_or(perp_price, p.perp_entry_price);
            &&& r is Some
            &&& r->0.spot_pnl_raw == spot_profit(p, spot_exit)
            &&& r->0.perp_pnl_raw == perp_profit(p, perp_exit)
            &&& r->0.funding_raw == funding_profit(p)
            &&& r->0.fee_raw == funding_fee(p)
            &&& r->0.total_pnl_raw == cycle_profit(p, spot_exit, perp_exit)
            &&& r->0.hold_secs == if now_ms >= p.entered_at_ms {
                (now_ms - p.entered_at_ms) / 1_000
            } else {
                0
            }
        },
        _ => r is None,
    }
}

/// A position is wanted: there is none, and the rate is high enough.
pub open spec fn seeks_entry(m: FundingLedgerModel, threshold: i64) -> bool {
    &&& m.position is None
    &&& m.latest is Some
    &&& m.latest->0.rate_raw >= threshold
}

/// A position is to be entered: one is wanted, the snapshot is near but not imminent, and both
/// prices are known.
pub open spec fn enters(
    m: FundingLedgerModel,
    threshold: i64,
    now_ms: u64,
    spot_price: Option<u64>,
    perp_price: Option<u64>,
) -> bool {
    &&& seeks_entry(m, threshold)
    &&& 1 <= secs_to_snapshot(now_ms as int) <= ENTRY_WINDOW_SECS
    &&& spot_price is Some
    &&& perp_price is Some
}

/// Second step of a tick: a position is entered if the moment is right.
pub open spec fn after_entry_check(
    m: FundingLedgerModel,
    threshold: i64,
    now_ms: u64,
    spot_price: Option<u64>,
    perp_price: Option<u64>,
) -> FundingLedgerModel {
    if enters(m, threshold, now_ms, spot_price, perp_price) {
        FundingLedgerModel {
            position: Some(
                FundingPosition {
                    entry_rate_raw: m.latest->0.rate_raw,
                    snapshot_at_ms: next_snapshot(now_ms as int) as u64,
                    entered_at_ms: now_ms,
                    spot_entry_price: spot_price->0,
                    perp_entry_price: perp_price->0,
                    state: FundingState::Entered,
                },
            ),
            stats: FundingStats { last_entry_at_ms: Some(now_ms), ..m.stats },
            ..m
        }
    } else {
        m
    }
}

/// A whole tick: exit first, then entry.
pub open spec fn after_warm_tick(
    m: FundingLedgerModel,
    threshold: i64,
    now_ms: u64,
    spot_price: Option<u64>,
    perp_price: Option<u64>,
) -> FundingLedgerModel {
    after_entry_check(
        after_exit_check(m, now_ms, spot_price, perp_price),
        threshold,
        now_ms,
        spot_price,
        perp_price,
    )
}

/// What holds of a ledger between calls.
pub open spec fn funding_consistent(m: FundingLedgerModel) -> bool {
    &&& m.stats.profitable_cycles <= m.stats.total_cycles
    &&& m.stats.last_rate_bps == match m.latest {
        Some(r) => r.rate_raw,
        None => 0,
    }
    &&& m.position matches Some(p) ==> p.state == FundingState::Entered || p.state
        == FundingState::Collecting
}

/// The exit check does not run out of numbers: if it closes a cycle, the totals fit.
pub open spec fn exit_fits(m: FundingLedgerModel, now_ms: u64) -> bool {
    m.position matches Some(p) ==> hold_is_over(p, now_ms) ==> {
        &&& m.stats.total_cycles < u64::MAX
        &&& i64::MIN <= m.stats.total_funding_collected_raw + funding_profit(p) <= i64::MAX
    }
}

/// The entry check does not run out of numbers: if it looks for the next snapshot, that fits.
pub open spec fn entry_fits(m: FundingLedgerModel, threshold: i64, now_ms: u64) -> bool {
    seeks_entry(m, threshold) ==> next_snapshot(now_ms as int) <= u64::MAX
}

/// A tick does not run out of numbers.
pub open spec fn warm_tick_fits(
    m: FundingLedgerModel,
    threshold: i64,
    now_ms: u64,
    spot_price: Option<u64>,
    perp_price: Option<u64>,
) -> bool {
    &&& exit_fits(m, now_ms)
    &&& entry_fits(after_exit_check(m, now_ms, spot_price, perp_price), threshold, now_ms)
}

/// There is room for any one more cycle, whatever its rate.
pub open spec fn funding_has_room(m: FundingLedgerModel) -> bool {
    &&& m.stats.total_cycles < u64::MAX
    &&& -(i64::MAX - FUNDING_HEADROOM) <= m.stats.total_funding_collected_raw <= i64::MAX
        - FUNDING_HEADROOM
}

/// Latest rate, position and statistics.
pub struct FundingLedger {
    latest_rate: Option<FundingRateUpdate>,
    position: Option<FundingPosition>,
    stats: FundingStats,
}

impl View for FundingLedger {
    type V = FundingLedgerModel;

    closed spec fn view(&self) -> FundingLedgerModel {
        FundingLedgerModel {
            latest: match self.latest_rate {
                Some(u) => Some(rate_model(u)),
                None => None,
            },
            position: self.position,
            stats: self.stats,
        }
    }
}

/// Funding arbitrage strategy.
pub struct FundingStrategy {
    pub paper_mode: bool,
    /// Least rate for an entry, as a count of 1/10_000 bps.
    pub entry_threshold_bps: i64,
    pub ledger: FundingLedger,
}

impl FundingStrategy {
    /// The ledger is well formed.
    pub open spec fn wf(self) -> bool {
        funding_consistent(self.ledger@)
    }

    /// A strategy that knows no rate and holds no position.
    pub fn new(paper_mode: bool) -> (r: Self)
        ensures
            r.wf(),
            r.paper_mode == paper_mode,
            r.entry_threshold_bps == ENTRY_THRESHOLD_BPS,
            r.ledger@ == (FundingLedgerModel { latest: None, position: None, stats: no_stats() }),
    {
        Self {
            paper_mode,
            entry_threshold_bps: ENTRY_THRESHOLD_BPS,
            ledger: FundingLedger {
                latest_rate: None,
                position: None,
                stats: FundingStats::default(),
            },
        }
    }

    /// Takes the rate that the exchange published.
    pub fn on_funding_rate(&mut self, update: FundingRateUpdate)
        requires
            old(self).wf(),
        ensures
            final(self).wf(),
            final(self).paper_mode == old(self).paper_mode,
            final(self).entry_threshold_bps == old(self).entry_threshold_bps,
            final(self).ledger@ == (FundingLedgerModel {
                latest: Some(rate_model(update)),
                stats: FundingStats { last_rate_bps: update.rate_raw, ..old(self).ledger@.stats },
                ..old(self).ledger@
            }),
    {
        self.ledger.stats.last_rate_bps = update.rate_bps();
        self.ledger.latest_rate = Some(update);
    }

    /// The next snapshot at 00:00, 08:00 or 16:00 UTC after `now_ms`.
    pub fn next_snapshot_ms(now_ms: u64) -> (r: u64)
        requires
            next_snapshot(now_ms as int) <= u64::MAX,
        ensures
            r == next_snapshot(now_ms as int),
    {
        (now_ms / FUNDING_INTERVAL_MS + 1) * FUNDING_INTERVAL_MS
    }

    /// Books a cycle that ends at the given exit prices.
    fn paper_close(&mut self, p: FundingPosition, now_ms: u64, spot_exit: u64, perp_exit: u64) -> (r:
        FundingClose)
        requires
            old(self).wf(),
            old(self).ledger@.position == Some(p),
            hold_is_over(p, now_ms),
            exit_fits(old(self).ledger@, now_ms),
        ensures
            final(self).wf(),
            final(self).paper_mode == old(self).paper_mode,
            final(self).entry_threshold_bps == old(self).entry_threshold_bps,
            final(self).ledger@ == after_exit_check(
                old(self).ledger@,
                now_ms,
                Some(spot_exit),
                Some(perp_exit),
            ),
            is_close_report(
                Some(r),
                old(self).ledger@,
                now_ms,
                Some(spot_exit),
                Some(perp_exit),
            ),
    {
        let scale: i128 = SCALE as i128;
        let e1: i128 = p.spot_entry_price as i128;
        let e2: i128 = p.perp_entry_price as i128;
        let x1: i128 = spot_exit as i128;
        let x2: i128 = perp_exit as i128;
        let rate: i128 = p.entry_rate_raw as i128;
        proof {
            assert((x1 - e1) * FUNDING_QTY == (x1 - e1) * 1_000_000 && (e2 - x2) * FUNDING_QTY == (
            e2 - x2) * 1_000_000 && rate * FUNDING_QTY == rate * 1_000_000) by (nonlinear_arith)
                requires
                    FUNDING_QTY == 1_000_000,
            ;
            assert((e1 + e2) * FUNDING_QTY * (FUNDING_FEE_BPS * 4) == (e1 + e2) * 8_000_000)
                by (nonlinear_arith)
                requires
                    FUNDING_QTY == 1_000_000,
                    FUNDING_FEE_BPS == 2,
            ;
        }
        let spot_pnl: i128 = (x1 - e1) * 1_000_000 / scale;
        let perp_pnl: i128 = (e2 - x2) * 1_000_000 / scale;
        let funding: i128 = rate * 1_000_000 / scale;
        let fee: i128 = (e1 + e2) * 8_000_000 / 10_000 / scale;
        let total: i128 = spot_pnl + perp_pnl + funding - fee;
        self.ledger.stats.total_cycles = self.ledger.stats.total_cycles + 1;
        if total >= 0 {
            self.ledger.stats.profitable_cycles = self.ledger.stats.profitable_cycles + 1;
        }
        self.ledger.stats.total_funding_collected_raw = self.ledger.stats.total_funding_collected_raw
            + funding as i64;
        self.ledger.stats.last_exit_at_ms = Some(now_ms);
        self.ledger.position = None;
        FundingClose {
            spot_pnl_raw: spot_pnl as i64,
            perp_pnl_raw: perp_pnl as i64,
            funding_raw: funding as i64,
            fee_raw: fee as i64,
            total_pnl_raw: total as i64,
            hold_secs: now_ms.saturating_sub(p.entered_at_ms) / 1_000,
        }
    }

    /// Lets a position whose snapshot has passed collect, and closes one that has collected.
    fn check_exit(&mut self, now_ms: u64, spot_price: Option<u64>, perp_price: Option<u64>) -> (r:
        Option<FundingClose>)
        requires
            old(self).wf(),
            exit_fits(old(self).ledger@, now_ms),
        ensures
            final(self).wf(),
            final(self).paper_mode == old(self).paper_mode,
            final(self).entry_threshold_bps == old(self).entry_threshold_bps,
            final(self).ledger@ == after_exit_check(
                old(self).ledger@,
                now_ms,
                spot_price,
                perp_price,
            ),
            is_close_report(r, old(self).ledger@, now_ms, spot_price, perp_price),
    {
        let mut p = match self.ledger.position {
            Some(p) => p,
            None => return None,
        };
        match p.state {
            FundingState::Entered => {
                if now_ms >= p.snapshot_at_ms {
                    p.state = FundingState::Collecting;
                    self.ledger.position = Some(p);
                }
                None
            },
            FundingState::Collecting => {
                let hold_ms: u64 = now_ms.saturating_sub(p.snapshot_at_ms);
                if hold_ms >= MAX_HOLD_AFTER_SNAPSHOT_SECS * 1_000 {
                    let spot_exit: u64 = match spot_price {
                        Some(x) => x,
                        None => p.spot_entry_price,
                    };
                    let perp_exit: u64 = match perp_price {
                        Some(x) => x,
                        None => p.perp_entry_price,
                    };
                    Some(self.paper_close(p, now_ms, spot_exit, perp_exit))
                } else {
                    None
                }
            },
            _ => None,
        }
    }

    /// Enters a position if the moment is right.
    fn check_entry(&mut self, now_ms: u64, spot_price: Option<u64>, perp_price: Option<u64>)
        requires
            old(self).wf(),
            entry_fits(old(self).ledger@, old(self).entry_threshold_bps, now_ms),
        ensures
            final(self).wf(),
            final(self).paper_mode == old(self).paper_mode,
            final(self).entry_threshold_bps == old(self).entry_threshold_bps,
            final(self).ledger@ == after_entry_check(
                old(self).ledger@,
                old(self).entry_threshold_bps,
                now_ms,
                spot_price,
                perp_price,
            ),
    {
        if self.ledger.position.is_some() {
            return ;
        }
        let rate_raw: i64 = match &self.ledger.latest_rate {
            Some(u) => u.rate_raw,
            None => return ,
        };
        if rate_raw < self.entry_threshold_bps {
            return ;
        }
        let snapshot_at_ms: u64 = Self::next_snapshot_ms(now_ms);
        let secs_until: u64 = (snapshot_at_ms - now_ms) / 1_000;
        if secs_until > ENTRY_WINDOW_SECS || secs_until == 0 {
            return ;
        }
        if let (Some(spot), Some(perp)) = (spot_price, perp_price) {
            self.ledger.stats.last_entry_at_ms = Some(now_ms);
            self.ledger.position = Some(
                FundingPosition {
                    entry_rate_raw: rate_raw,
                    snapshot_at_ms,
                    entered_at_ms: now_ms,
                    spot_entry_price: spot,
                    perp_entry_price: perp,
                    state: FundingState::Entered,
                },
            );
        }
    }

    /// One tick: exit first, then entry. The prices are the current best prices in raw units, as
    /// far as they are known. Hands back the cycle that the tick closed.
    pub fn on_warm_tick(
        &mut self,
        now_ms: u64,
        spot_price: Option<u64>,
        perp_price: Option<u64>,
    ) -> (r: Option<FundingClose>)
        requires
            old(self).wf(),
            funding_has_room(old(self).ledger@) && now_ms <= u64::MAX - FUNDING_INTERVAL_MS
                || warm_tick_fits(
                old(self).ledger@,
                old(self).entry_threshold_bps,
                now_ms,
                spot_price,
                perp_price,
            ),
        ensures
            final(self).wf(),
            final(self).paper_mode == old(self).paper_mode,
            final(self).entry_threshold_bps == old(self).entry_threshold_bps,
            final(self).ledger@ == after_warm_tick(
                old(self).ledger@,
                old(self).entry_threshold_bps,
                now_ms,
                spot_price,
                perp_price,
            ),
            is_close_report(r, old(self).ledger@, now_ms, spot_price, perp_price),
    {
        proof {
            if funding_has_room(self.ledger@) && now_ms <= u64::MAX - FUNDING_INTERVAL_MS {
                headroom_suffices(
                    self.ledger@,
                    self.entry_threshold_bps,
                    now_ms,
                    spot_price,
                    perp_price,
                );
            }
        }
        let closed = self.check_exit(now_ms, spot_price, perp_price);
        self.check_entry(now_ms, spot_price, perp_price);
        closed
    }

    /// One tick during which a new position may be refused: the exit is checked in any case, the
    /// entry only if `may_open`.
    pub fn on_warm_tick_if(
        &mut self,
        may_open: bool,
        now_ms: u64,
        spot_price: Option<u64>,
        perp_price: Option<u64>,
    ) -> (r: Option<FundingClose>)
        requires
            old(self).wf(),
            funding_has_room(old(self).ledger@) && now_ms <= u64::MAX - FUNDING_INTERVAL_MS
                || warm_tick_fits(
                old(self).ledger@,
                old(self).entry_threshold_bps,
                now_ms,
                spot_price,
                perp_price,
            ),
        ensures
            final(self).wf(),
            final(self).paper_mode == old(self).paper_mode,
            final(self).entry_threshold_bps == old(self).entry_threshold_bps,
            final(self).ledger@ == if may_open {
                after_warm_tick(
                    old(self).ledger@,
                    old(self).entry_threshold_bps,
                    now_ms,
                    spot_price,
                    perp_price,
                )
            } else {
                after_exit_check(old(self).ledger@, now_ms, spot_price, perp_price)
            },
            is_close_report(r, old(self).ledger@, now_ms, spot_price, perp_price),
    {
        proof {
            if funding_has_room(self.ledger@) && now_ms <= u64::MAX - FUNDING_INTERVAL_MS {
                headroom_suffices(
                    self.ledger@,
                    self.entry_threshold_bps,
                    now_ms,
                    spot_price,
                    perp_price,
                );
            }
        }
        if may_open {
            self.on_warm_tick(now_ms, spot_price, perp_price)
        } else {
            self.check_exit(now_ms, spot_price, perp_price)
        }
    }

    /// There is room for any one more cycle: a tick fits whatever its prices, at any time that is
    /// at least eight hours before the end of the clock's range.
    pub fn has_headroom(&self) -> (r: bool)
        ensures
            r <==> funding_has_room(self.ledger@),
            r ==> forall|now_ms: u64, spot_price: Option<u64>, perp_price: Option<u64>|
                now_ms <= u64::MAX - FUNDING_INTERVAL_MS ==> #[trigger] warm_tick_fits(
                    self.ledger@,
                    self.entry_threshold_bps,
                    now_ms,
                    spot_price,
                    perp_price,
                ),
    {
        proof {
            if funding_has_room(self.ledger@) {
                assert forall|now_ms: u64, spot_price: Option<u64>, perp_price: Option<u64>|
                    now_ms <= u64::MAX - FUNDING_INTERVAL_MS implies #[trigger] warm_tick_fits(
                    self.ledger@,
                    self.entry_threshold_bps,
                    now_ms,
                    spot_price,
                    perp_price,
                ) by {
                    headroom_suffices(
                        self.ledger@,
                        self.entry_threshold_bps,
                        now_ms,
                        spot_price,
                        perp_price,
                    );
                }
            }
        }
        let limit: i64 = i64::MAX - FUNDING_HEADROOM;
        self.ledger.stats.total_cycles < u64::MAX && -limit
            <= self.ledger.stats.total_funding_collected_raw
            && self.ledger.stats.total_funding_collected_raw <= limit
    }

    /// Statistics so far.
    pub fn get_stats(&self) -> (r: FundingStats)
        ensures
            r == self.ledger@.stats,
    {
        self.ledger.stats
    }

    /// State of the open position.
    pub fn position_state(&self) -> (r: Option<FundingState>)
        ensures
            r == match self.ledger@.position {
                Some(p) => Some(p.state),
                None => None,
            },
    {
        match &self.ledger.position {
            Some(p) => Some(p.state),
            None => None,
        }
    }

    /// A position is open.
    pub fn is_position_open(&self) -> (r: bool)
        ensures
            r <==> self.ledger@.position is Some,
    {
        self.ledger.position.is_some()
    }

    /// Latest rate as a count of 1/10_000 bps, 0 while unknown.
    pub fn latest_rate_bps(&self) -> (r: i64)
        ensures
            r == match self.ledger@.latest {
                Some(u) => u.rate_raw,
                None => 0,
            },
    {
        match &self.ledger.latest_rate {
            Some(u) => u.rate_bps(),
            None => 0,
        }
    }
}

/// With room for any cycle, each tick fits that is at least eight hours before the end of the
/// clock's range.
pub proof fn headroom_suffices(
    m: FundingLedgerModel,
    threshold: i64,
    now_ms: u64,
    spot_price: Option<u64>,
    perp_price: Option<u64>,
)
    requires
        funding_has_room(m),
        now_ms <= u64::MAX - FUNDING_INTERVAL_MS,
    ensures
        warm_tick_fits(m, threshold, now_ms, spot_price, perp_price),
{
    if m.position is Some {
        let rate = m.position->0.entry_rate_raw as int;
        assert(rate * FUNDING_QTY == rate * 1_000_000) by (nonlinear_arith)
            requires
                FUNDING_QTY == 1_000_000,
        ;
    }
}

/// A snapshot falls on a whole multiple of eight hours since the epoch. It lies in the future, at
/// most eight hours ahead, and no other snapshot lies between.
pub proof fn snapshots_are_eight_hours_apart(now_ms: nat)
    ensures
        next_snapshot(now_ms as int) % (FUNDING_INTERVAL_MS as int) == 0,
        now_ms < next_snapshot(now_ms as int) <= now_ms + FUNDING_INTERVAL_MS,
        forall|t: int|
            now_ms < t < next_snapshot(now_ms as int) ==> #[trigger] (t % (
            FUNDING_INTERVAL_MS as int)) != 0,
{
}

/// A position is entered only for a rate that reaches the threshold, within the entry window and
/// at least a second before the snapshot.
pub proof fn entries_precede_their_snapshot(
    m: FundingLedgerModel,
    threshold: i64,
    now_ms: u64,
    spot_price: Option<u64>,
    perp_price: Option<u64>,
)
    requires
        m.position is None,
        entry_fits(m, threshold, now_ms),
    ensures
        after_warm_tick(m, threshold, now_ms, spot_price, perp_price).position matches Some(p) ==> {
            &&& p.state == FundingState::Entered
            &&& p.entry_rate_raw >= threshold
            &&& p.snapshot_at_ms == next_snapshot(now_ms as int)
            &&& 1_000 <= p.snapshot_at_ms - now_ms < (ENTRY_WINDOW_SECS + 1) * 1_000
        },
{
}

/// While new positions are refused none is entered; an open one is still left when its time has
/// come.
pub proof fn refused_entries_stay_out(
    m: FundingLedgerModel,
    now_ms: u64,
    spot_price: Option<u64>,
    perp_price: Option<u64>,
)
    ensures
        m.position is None ==> after_exit_check(m, now_ms, spot_price, perp_price) == m,
        m.position matches Some(p) && hold_is_over(p, now_ms) ==> after_exit_check(
            m,
            now_ms,
            spot_price,
            perp_price,
        ).position is None,
{
}

/// A position moves from entered to collecting to closed, never back, and is not replaced while it
/// is open: it stays as it was entered until it is closed, which takes at least two ticks and the
/// whole hold after the snapshot.
pub proof fn positions_move_forward(
    m: FundingLedgerModel,
    threshold: i64,
    now_ms: u64,
    spot_price: Option<u64>,
    perp_price: Option<u64>,
)
    requires
        funding_consistent(m),
        exit_fits(m, now_ms),
        m.position is Some,
    ensures
        ({
            let p = m.position->0;
            let next = after_warm_tick(m, threshold, now_ms, spot_price, perp_price);
            if next.stats.total_cycles == m.stats.total_cycles {
                &&& next.position is Some
                &&& next.position->0 == (FundingPosition {
                    state: if now_ms >= p.snapshot_at_ms {
                        FundingState::Collecting
                    } else {
                        p.state
                    },
                    ..p
                })
            } else {
                &&& next.stats.total_cycles == m.stats.total_cycles + 1
                &&& p.state == FundingState::Collecting
                &&& now_ms >= p.snapshot_at_ms + MAX_HOLD_AFTER_SNAPSHOT_SECS * 1_000
            }
        }),
{
}

/// A full cycle: a position that is entered before a snapshot collects on the first tick at or
/// after the snapshot, and is booked on the first tick after that once the hold is over.
pub proof fn a_cycle_completes(
    m: FundingLedgerModel,
    threshold: i64,
    enter_ms: u64,
    snap_ms: u64,
    exit_ms: u64,
    spot_price: u64,
    perp_price: u64,
    spot_later: Option<u64>,
    perp_later: Option<u64>,
)
    requires
        m.stats.total_cycles < u64::MAX,
        enters(m, threshold, enter_ms, Some(spot_price), Some(perp_price)),
        next_snapshot(enter_ms as int) <= snap_ms,
        next_snapshot(enter_ms as int) + MAX_HOLD_AFTER_SNAPSHOT_SECS * 1_000 <= exit_ms,
    ensures
        ({
            let entered = after_warm_tick(
                m,
                threshold,
                enter_ms,
                Some(spot_price),
                Some(perp_price),
            );
            let collecting = after_warm_tick(entered, threshold, snap_ms, spot_later, perp_later);
            let left = after_warm_tick(collecting, threshold, exit_ms, spot_later, perp_later);
            &&& entered.position matches Some(p) && p.state == FundingState::Entered
            &&& collecting.position matches Some(p) && p.state == FundingState::Collecting
            &&& after_exit_check(collecting, exit_ms, spot_later, perp_later).position is None
            &&& left.stats.total_cycles == m.stats.total_cycles + 1
            &&& left.stats.last_exit_at_ms == Some(exit_ms)
        }),
{
}

/// What the amounts of a cycle come to on 0.01 BTC per leg.
proof fn cycle_earns_its_distance(p: FundingPosition, spot_exit: u64, perp_exit: u64)
    ensures
        spot_profit(p, spot_exit) == trunc_div(spot_exit - p.spot_entry_price, 100),
        perp_profit(p, perp_exit) == trunc_div(p.perp_entry_price - perp_exit, 100),
        funding_profit(p) == trunc_div(p.entry_rate_raw as int, 100),
        funding_fee(p) == (p.spot_entry_price + p.perp_entry_price) / 125_000,
{
    let a = spot_exit - p.spot_entry_price;
    let b = p.perp_entry_price - perp_exit;
    let c = p.entry_rate_raw as int;
    let d = p.spot_entry_price + p.perp_entry_price;
    assert(a * FUNDING_QTY == a * 1_000_000 && b * FUNDING_QTY == b * 1_000_000 && c * FUNDING_QTY
        == c * 1_000_000 && d * FUNDING_QTY * (FUNDING_FEE_BPS * 4) == d * 8_000_000)
        by (nonlinear_arith)
        requires
            FUNDING_QTY == 1_000_000,
            FUNDING_FEE_BPS == 2,
    ;
    assert(SCALE as int == 100_000_000);
}

/// A strategy whose next tick is promised to fit can take it.
proof fn room_or_fits(
    s: FundingStrategy,
    now_ms: u64,
    spot_price: Option<u64>,
    perp_price: Option<u64>,
)
    requires
        funding_has_room(s.ledger@) && now_ms <= u64::MAX - 28_800_000 || warm_tick_fits(
            s.ledger@,
            s.entry_threshold_bps,
            now_ms,
            spot_price,
            perp_price,
        ),
    ensures
        warm_tick_fits(s.ledger@, s.entry_threshold_bps, now_ms, spot_price, perp_price),
{
    if funding_has_room(s.ledger@) && now_ms <= u64::MAX - 28_800_000 {
        headroom_suffices(s.ledger@, s.entry_threshold_bps, now_ms, spot_price, perp_price);
    }
}

/// A closed cycle books each part for what it is. The spot leg gains what the spot price rose, the
/// short perp leg what the perp price fell, each on 0.01 BTC and cut toward zero. The funding is the
/// rate at entry on 0.01 BTC. The fee is one part in 125 000 of the two entry prices, cut down. The
/// total is the legs and the funding less the fee. A price that is not known counts as unmoved.
pub proof fn cycles_book_what_they_earned(
    s: &mut FundingStrategy,
    now_ms: u64,
    spot_price: Option<u64>,
    perp_price: Option<u64>,
    r: Option<FundingClose>,
)
    requires
        old(s).wf(),
        funding_has_room(old(s).ledger@) && now_ms <= u64::MAX - 28_800_000 || warm_tick_fits(
            old(s).ledger@,
            old(s).entry_threshold_bps,
            now_ms,
            spot_price,
            perp_price,
        ),
        call_ensures(FundingStrategy::on_warm_tick, (s, now_ms, spot_price, perp_price), r),
        r is Some,
    ensures
        ({
            let p = old(s).ledger@.position->0;
            let c = r->0;
            let spot_rise = match spot_price {
                Some(x) => x - p.spot_entry_price,
                None => 0,
            };
            let perp_fall = match perp_price {
                Some(x) => p.perp_entry_price - x,
                None => 0,
            };
            &&& old(s).ledger@.position is Some
            &&& spot_rise >= 0 ==> 100 * c.spot_pnl_raw <= spot_rise < 100 * c.spot_pnl_raw + 100
            &&& spot_rise <= 0 ==> 100 * c.spot_pnl_raw - 100 < spot_rise <= 100 * c.spot_pnl_raw
            &&& perp_fall >= 0 ==> 100 * c.perp_pnl_raw <= perp_fall < 100 * c.perp_pnl_raw + 100
            &&& perp_fall <= 0 ==> 100 * c.perp_pnl_raw - 100 < perp_fall <= 100 * c.perp_pnl_raw
            &&& p.entry_rate_raw >= 0 ==> 100 * c.funding_raw <= p.entry_rate_raw < 100
                * c.funding_raw + 100
            &&& p.entry_rate_raw <= 0 ==> 100 * c.funding_raw - 100 < p.entry_rate_raw <= 100
                * c.funding_raw
            &&& c.fee_raw * 125_000 <= p.spot_entry_price + p.perp_entry_price < c.fee_raw * 125_000
                + 125_000
            &&& c.total_pnl_raw == c.spot_pnl_raw + c.perp_pnl_raw + c.funding_raw - c.fee_raw
            &&& now_ms >= p.entered_at_ms ==> c.hold_secs * 1_000 <= now_ms - p.entered_at_ms
                < c.hold_secs * 1_000 + 1_000
            &&& now_ms < p.entered_at_ms ==> c.hold_secs == 0
        }),
{
    room_or_fits(*old(s), now_ms, spot_price, perp_price);
    let p = old(s).ledger@.position->0;
    cycle_earns_its_distance(
        p,
        price_or(spot_price, p.spot_entry_price),
        price_or(perp_price, p.perp_entry_price),
    );
}

/// The perp leg is short: a higher exit price never earns it more. A fall of at least 100 raw units
/// is a gain and such a rise a loss. The spot leg is long, and the other way round. When both prices
/// move by the same amount the legs cancel, and the cycle earns its funding less its fee.
pub proof fn legs_hedge_each_other(
    s: &mut FundingStrategy,
    t: &mut FundingStrategy,
    now_ms: u64,
    spot: u64,
    perp: u64,
    other_spot: u64,
    other_perp: u64,
    r: Option<FundingClose>,
    q: Option<FundingClose>,
)
    requires
        old(s).wf(),
        old(t).wf(),
        funding_has_room(old(s).ledger@),
        old(s).ledger@ == old(t).ledger@,
        now_ms <= u64::MAX - 28_800_000,
        call_ensures(FundingStrategy::on_warm_tick, (s, now_ms, Some(spot), Some(perp)), r),
        call_ensures(
            FundingStrategy::on_warm_tick,
            (t, now_ms, Some(other_spot), Some(other_perp)),
            q,
        ),
        r is Some,
    ensures
        ({
            let p = old(s).ledger@.position->0;
            &&& q is Some
            &&& perp <= other_perp ==> r->0.perp_pnl_raw >= q->0.perp_pnl_raw
            &&& perp + 200 <= other_perp ==> r->0.perp_pnl_raw > q->0.perp_pnl_raw
            &&& spot <= other_spot ==> r->0.spot_pnl_raw <= q->0.spot_pnl_raw
            &&& spot + 200 <= other_spot ==> r->0.spot_pnl_raw < q->0.spot_pnl_raw
            &&& perp + 100 <= p.perp_entry_price ==> r->0.perp_pnl_raw > 0
            &&& perp >= p.perp_entry_price + 100 ==> r->0.perp_pnl_raw < 0
            &&& spot >= p.spot_entry_price + 100 ==> r->0.spot_pnl_raw > 0
            &&& spot + 100 <= p.spot_entry_price ==> r->0.spot_pnl_raw < 0
            &&& spot - p.spot_entry_price == perp - p.perp_entry_price ==> {
                &&& r->0.spot_pnl_raw + r->0.perp_pnl_raw == 0
                &&& r->0.total_pnl_raw == r->0.funding_raw - r->0.fee_raw
            }
            &&& r->0.fee_raw == q->0.fee_raw
            &&& r->0.funding_raw == q->0.funding_raw
        }),
{
    let p = old(s).ledger@.position->0;
    cycle_earns_its_distance(p, spot, perp);
    cycle_earns_its_distance(p, other_spot, other_perp);
}

/// A position is closed exactly when it has collected and its snapshot passed at least two minutes
/// ago. It begins to collect on the first tick at or after its snapshot. The books then count one
/// more cycle, one more profitable one exactly if its total is not negative, and the funding that
/// was collected.
pub proof fn cycles_end_after_their_snapshot(
    s: &mut FundingStrategy,
    now_ms: u64,
    spot_price: Option<u64>,
    perp_price: Option<u64>,
    r: Option<FundingClose>,
)
    requires
        old(s).wf(),
        funding_has_room(old(s).ledger@) && now_ms <= u64::MAX - 28_800_000 || warm_tick_fits(
            old(s).ledger@,
            old(s).entry_threshold_bps,
            now_ms,
            spot_price,
            perp_price,
        ),
        call_ensures(FundingStrategy::on_warm_tick, (s, now_ms, spot_price, perp_price), r),
    ensures
        r is Some <==> {
            &&& old(s).ledger@.position is Some
            &&& old(s).ledger@.position->0.state == FundingState::Collecting
            &&& now_ms >= old(s).ledger@.position->0.snapshot_at_ms + 120_000
        },
        r is None ==> {
            let before = old(s).ledger@.stats;
            &&& final(s).ledger@.stats == (FundingStats {
                last_entry_at_ms: final(s).ledger@.stats.last_entry_at_ms,
                ..before
            })
            &&& old(s).ledger@.position matches Some(p) ==> {
                &&& final(s).ledger@.stats == before
                &&& final(s).ledger@.position is Some
                &&& final(s).ledger@.position->0 == (FundingPosition {
                    state: final(s).ledger@.position->0.state,
                    ..p
                })
                &&& final(s).ledger@.position->0.state == FundingState::Collecting <==> now_ms
                    >= p.snapshot_at_ms || p.state == FundingState::Collecting
                &&& final(s).ledger@.position->0.state == FundingState::Entered <==> p.state
                    == FundingState::Entered && now_ms < p.snapshot_at_ms
            }
        },
        r matches Some(c) ==> {
            let before = old(s).ledger@.stats;
            let after = final(s).ledger@.stats;
            &&& after.total_cycles == before.total_cycles + 1
            &&& after.profitable_cycles == if c.total_pnl_raw >= 0 {
                before.profitable_cycles + 1
            } else {
                before.profitable_cycles as int
            }
            &&& after.total_funding_collected_raw == before.total_funding_collected_raw
                + c.funding_raw
            &&& after.last_exit_at_ms == Some(now_ms)
            &&& after.last_rate_bps == before.last_rate_bps
        },
        final(s).ledger@.latest == old(s).ledger@.latest,
        final(s).paper_mode == old(s).paper_mode,
        final(s).entry_threshold_bps == old(s).entry_threshold_bps,
{
    room_or_fits(*old(s), now_ms, spot_price, perp_price);
    if let Some(p) = old(s).ledger@.position {
        cycle_earns_its_distance(
            p,
            price_or(spot_price, p.spot_entry_price),
            price_or(perp_price, p.perp_entry_price),
        );
    }
}

/// Where there is no position, or one was just left, a position is entered exactly when the latest
/// rate reaches the threshold, both prices are known, and the next whole multiple of eight hours is
/// at least one second and less than 301 seconds ahead. It is entered at those prices and that rate,
/// for that snapshot.
pub proof fn cycles_begin_before_a_snapshot(
    s: &mut FundingStrategy,
    now_ms: u64,
    spot_price: Option<u64>,
    perp_price: Option<u64>,
    r: Option<FundingClose>,
    snapshot: int,
)
    requires
        old(s).wf(),
        funding_has_room(old(s).ledger@) && now_ms <= u64::MAX - 28_800_000 || warm_tick_fits(
            old(s).ledger@,
            old(s).entry_threshold_bps,
            now_ms,
            spot_price,
            perp_price,
        ),
        call_ensures(FundingStrategy::on_warm_tick, (s, now_ms, spot_price, perp_price), r),
        old(s).ledger@.position is None || r is Some,
        snapshot % 28_800_000 == 0,
        now_ms < snapshot <= now_ms + 28_800_000,
    ensures
        final(s).ledger@.position is Some <==> {
            &&& old(s).ledger@.latest is Some
            &&& old(s).ledger@.latest->0.rate_raw >= old(s).entry_threshold_bps
            &&& spot_price is Some
            &&& perp_price is Some
            &&& 1_000 <= snapshot - now_ms < 301_000
        },
        final(s).ledger@.position matches Some(p) ==> {
            &&& p.entry_rate_raw == old(s).ledger@.latest->0.rate_raw
            &&& p.snapshot_at_ms == snapshot
            &&& p.entered_at_ms == now_ms
            &&& Some(p.spot_entry_price) == spot_price
            &&& Some(p.perp_entry_price) == perp_price
            &&& p.state == FundingState::Entered
            &&& final(s).ledger@.stats.last_entry_at_ms == Some(now_ms)
        },
        final(s).ledger@.position is None ==> final(s).ledger@.stats.last_entry_at_ms == old(s).ledger@.stats.last_entry_at_ms,
{
    room_or_fits(*old(s), now_ms, spot_price, perp_price);
    assert(next_snapshot(now_ms as int) == snapshot);
}

/// The next snapshot is the first whole multiple of eight hours since the epoch that lies ahead.
pub proof fn next_snapshot_is_the_first_ahead(now_ms: u64, r: u64)
    requires
        now_ms <= u64::MAX - 28_800_000,
        call_ensures(FundingStrategy::next_snapshot_ms, (now_ms,), r),
    ensures
        r % 28_800_000 == 0,
        now_ms < r <= now_ms + 28_800_000,
{
}

/// A tick that may open is any tick. One that may not closes what any tick closes, books the same,
/// lets a position collect as any tick does, and enters nothing.
pub proof fn refused_ticks_still_close(
    s: &mut FundingStrategy,
    t: &mut FundingStrategy,
    may_open: bool,
    now_ms: u64,
    spot_price: Option<u64>,
    perp_price: Option<u64>,
    r: Option<FundingClose>,
    q: Option<FundingClose>,
)
    requires
        old(s).wf(),
        old(t).wf(),
        funding_has_room(old(s).ledger@),
        old(s).ledger@ == old(t).ledger@,
        old(s).entry_threshold_bps == old(t).entry_threshold_bps,
        now_ms <= u64::MAX - 28_800_000,
        call_ensures(
            FundingStrategy::on_warm_tick_if,
            (s, may_open, now_ms, spot_price, perp_price),
            r,
        ),
        call_ensures(FundingStrategy::on_warm_tick, (t, now_ms, spot_price, perp_price), q),
    ensures
        r is Some <==> q is Some,
        r is Some ==> r->0 == q->0,
        may_open ==> final(s).ledger@ == final(t).ledger@,
        !may_open && old(s).ledger@.position is None ==> final(s).ledger@ == old(s).ledger@,
        !may_open && r is Some ==> final(s).ledger@.position is None && final(s).ledger@.stats
            == (FundingStats {
            last_entry_at_ms: old(s).ledger@.stats.last_entry_at_ms,
            ..final(t).ledger@.stats
        }),
        !may_open && r is None && old(s).ledger@.position is Some ==> final(s).ledger@ == final(t).ledger@,
{
    if r is Some {
        assert(r->0 == q->0);
    }
}

/// The rate that was published last is the one a position is entered at: it replaces the rate
/// before it and changes neither the position nor the counts.
pub proof fn latest_rate_counts(
    s: &mut FundingStrategy,
    update: FundingRateUpdate,
)
    requires
        old(s).wf(),
        call_ensures(FundingStrategy::on_funding_rate, (s, update), ()),
    ensures
        final(s).ledger@.latest is Some,
        final(s).ledger@.latest->0.rate_raw == update.rate_raw,
        final(s).ledger@.latest->0.timestamp_ms == update.timestamp_ms,
        final(s).ledger@.latest->0.contract == update.contract@,
        final(s).ledger@.stats == (FundingStats {
            last_rate_bps: update.rate_raw,
            ..old(s).ledger@.stats
        }),
        final(s).ledger@.position == old(s).ledger@.position,
        final(s).paper_mode == old(s).paper_mode,
        final(s).entry_threshold_bps == old(s).entry_threshold_bps,
{
}

/// A strategy starts without a rate and a position, asks for half a basis point to enter, and tells
/// what it holds. It has room for a cycle exactly if one more can be counted and its funding added,
/// whatever the rate.
pub proof fn funding_starts_flat_and_tells_what_it_holds(
    paper: bool,
    new: FundingStrategy,
    s: FundingStrategy,
    stats: FundingStats,
    state: Option<FundingState>,
    open: bool,
    rate: i64,
    room: bool,
)
    requires
        call_ensures(FundingStrategy::new, (paper,), new),
        call_ensures(FundingStrategy::get_stats, (&s,), stats),
        call_ensures(FundingStrategy::position_state, (&s,), state),
        call_ensures(FundingStrategy::is_position_open, (&s,), open),
        call_ensures(FundingStrategy::latest_rate_bps, (&s,), rate),
        call_ensures(FundingStrategy::has_headroom, (&s,), room),
    ensures
        new.paper_mode == paper,
        new.entry_threshold_bps == 5_000,
        new.ledger@.latest is None && new.ledger@.position is None,
        new.ledger@.stats.total_cycles == 0 && new.ledger@.stats.profitable_cycles == 0,
        new.ledger@.stats.total_funding_collected_raw == 0 && new.ledger@.stats.last_rate_bps == 0,
        new.ledger@.stats.last_entry_at_ms is None && new.ledger@.stats.last_exit_at_ms is None,
        stats == s.ledger@.stats,
        open <==> s.ledger@.position is Some,
        state is Some <==> open,
        s.ledger@.position matches Some(p) ==> state == Some(p.state),
        s.ledger@.latest is None ==> rate == 0,
        s.ledger@.latest matches Some(u) ==> rate == u.rate_raw,
        room <==> s.ledger@.stats.total_cycles < 0xffff_ffff_ffff_ffff
            && -9_123_372_036_854_775_807 <= s.ledger@.stats.total_funding_collected_raw
            <= 9_123_372_036_854_775_807,
{
}

} // verus!
