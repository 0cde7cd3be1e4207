//! Position safety: drawdown limit, position limit, kill switch, connection latency.
//!
//! Kill switch and latency always block new positions. Drawdown and position limits block in live
//! mode and are advisory in paper mode.

use vstd::prelude::*;
use vstd::utf8::*;

use crate::decimal::{
    append_decimal, append_signed, decimal, number_or, parse_uint, signed_decimal,
};
use crate::decimal::{parse_u64, parse_usize};
use crate::json::{append_json_bool, json_bool};

verus! {

/// Risk limits.
#[derive(Debug, Clone, Copy, PartialEq, Eq, Structural)]
pub struct RiskConfig {
    /// Largest drawdown in raw units.
    pub max_drawdown_raw: i64,
    /// Most positions that may be open at once.
    pub max_positions: usize,
    /// Highest tolerable ping latency in milliseconds.
    pub ping_threshold_ms: u64,
}

/// The limits that hold unless others are set.
pub open spec fn default_limits() -> RiskConfig {
    RiskConfig { max_drawdown_raw: 10_000_000_000, max_positions: 3, ping_threshold_ms: 100 }
}

impl Default for RiskConfig {
    fn default() -> (r: Self)
        ensures
            r == default_limits(),
    {
        RiskConfig { max_drawdown_raw: 10_000_000_000, max_positions: 3, ping_threshold_ms: 100 }
    }
}

/// The text of an optional string.
pub open spec fn text_of(s: Option<&str>) -> Option<Seq<char>> {
    match s {
        Some(t) => Some(t@),
        None => None,
    }
}

impl RiskConfig {
    /// Limits from settings: the drawdown in raw units, the others as text. A setting that is
    /// missing or no number takes its default.
    pub fn from_vars(
        max_drawdown_raw: Option<i64>,
        max_positions: Option<&str>,
        ping_threshold_ms: Option<&str>,
    ) -> (r: Self)
        ensures
            r.max_drawdown_raw == match max_drawdown_raw {
                Some(d) => d,
                None => default_limits().max_drawdown_raw,
            },
            r.max_positions == number_or(text_of(max_positions), usize::MAX as nat, 3),
            r.ping_threshold_ms == number_or(text_of(ping_threshold_ms), u64::MAX as nat, 100),
    {
        let defaults = RiskConfig::default();
        RiskConfig {
            max_drawdown_raw: match max_drawdown_raw {
                Some(d) => d,
                None => defaults.max_drawdown_raw,
            },
            max_positions: match max_positions {
                Some(s) => match parse_usize(s) {
                    Some(n) => n,
                    None => defaults.max_positions,
                },
                None => defaults.max_positions,
            },
            ping_threshold_ms: match ping_threshold_ms {
                Some(s) => match parse_u64(s) {
                    Some(n) => n,
                    None => defaults.ping_threshold_ms,
                },
                None => defaults.ping_threshold_ms,
            },
        }
    }
}

/// Outcome of a risk check: every condition that is violated.
#[derive(Debug, Clone, Copy, PartialEq, Eq, Structural)]
pub struct RiskViolations {
    pub drawdown_exceeded: bool,
    pub max_positions_exceeded: bool,
    pub high_latency: bool,
    pub kill_switch_active: bool,
}

impl Default for RiskViolations {
    fn default() -> (r: Self)
        ensures
            r.all_clear(),
    {
        RiskViolations {
            drawdown_exceeded: false,
            max_positions_exceeded: false,
            high_latency: false,
            kill_switch_active: false,
        }
    }
}

impl RiskViolations {
    /// No condition is violated.
    pub open spec fn all_clear(self) -> bool {
        &&& !self.drawdown_exceeded
        &&& !self.max_positions_exceeded
        &&& !self.high_latency
        &&& !self.kill_switch_active
    }

    /// No condition is violated.
    pub fn is_ok(&self) -> (r: bool)
        ensures
            r <==> self.all_clear(),
    {
        !self.drawdown_exceeded && !self.max_positions_exceeded && !self.high_latency
            && !self.kill_switch_active
    }

    /// The most serious violation: kill switch, then latency, then positions, then drawdown.
    pub fn reason(&self) -> (r: Option<&'static str>)
        ensures
            r is None <==> self.all_clear(),
            r matches Some(s) ==> s@ == if self.kill_switch_active {
                "kill_switch"@
            } else if self.high_latency {
                "high_latency"@
            } else if self.max_positions_exceeded {
                "max_positions"@
            } else {
                "drawdown_exceeded"@
            },
    {
        if self.kill_switch_active {
            Some("kill_switch")
        } else if self.high_latency {
            Some("high_latency")
        } else if self.max_positions_exceeded {
            Some("max_positions")
        } else if self.drawdown_exceeded {
            Some("drawdown_exceeded")
        } else {
            None
        }
    }
}

/// Everything a risk manager holds.
pub struct RiskModel {
    pub kill_switch: bool,
    pub position_count: usize,
    /// Highest cumulative profit so far, at least 0.
    pub peak_pnl: i64,
    pub cumulative_pnl: i64,
    pub last_ping_ms: u64,
    pub config: RiskConfig,
    pub paper_mode: bool,
}

/// The peak after the cumulative profit becomes `pnl`.
pub open spec fn peak_after(m: RiskModel, pnl: int) -> int {
    if pnl > m.peak_pnl {
        pnl
    } else {
        m.peak_pnl as int
    }
}

/// Loss from the peak.
pub open spec fn drawdown(m: RiskModel) -> int {
    m.peak_pnl - m.cumulative_pnl
}

/// The conditions that are violated.
pub open spec fn violations(m: RiskModel) -> RiskViolations {
    RiskViolations {
        drawdown_exceeded: drawdown(m) > m.config.max_drawdown_raw,
        max_positions_exceeded: m.position_count >= m.config.max_positions,
        high_latency: m.last_ping_ms > m.config.ping_threshold_ms,
        kill_switch_active: m.kill_switch,
    }
}

/// A new position may be opened.
pub open spec fn may_open(m: RiskModel) -> bool {
    if m.paper_mode {
        !violations(m).kill_switch_active && !violations(m).high_latency
    } else {
        violations(m).all_clear()
    }
}

/// Risk status for the health endpoint and logs.
#[derive(Debug, Clone, Copy, PartialEq, Eq, Structural)]
pub struct RiskStatus {
    pub kill_switch: bool,
    pub position_count: usize,
    pub max_positions: usize,
    pub drawdown_raw: i64,
    pub max_drawdown_raw: i64,
    pub last_ping_ms: u64,
    pub ping_threshold_ms: u64,
    pub cumulative_pnl: i64,
}

/// A risk status as JSON.
pub open spec fn status_json(s: RiskStatus) -> Seq<char> {
    "{\"kill_switch\":"@ + json_bool(s.kill_switch) + ",\"position_count\":"@ + decimal(
        s.position_count as nat,
    ) + ",\"max_positions\":"@ + decimal(s.max_positions as nat) + ",\"drawdown_raw\":"@
        + signed_decimal(s.drawdown_raw as int) + ",\"max_drawdown_raw\":"@ + signed_decimal(
        s.max_drawdown_raw as int,
    ) + ",\"last_ping_ms\":"@ + decimal(s.last_ping_ms as nat) + ",\"ping_threshold_ms\":"@
        + decimal(s.ping_threshold_ms as nat) + ",\"cumulative_pnl\":"@ + signed_decimal(
        s.cumulative_pnl as int,
    ) + "}"@
}

impl RiskStatus {
    /// The status as JSON.
    pub fn to_json(&self) -> (r: String)
        ensures
            r@ == status_json(*self),
    {
        let mut out = String::new();
        out.append("{\"kill_switch\":");
        append_json_bool(&mut out, self.kill_switch);
        out.append(",\"position_count\":");
        append_decimal(&mut out, self.position_count as u64);
        out.append(",\"max_positions\":");
        append_decimal(&mut out, self.max_positions as u64);
        out.append(",\"drawdown_raw\":");
        append_signed(&mut out, self.drawdown_raw);
        out.append(",\"max_drawdown_raw\":");
        append_signed(&mut out, self.max_drawdown_raw);
        out.append(",\"last_ping_ms\":");
        append_decimal(&mut out, self.last_ping_ms);
        out.append(",\"ping_threshold_ms\":");
        append_decimal(&mut out, self.ping_threshold_ms);
        out.append(",\"cumulative_pnl\":");
        append_signed(&mut out, self.cumulative_pnl);
        out.append("}");
        assert(out@ =~= status_json(*self));
        out
    }
}

/// Central risk manager.
pub struct RiskManager {
    kill_switch: bool,
    position_count: usize,
    peak_pnl: i64,
    cumulative_pnl: i64,
    last_ping_ms: u64,
    config: RiskConfig,
    paper_mode: bool,
}

impl View for RiskManager {
    type V = RiskModel;

    closed spec fn view(&self) -> RiskModel {
        RiskModel {
            kill_switch: self.kill_switch,
            position_count: self.position_count,
            peak_pnl: self.peak_pnl,
            cumulative_pnl: self.cumulative_pnl,
            last_ping_ms: self.last_ping_ms,
            config: self.config,
            paper_mode: self.paper_mode,
        }
    }
}

/// A manager before anything happened, in paper mode.
pub open spec fn fresh(config: RiskConfig) -> RiskModel {
    RiskModel {
        kill_switch: false,
        position_count: 0,
        peak_pnl: 0,
        cumulative_pnl: 0,
        last_ping_ms: 0,
        config,
        paper_mode: true,
    }
}

impl Default for RiskManager {
    fn default() -> (r: Self)
        ensures
            r.wf(),
            r@ == fresh(default_limits()),
    {
        Self::new(RiskConfig::default())
    }
}

impl RiskManager {
    /// The peak is the high-water mark: never below 0 or the current profit.
    pub open spec fn wf(self) -> bool {
        &&& self@.peak_pnl >= 0
        &&& self@.peak_pnl >= self@.cumulative_pnl
    }

    /// A manager with these limits, in paper mode.
    pub fn new(config: RiskConfig) -> (r: Self)
        ensures
            r.wf(),
            r@ == fresh(config),
    {
        Self {
            kill_switch: false,
            position_count: 0,
            peak_pnl: 0,
            cumulative_pnl: 0,
            last_ping_ms: 0,
            config,
            paper_mode: true,
        }
    }

    /// Sets or leaves paper mode.
    pub fn set_paper_mode(&mut self, paper: bool)
        requires
            old(self).wf(),
        ensures
            final(self).wf(),
            final(self)@ == (RiskModel { paper_mode: paper, ..old(self)@ }),
    {
        self.paper_mode = paper;
    }

    /// Whether the drawdown fits in 64 bits.
    pub fn drawdown_fits(&self) -> (r: bool)
        ensures
            r <==> drawdown(self@) <= i64::MAX,
    {
        self.peak_pnl as i128 - self.cumulative_pnl as i128 <= i64::MAX as i128
    }

    /// Adds the profit of a closed trade.
    pub fn update_pnl(&mut self, realized_pnl: i64)
        requires
            old(self).wf(),
            i64::MIN <= old(self)@.cumulative_pnl + realized_pnl <= i64::MAX,
        ensures
            final(self).wf(),
            final(self)@ == (RiskModel {
                cumulative_pnl: (old(self)@.cumulative_pnl + realized_pnl) as i64,
                peak_pnl: peak_after(
                    old(self)@,
                    old(self)@.cumulative_pnl + realized_pnl,
                ) as i64,
                ..old(self)@
            }),
    {
        let pnl: i64 = self.cumulative_pnl + realized_pnl;
        self.sync_cumulative_pnl(pnl);
    }

    /// Sets the cumulative profit, as on recovery.
    pub fn sync_cumulative_pnl(&mut self, pnl: i64)
        requires
            old(self).wf(),
        ensures
            final(self).wf(),
            final(self)@ == (RiskModel {
                cumulative_pnl: pnl,
                peak_pnl: peak_after(old(self)@, pnl as int) as i64,
                ..old(self)@
            }),
    {
        self.cumulative_pnl = pnl;
        if pnl > self.peak_pnl {
            self.peak_pnl = pnl;
        }
    }

    /// Notes that a position was opened.
    pub fn position_opened(&mut self)
        requires
            old(self).wf(),
            old(self)@.position_count < usize::MAX,
        ensures
            final(self).wf(),
            final(self)@ == (RiskModel {
                position_count: (old(self)@.position_count + 1) as usize,
                ..old(self)@
            }),
    {
        self.position_count = self.position_count + 1;
    }

    /// Notes that a position was closed. With no position open nothing changes.
    pub fn position_closed(&mut self)
        requires
            old(self).wf(),
        ensures
            final(self).wf(),
            final(self)@ == (RiskModel {
                position_count: if old(self)@.position_count > 0 {
                    (old(self)@.position_count - 1) as usize
                } else {
                    0
                },
                ..old(self)@
            }),
    {
        self.position_count = self.position_count.saturating_sub(1);
    }

    /// Notes the latest ping latency in milliseconds.
    pub fn update_ping_latency(&mut self, latency_ms: u64)
        requires
            old(self).wf(),
        ensures
            final(self).wf(),
            final(self)@ == (RiskModel { last_ping_ms: latency_ms, ..old(self)@ }),
    {
        self.last_ping_ms = latency_ms;
    }

    /// Activates the kill switch. Hands back whether it was active before.
    pub fn activate_kill_switch(&mut self) -> (r: bool)
        requires
            old(self).wf(),
        ensures
            final(self).wf(),
            r == old(self)@.kill_switch,
            final(self)@ == (RiskModel { kill_switch: true, ..old(self)@ }),
    {
        let before = self.kill_switch;
        self.kill_switch = true;
        before
    }

    /// Releases the kill switch.
    pub fn deactivate_kill_switch(&mut self)
        requires
            old(self).wf(),
        ensures
            final(self).wf(),
            final(self)@ == (RiskModel { kill_switch: false, ..old(self)@ }),
    {
        self.kill_switch = false;
    }

    /// The kill switch is active.
    pub fn is_kill_switch_active(&self) -> (r: bool)
        ensures
            r == self@.kill_switch,
    {
        self.kill_switch
    }

    /// Number of open positions.
    pub fn position_count(&self) -> (r: usize)
        ensures
            r == self@.position_count,
    {
        self.position_count
    }

    /// Loss from the peak in raw units. It must fit: see `drawdown_fits`.
    pub fn current_drawdown_raw(&self) -> (r: i64)
        requires
            self.wf(),
            drawdown(self@) <= i64::MAX,
        ensures
            r == drawdown(self@),
            r >= 0,
    {
        self.peak_pnl - self.cumulative_pnl
    }

    /// Checks all conditions.
    pub fn check(&self) -> (r: RiskViolations)
        requires
            self.wf(),
        ensures
            r == violations(self@),
    {
        let loss: i128 = self.peak_pnl as i128 - self.cumulative_pnl as i128;
        RiskViolations {
            drawdown_exceeded: loss > self.config.max_drawdown_raw as i128,
            max_positions_exceeded: self.position_count >= self.config.max_positions,
            high_latency: self.last_ping_ms > self.config.ping_threshold_ms,
            kill_switch_active: self.kill_switch,
        }
    }

    /// A new position may be opened.
    pub fn can_open_position(&self) -> (r: bool)
        requires
            self.wf(),
        ensures
            r <==> may_open(self@),
    {
        let v = self.check();
        if self.paper_mode {
            !v.kill_switch_active && !v.high_latency
        } else {
            v.is_ok()
        }
    }

    /// Status for the health endpoint and logs. The drawdown must fit: see `drawdown_fits`.
    pub fn status(&self) -> (r: RiskStatus)
        requires
            self.wf(),
            drawdown(self@) <= i64::MAX,
        ensures
            r == (RiskStatus {
                kill_switch: self@.kill_switch,
                position_count: self@.position_count,
                max_positions: self@.config.max_positions,
                drawdown_raw: drawdown(self@) as i64,
                max_drawdown_raw: self@.config.max_drawdown_raw,
                last_ping_ms: self@.last_ping_ms,
                ping_threshold_ms: self@.config.ping_threshold_ms,
                cumulative_pnl: self@.cumulative_pnl,
            }),
    {
        RiskStatus {
            kill_switch: self.kill_switch,
            position_count: self.position_count,
            max_positions: self.config.max_positions,
            drawdown_raw: self.current_drawdown_raw(),
            max_drawdown_raw: self.config.max_drawdown_raw,
            last_ping_ms: self.last_ping_ms,
            ping_threshold_ms: self.config.ping_threshold_ms,
            cumulative_pnl: self.cumulative_pnl,
        }
    }
}

/// Kill switch and latency block in either mode; drawdown and position limits block in live mode
/// only. What live mode allows, paper mode allows too.
pub proof fn modes_differ_in_advisory_limits(m: RiskModel)
    ensures
        m.kill_switch ==> !may_open(m),
        m.last_ping_ms > m.config.ping_threshold_ms ==> !may_open(m),
        !m.paper_mode && drawdown(m) > m.config.max_drawdown_raw ==> !may_open(m),
        !m.paper_mode && m.position_count >= m.config.max_positions ==> !may_open(m),
        may_open(RiskModel { paper_mode: false, ..m }) ==> may_open(
            RiskModel { paper_mode: true, ..m },
        ),
{
}

/// The manager after booking profits one after another.
pub open spec fn book_all(m: RiskModel, pnls: Seq<i64>) -> RiskModel
    decreases pnls.len(),
{
    if pnls.len() == 0 {
        m
    } else {
        let before = book_all(m, pnls.drop_last());
        let pnl = before.cumulative_pnl + pnls.last();
        RiskModel {
            cumulative_pnl: pnl as i64,
            peak_pnl: peak_after(before, pnl) as i64,
            ..before
        }
    }
}

/// The sum of some profits.
pub open spec fn pnl_sum(pnls: Seq<i64>) -> int
    decreases pnls.len(),
{
    if pnls.len() == 0 {
        0
    } else {
        pnl_sum(pnls.drop_last()) + pnls.last()
    }
}

/// The cumulative profit fits after each booking of a sequence.
pub open spec fn sums_fit(start: int, pnls: Seq<i64>) -> bool {
    forall|i: int|
        0 <= i <= pnls.len() ==> i64::MIN <= start + #[trigger] pnl_sum(pnls.take(i)) <= i64::MAX
}

/// After any sequence of bookings the cumulative profit is the start plus their sum. The peak is
/// the high-water mark: at least the cumulative profit at each moment, and either one of those or
/// the peak at the start. Nothing else changes.
pub proof fn peak_is_a_high_water_mark(m: RiskModel, pnls: Seq<i64>)
    requires
        m.peak_pnl >= m.cumulative_pnl,
        sums_fit(m.cumulative_pnl as int, pnls),
    ensures
        ({
            let end = book_all(m, pnls);
            &&& end == (RiskModel {
                cumulative_pnl: end.cumulative_pnl,
                peak_pnl: end.peak_pnl,
                ..m
            })
            &&& end.cumulative_pnl == m.cumulative_pnl + pnl_sum(pnls)
            &&& end.peak_pnl >= m.peak_pnl
            &&& forall|i: int|
                0 <= i <= pnls.len() ==> m.cumulative_pnl + #[trigger] pnl_sum(pnls.take(i))
                    <= end.peak_pnl
            &&& end.peak_pnl == m.peak_pnl || exists|i: int|
                0 <= i <= pnls.len() && m.cumulative_pnl + #[trigger] pnl_sum(pnls.take(i))
                    == end.peak_pnl
        }),
    decreases pnls.len(),
{
    assert(pnls.take(pnls.len() as int) =~= pnls);
    if pnls.len() == 0 {
        assert(pnl_sum(pnls.take(0)) == 0);
        assert forall|i: int| 0 <= i <= pnls.len() implies m.cumulative_pnl + #[trigger] pnl_sum(
            pnls.take(i),
        ) <= m.peak_pnl by {
            assert(pnls.take(i) =~= pnls);
        }
    } else {
        let init = pnls.drop_last();
        assert forall|i: int| 0 <= i <= init.len() implies #[trigger] init.take(i) == pnls.take(
            i,
        ) by {
            assert(init.take(i) =~= pnls.take(i));
        }
        assert(sums_fit(m.cumulative_pnl as int, init)) by {
            assert forall|i: int| 0 <= i <= init.len() implies i64::MIN <= m.cumulative_pnl
                + #[trigger] pnl_sum(init.take(i)) <= i64::MAX by {
                assert(init.take(i) == pnls.take(i));
            }
        }
        peak_is_a_high_water_mark(m, init);
        let before = book_all(m, init);
        let end = book_all(m, pnls);
        let total = m.cumulative_pnl + pnl_sum(pnls);
        assert(pnl_sum(pnls.take(pnls.len() as int)) == pnl_sum(pnls));
        assert(end.cumulative_pnl == total);
        assert forall|i: int| 0 <= i <= pnls.len() implies m.cumulative_pnl + #[trigger] pnl_sum(
            pnls.take(i),
        ) <= end.peak_pnl by {
            if i < pnls.len() {
                assert(init.take(i) == pnls.take(i));
                assert(m.cumulative_pnl + pnl_sum(init.take(i)) <= before.peak_pnl);
            }
        }
        if end.peak_pnl != m.peak_pnl {
            if total > before.peak_pnl {
                assert(m.cumulative_pnl + pnl_sum(pnls.take(pnls.len() as int)) == end.peak_pnl);
            } else {
                let i = choose|i: int|
                    0 <= i <= init.len() && m.cumulative_pnl + #[trigger] pnl_sum(init.take(i))
                        == before.peak_pnl;
                assert(init.take(i) == pnls.take(i));
                assert(m.cumulative_pnl + pnl_sum(pnls.take(i)) == end.peak_pnl);
            }
        }
    }
}

/// From a fresh manager on, the drawdown is the highest cumulative profit at any moment, the start
/// at 0 included, minus the current one: it is the largest of the losses from some moment to now.
/// So it is never negative, and it is 0 exactly when no moment was higher.
pub proof fn drawdown_is_the_largest_loss(config: RiskConfig, pnls: Seq<i64>)
    requires
        sums_fit(0, pnls),
    ensures
        ({
            let loss = drawdown(book_all(fresh(config), pnls));
            &&& forall|i: int|
                0 <= i <= pnls.len() ==> #[trigger] pnl_sum(pnls.take(i)) - pnl_sum(pnls) <= loss
            &&& exists|i: int|
                0 <= i <= pnls.len() && #[trigger] pnl_sum(pnls.take(i)) - pnl_sum(pnls) == loss
            &&& loss >= 0
            &&& loss == 0 <==> forall|i: int|
                0 <= i <= pnls.len() ==> #[trigger] pnl_sum(pnls.take(i)) <= pnl_sum(pnls)
        }),
{
    let m = fresh(config);
    peak_is_a_high_water_mark(m, pnls);
    let end = book_all(m, pnls);
    assert(pnls.take(0) =~= Seq::<i64>::empty());
    assert(pnl_sum(pnls.take(0)) == 0);
    assert(pnls.take(pnls.len() as int) =~= pnls);
    assert forall|i: int| 0 <= i <= pnls.len() implies #[trigger] pnl_sum(pnls.take(i)) - pnl_sum(
        pnls,
    ) <= drawdown(end) by {
        assert(m.cumulative_pnl + pnl_sum(pnls.take(i)) <= end.peak_pnl);
    }
    let top = if end.peak_pnl == 0 {
        0
    } else {
        choose|i: int|
            0 <= i <= pnls.len() && m.cumulative_pnl + #[trigger] pnl_sum(pnls.take(i))
                == end.peak_pnl
    };
    assert(pnl_sum(pnls.take(top)) - pnl_sum(pnls) == drawdown(end));
    assert(pnl_sum(pnls.take(pnls.len() as int)) - pnl_sum(pnls) <= drawdown(end));
}

/// Each violation is reported exactly when its limit is crossed: the drawdown when the loss from
/// the highest profit exceeds the largest one allowed, the positions when no more may be open, the
/// latency when the latest ping took longer than tolerable, the kill switch when it is active.
pub proof fn violations_cross_their_limits(m: RiskManager, r: RiskViolations)
    requires
        m.wf(),
        call_ensures(RiskManager::check, (&m,), r),
    ensures
        r.drawdown_exceeded <==> m@.peak_pnl - m@.cumulative_pnl > m@.config.max_drawdown_raw,
        r.max_positions_exceeded <==> m@.position_count >= m@.config.max_positions,
        r.high_latency <==> m@.last_ping_ms > m@.config.ping_threshold_ms,
        r.kill_switch_active <==> m@.kill_switch,
{
}

/// In live mode a position may be opened exactly when the kill switch is off, the latency is at most
/// its threshold, fewer positions are open than may be, and the loss from the peak is at most the
/// largest one allowed. In paper mode the first two are enough.
pub proof fn positions_open_within_the_limits(m: RiskManager, r: bool)
    requires
        m.wf(),
        call_ensures(RiskManager::can_open_position, (&m,), r),
    ensures
        !m@.paper_mode ==> (r <==> {
            &&& !m@.kill_switch
            &&& m@.last_ping_ms <= m@.config.ping_threshold_ms
            &&& m@.position_count < m@.config.max_positions
            &&& m@.peak_pnl - m@.cumulative_pnl <= m@.config.max_drawdown_raw
        }),
        m@.paper_mode ==> (r <==> {
            &&& !m@.kill_switch
            &&& m@.last_ping_ms <= m@.config.ping_threshold_ms
        }),
{
}

/// In live mode a position may be opened exactly when a check finds nothing, and then no reason is
/// given. A reason names a violation that was found, and none that is more serious was.
pub proof fn reasons_name_the_worst_violation(
    m: RiskManager,
    v: RiskViolations,
    ok: bool,
    may: bool,
    reason: Option<&'static str>,
)
    requires
        m.wf(),
        call_ensures(RiskManager::check, (&m,), v),
        call_ensures(RiskViolations::is_ok, (&v,), ok),
        call_ensures(RiskViolations::reason, (&v,), reason),
        call_ensures(RiskManager::can_open_position, (&m,), may),
    ensures
        ok <==> !v.kill_switch_active && !v.high_latency && !v.max_positions_exceeded
            && !v.drawdown_exceeded,
        ok <==> reason is None,
        !m@.paper_mode ==> (may <==> ok),
        m@.paper_mode && ok ==> may,
        reason matches Some(w) ==> {
            &&& v.kill_switch_active ==> w@ == "kill_switch"@
            &&& !v.kill_switch_active && v.high_latency ==> w@ == "high_latency"@
            &&& !v.kill_switch_active && !v.high_latency && v.max_positions_exceeded ==> w@
                == "max_positions"@
            &&& !v.kill_switch_active && !v.high_latency && !v.max_positions_exceeded ==> w@
                == "drawdown_exceeded"@ && v.drawdown_exceeded
        },
{
}

/// Booking a profit adds it to the total; setting the total replaces it. Either way the peak rises
/// to a total above it and never falls, and nothing else changes.
pub proof fn profits_move_total_and_peak(
    m: &mut RiskManager,
    n: &mut RiskManager,
    profit: i64,
    total: i64,
)
    requires
        old(m).wf(),
        old(n).wf(),
        i64::MIN <= old(m)@.cumulative_pnl + profit <= i64::MAX,
        call_ensures(RiskManager::update_pnl, (m, profit), ()),
        call_ensures(RiskManager::sync_cumulative_pnl, (n, total), ()),
    ensures
        final(m)@.cumulative_pnl == old(m)@.cumulative_pnl + profit,
        final(m)@.peak_pnl >= old(m)@.peak_pnl,
        final(m)@.peak_pnl >= final(m)@.cumulative_pnl,
        final(m)@.peak_pnl == old(m)@.peak_pnl || final(m)@.peak_pnl == final(m)@.cumulative_pnl,
        final(m)@ == (RiskModel {
            cumulative_pnl: final(m)@.cumulative_pnl,
            peak_pnl: final(m)@.peak_pnl,
            ..old(m)@
        }),
        final(n)@.cumulative_pnl == total,
        final(n)@.peak_pnl >= old(n)@.peak_pnl,
        final(n)@.peak_pnl >= total,
        final(n)@.peak_pnl == old(n)@.peak_pnl || final(n)@.peak_pnl == total,
        final(n)@ == (RiskModel {
            cumulative_pnl: total,
            peak_pnl: final(n)@.peak_pnl,
            ..old(n)@
        }),
{
}

/// A position that is opened and closed again leaves the count as it was. Opening counts one up;
/// closing counts one down, but never below zero. Nothing else changes.
pub proof fn positions_are_counted(m: &mut RiskManager, n: &mut RiskManager)
    requires
        old(m).wf(),
        old(n).wf(),
        old(m)@.position_count < usize::MAX,
        call_ensures(RiskManager::position_opened, (m,), ()),
        call_ensures(RiskManager::position_closed, (n,), ()),
    ensures
        final(m)@.position_count == old(m)@.position_count + 1,
        final(m)@ == (RiskModel { position_count: final(m)@.position_count, ..old(m)@ }),
        old(n)@.position_count > 0 ==> final(n)@.position_count == old(n)@.position_count - 1,
        old(n)@.position_count == 0 ==> final(n)@.position_count == 0,
        final(n)@ == (RiskModel { position_count: final(n)@.position_count, ..old(n)@ }),
        old(n)@ == final(m)@ ==> final(n)@ == old(m)@,
{
}

/// While the kill switch is active no position may be opened, whatever else happens; once it is
/// released the other limits decide. Switching changes nothing else.
pub proof fn kill_switch_blocks(m: &mut RiskManager, n: &mut RiskManager, was: bool, r: bool)
    requires
        old(m).wf(),
        old(n).wf(),
        call_ensures(RiskManager::activate_kill_switch, (m,), was),
        call_ensures(RiskManager::deactivate_kill_switch, (n,), ()),
        call_ensures(RiskManager::can_open_position, (&*final(m),), r),
    ensures
        !r,
        was == old(m)@.kill_switch,
        final(m)@.kill_switch,
        final(m)@ == (RiskModel { kill_switch: true, ..old(m)@ }),
        !final(n)@.kill_switch,
        final(n)@ == (RiskModel { kill_switch: false, ..old(n)@ }),
{
}

/// The latest ping decides on the latency: a slower one than tolerable blocks, a later one that is
/// quick enough no longer does.
pub proof fn latest_ping_decides(m: &mut RiskManager, latency_ms: u64, r: bool)
    requires
        old(m).wf(),
        call_ensures(RiskManager::update_ping_latency, (m, latency_ms), ()),
        call_ensures(RiskManager::can_open_position, (&*final(m),), r),
    ensures
        latency_ms > old(m)@.config.ping_threshold_ms ==> !r,
        latency_ms <= old(m)@.config.ping_threshold_ms && old(m)@.paper_mode ==> (r <==> !old(m)@.kill_switch),
        final(m)@ == (RiskModel { last_ping_ms: latency_ms, ..old(m)@ }),
{
}

/// The status shows the loss from the peak, the limits and what they are held against.
pub proof fn status_shows_the_state(m: RiskManager, s: RiskStatus, loss: i64)
    requires
        m.wf(),
        m@.peak_pnl - m@.cumulative_pnl <= i64::MAX,
        call_ensures(RiskManager::status, (&m,), s),
        call_ensures(RiskManager::current_drawdown_raw, (&m,), loss),
    ensures
        loss == m@.peak_pnl - m@.cumulative_pnl,
        s.drawdown_raw == loss,
        s.drawdown_raw >= 0,
        s.cumulative_pnl + s.drawdown_raw == m@.peak_pnl,
        s.cumulative_pnl == m@.cumulative_pnl,
        s.kill_switch == m@.kill_switch,
        s.position_count == m@.position_count,
        s.max_positions == m@.config.max_positions,
        s.max_drawdown_raw == m@.config.max_drawdown_raw,
        s.last_ping_ms == m@.last_ping_ms,
        s.ping_threshold_ms == m@.config.ping_threshold_ms,
{
}

/// Limits that are written in decimal are read as written. A limit that is missing or no number is
/// 100 USD of drawdown, three positions or 100 ms.
pub proof fn limits_are_read_as_written(
    drawdown: Option<i64>,
    positions: Option<&str>,
    ping: Option<&str>,
    most: u64,
    slowest: u64,
    c: RiskConfig,
)
    requires
        call_ensures(RiskConfig::from_vars, (drawdown, positions, ping), c),
        most <= usize::MAX,
    ensures
        drawdown matches Some(d) ==> c.max_drawdown_raw == d,
        drawdown is None ==> c.max_drawdown_raw == 10_000_000_000,
        positions is None ==> c.max_positions == 3,
        positions matches Some(t) ==> t@ == decimal(most as nat) ==> c.max_positions == most,
        positions matches Some(t) ==> parse_uint(encode_utf8(t@), usize::MAX as nat) is None
            ==> c.max_positions == 3,
        ping is None ==> c.ping_threshold_ms == 100,
        ping matches Some(t) ==> parse_uint(encode_utf8(t@), u64::MAX as nat) is None
            ==> c.ping_threshold_ms == 100,
        ping matches Some(t) ==> t@ == decimal(slowest as nat) ==> c.ping_threshold_ms == slowest,
{
    crate::decimal::decimal_round_trip(most);
    crate::decimal::decimal_round_trip(slowest);
}

/// The status goes out with each number under its own name, as it is.
#[verifier::rlimit(40)]
pub proof fn status_goes_out_member_by_member(s: RiskStatus, r: String)
    requires
        call_ensures(RiskStatus::to_json, (&s,), r),
    ensures
        r@ == "{\"kill_switch\":"@ + (if s.kill_switch {
            "true"@
        } else {
            "false"@
        }) + ",\"position_count\":"@ + decimal(s.position_count as nat) + ",\"max_positions\":"@
            + decimal(s.max_positions as nat) + ",\"drawdown_raw\":"@ + signed_decimal(
            s.drawdown_raw as int,
        ) + ",\"max_drawdown_raw\":"@ + signed_decimal(s.max_drawdown_raw as int)
            + ",\"last_ping_ms\":"@ + decimal(s.last_ping_ms as nat) + ",\"ping_threshold_ms\":"@
            + decimal(s.ping_threshold_ms as nat) + ",\"cumulative_pnl\":"@ + signed_decimal(
            s.cumulative_pnl as int,
        ) + "}"@,
{
}

/// A manager starts on paper with nothing lost, nothing open and the limits given, and tells what it
/// holds. The mode is changed alone.
pub proof fn managers_start_clear_and_tell_what_they_hold(
    config: RiskConfig,
    new: RiskManager,
    m: RiskManager,
    killed: bool,
    count: usize,
    fits: bool,
    n: &mut RiskManager,
    paper: bool,
)
    requires
        call_ensures(RiskManager::new, (config,), new),
        call_ensures(RiskManager::is_kill_switch_active, (&m,), killed),
        call_ensures(RiskManager::position_count, (&m,), count),
        call_ensures(RiskManager::drawdown_fits, (&m,), fits),
        call_ensures(RiskManager::set_paper_mode, (n, paper), ()),
    ensures
        new@.config == config,
        new@.paper_mode && !new@.kill_switch,
        new@.position_count == 0 && new@.peak_pnl == 0 && new@.cumulative_pnl == 0
            && new@.last_ping_ms == 0,
        killed == m@.kill_switch,
        count == m@.position_count,
        fits <==> m@.peak_pnl - m@.cumulative_pnl <= 0x7fff_ffff_ffff_ffff,
        final(n)@.paper_mode == paper,
        final(n)@ == (RiskModel { paper_mode: paper, ..old(n)@ }),
{
}

} // verus!
