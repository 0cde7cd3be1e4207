//! Records for the database and the queues that hand them to the writer.
//!
//! The hot path pushes records without waiting; the cold path drains them in batches.

use vstd::prelude::*;

use crate::strategy::{trunc_div, ExitReason, PaperClose, LEG_QTY};
use crate::types::SCALE;

verus! {

/// A closed trade.
#[derive(Debug, Clone, Copy, PartialEq, Eq)]
pub struct TradeRecord {
    pub symbol: &'static str,
    /// Unix time in microseconds.
    pub entry_ts: i64,
    /// Unix time in microseconds.
    pub exit_ts: i64,
    pub spot_entry: i64,
    pub perp_entry: i64,
    pub spot_exit: i64,
    pub perp_exit: i64,
    pub size_usd_raw: i64,
    pub pnl_usd_raw: i64,
    /// Basis points times 10_000.
    pub pnl_pct_raw: i64,
    pub exit_reason: &'static str,
}

impl Default for TradeRecord {
    fn default() -> (r: Self)
        ensures
            r.symbol@ == ""@,
            r.exit_reason@ == ""@,
            r.entry_ts == 0 && r.exit_ts == 0,
            r.spot_entry == 0 && r.perp_entry == 0 && r.spot_exit == 0 && r.perp_exit == 0,
            r.size_usd_raw == 0 && r.pnl_usd_raw == 0 && r.pnl_pct_raw == 0,
    {
        TradeRecord {
            symbol: "",
            entry_ts: 0,
            exit_ts: 0,
            spot_entry: 0,
            perp_entry: 0,
            spot_exit: 0,
            perp_exit: 0,
            size_usd_raw: 0,
            pnl_usd_raw: 0,
            pnl_pct_raw: 0,
            exit_reason: "",
        }
    }
}

/// Size of a leg at its spot entry price, in raw units of USD.
pub open spec fn trade_size(c: PaperClose) -> int {
    c.spot_entry@ * LEG_QTY / SCALE as int
}

/// Profit of a trade relative to its size, in basis points times 10_000; 0 if it has no size.
pub open spec fn trade_return(c: PaperClose) -> int {
    if trade_size(c) == 0 {
        0
    } else {
        trunc_div(c.trade_pnl_raw * 100_000_000, trade_size(c))
    }
}

/// Every number of the record of a trade fits.
pub open spec fn record_fits(c: PaperClose) -> bool {
    &&& c.opened_at_us + c.hold_time_us <= i64::MAX
    &&& c.spot_entry@ <= i64::MAX
    &&& c.perp_entry@ <= i64::MAX
    &&& c.spot_exit@ <= i64::MAX
    &&& c.perp_exit@ <= i64::MAX
    &&& i64::MIN <= trade_return(c) <= i64::MAX
}

impl TradeRecord {
    /// The record of a closed paper trade, if its numbers fit.
    pub fn of_close(symbol: &'static str, c: &PaperClose) -> (r: Option<TradeRecord>)
        ensures
            r is Some <==> record_fits(*c),
            r matches Some(t) ==> {
                &&& t.symbol == symbol
                &&& t.entry_ts == c.opened_at_us
                &&& t.exit_ts == c.opened_at_us + c.hold_time_us
                &&& t.spot_entry == c.spot_entry@
                &&& t.perp_entry == c.perp_entry@
                &&& t.spot_exit == c.spot_exit@
                &&& t.perp_exit == c.perp_exit@
                &&& t.size_usd_raw == trade_size(*c)
                &&& t.pnl_usd_raw == c.trade_pnl_raw
                &&& t.pnl_pct_raw == trade_return(*c)
                &&& t.exit_reason@ == c.reason.word()
            },
    {
        let limit: u64 = i64::MAX as u64;
        let exit_us: u128 = c.opened_at_us as u128 + c.hold_time_us as u128;
        assert(c.spot_entry@ * LEG_QTY == c.spot_entry@ * 1_000_000) by (nonlinear_arith)
            requires
                LEG_QTY == 1_000_000,
        ;
        let size: i128 = c.spot_entry.raw() as i128 * 1_000_000 / (SCALE as i128);
        let pct: i128 = if size == 0 {
            0
        } else {
            c.trade_pnl_raw as i128 * 100_000_000 / size
        };
        if exit_us > limit as u128 || c.spot_entry.raw() > limit || c.perp_entry.raw() > limit
            || c.spot_exit.raw() > limit || c.perp_exit.raw() > limit || pct > i64::MAX as i128
            || pct < i64::MIN as i128 {
            return None;
        }
        Some(
            TradeRecord {
                symbol,
                entry_ts: c.opened_at_us as i64,
                exit_ts: exit_us as i64,
                spot_entry: c.spot_entry.raw() as i64,
                perp_entry: c.perp_entry.raw() as i64,
                spot_exit: c.spot_exit.raw() as i64,
                perp_exit: c.perp_exit.raw() as i64,
                size_usd_raw: size as i64,
                pnl_usd_raw: c.trade_pnl_raw,
                pnl_pct_raw: pct as i64,
                exit_reason: c.reason.as_str(),
            },
        )
    }
}

/// Spread at one moment, for time-series analysis.
#[derive(Debug, Clone, Copy, PartialEq, Eq)]
pub struct SpreadRecord {
    /// Unix time in microseconds.
    pub ts: i64,
    pub spread_raw: i64,
    /// Basis points times 10_000.
    pub spread_pct_raw: i64,
    pub symbol: &'static str,
}

impl Default for SpreadRecord {
    fn default() -> (r: Self)
        ensures
            r.symbol@ == ""@,
            r.ts == 0 && r.spread_raw == 0 && r.spread_pct_raw == 0,
    {
        SpreadRecord { ts: 0, spread_raw: 0, spread_pct_raw: 0, symbol: "" }
    }
}

/// A trade as it is read back.
#[derive(Debug, Clone)]
pub struct TradeJson {
    pub symbol: String,
    pub entry_ts: i64,
    pub exit_ts: i64,
    pub spot_entry: i64,
    pub perp_entry: i64,
    pub spot_exit: i64,
    pub perp_exit: i64,
    pub size_usd: i64,
    pub pnl_usd: i64,
    pub pnl_pct: i64,
    pub exit_reason: String,
}

/// Capacity of a ring, a power of two.
pub const RING_CAP: usize = 4096;

/// First-in first-out ring of fixed capacity.
///
/// `head` counts pushes and `tail` counts removals. Both wrap around; since the capacity divides
/// the range of `usize`, the slot of a count is its remainder all the same.
pub struct RingBuffer<T: Copy + Default> {
    data: Vec<Option<T>>,
    head: usize,
    tail: usize,
}

/// The waiting items after a push: the new one comes last, or is dropped if the ring is full.
pub open spec fn after_push<T>(pending: Seq<T>, val: T) -> Seq<T> {
    if pending.len() < RING_CAP {
        pending.push(val)
    } else {
        pending
    }
}

/// The waiting items after several pushes, one after another.
pub open spec fn push_all<T>(pending: Seq<T>, vals: Seq<T>) -> Seq<T>
    decreases vals.len(),
{
    if vals.len() == 0 {
        pending
    } else {
        after_push(push_all(pending, vals.drop_last()), vals.last())
    }
}

/// What is pushed between two drains comes out in the order it went in; once the ring is full,
/// what comes later is dropped and nothing that waits is lost.
pub proof fn items_come_out_in_order<T>(vals: Seq<T>)
    ensures
        push_all(Seq::empty(), vals) == if vals.len() <= RING_CAP {
            vals
        } else {
            vals.take(RING_CAP as int)
        },
    decreases vals.len(),
{
    if vals.len() == 0 {
        assert(vals =~= Seq::empty());
    } else {
        let init = vals.drop_last();
        items_come_out_in_order(init);
        if vals.len() <= RING_CAP {
            assert(init.push(vals.last()) =~= vals);
        } else if init.len() <= RING_CAP {
            assert(init =~= vals.take(RING_CAP as int));
        } else {
            assert(init.take(RING_CAP as int) =~= vals.take(RING_CAP as int));
        }
    }
}

/// `usize` holds a multiple of the capacity of a ring.
proof fn capacity_divides_usize()
    ensures
        (usize::MAX + 1) % 4096 == 0,
        usize::MAX >= 0xffff_ffff,
{
    assert(usize::MAX == 0xffff_ffff || usize::MAX == 0xffff_ffff_ffff_ffff);
}

impl<T: Copy + Default> RingBuffer<T> {
    /// Number of items that wait.
    spec fn count(self) -> int {
        if self.head >= self.tail {
            self.head - self.tail
        } else {
            self.head - self.tail + usize::MAX + 1
        }
    }

    /// The slot of the `i`th waiting item.
    spec fn slot(self, i: int) -> int {
        (self.tail + i) % 4096
    }

    /// The waiting items fill their slots.
    pub closed spec fn wf(self) -> bool {
        &&& self.data@.len() == 4096
        &&& self.count() <= 4096
        &&& forall|i: int| 0 <= i < self.count() ==> #[trigger] self.data@[self.slot(i)] is Some
    }

    /// The items that wait, oldest first.
    pub closed spec fn pending(self) -> Seq<T> {
        Seq::new(self.count() as nat, |i: int| self.data@[self.slot(i)]->0)
    }

    /// An empty ring.
    pub fn new() -> (r: Self)
        ensures
            r.wf(),
            r.pending() == Seq::<T>::empty(),
    {
        let mut data: Vec<Option<T>> = Vec::with_capacity(RING_CAP);
        let mut i: usize = 0;
        while i < RING_CAP
            invariant
                i <= RING_CAP,
                data@.len() == i,
            decreases RING_CAP - i,
        {
            data.push(None);
            i = i + 1;
        }
        let r = Self { data, head: 0, tail: 0 };
        assert(r.pending() =~= Seq::<T>::empty());
        r
    }

    /// Adds an item at the end unless the ring is full. Says whether there was room.
    pub fn push(&mut self, val: T) -> (r: bool)
        requires
            old(self).wf(),
        ensures
            final(self).wf(),
            r <==> old(self).pending().len() < RING_CAP,
            final(self).pending() == after_push(old(self).pending(), val),
    {
        proof {
            capacity_divides_usize();
        }
        let ghost before = *self;
        let waiting: usize = self.head.wrapping_sub(self.tail);
        assert(waiting == before.count());
        if waiting >= RING_CAP {
            return false;
        }
        let at: usize = self.head % RING_CAP;
        assert(at == before.slot(before.count()));
        self.data.set(at, Some(val));
        self.head = self.head.wrapping_add(1);
        proof {
            assert(self.count() == before.count() + 1);
            assert forall|i: int| 0 <= i < before.count() implies #[trigger] self.data@[self.slot(
                i,
            )] == before.data@[before.slot(i)] by {
                assert(before.slot(i) != at);
            }
            assert(self.data@[self.slot(before.count())] == Some(val));
            assert forall|i: int| 0 <= i < self.count() implies #[trigger] self.data@[self.slot(
                i,
            )] is Some by {
                if i < before.count() {
                    assert(self.data@[self.slot(i)] == before.data@[before.slot(i)]);
                }
            }
            assert(self.pending() =~= before.pending().push(val));
        }
        true
    }

    /// Takes all waiting items out, oldest first.
    pub fn drain(&mut self) -> (r: Vec<T>)
        requires
            old(self).wf(),
        ensures
            final(self).wf(),
            r@ == old(self).pending(),
            final(self).pending() == Seq::<T>::empty(),
    {
        proof {
            capacity_divides_usize();
        }
        let mut out: Vec<T> = Vec::new();
        let head: usize = self.head;
        assert(out@ =~= self.pending().take(0));
        while self.tail != head
            invariant
                self.wf(),
                self.head == head,
                (usize::MAX + 1) % 4096 == 0,
                usize::MAX >= 0xffff_ffff,
                old(self).pending() =~= out@ + self.pending(),
            decreases self.count(),
        {
            let ghost before = *self;
            let at: usize = self.tail % RING_CAP;
            assert(at == before.slot(0));
            assert(before.count() > 0);
            if let Some(val) = self.data[at] {
                out.push(val);
            }
            self.data.set(at, None);
            self.tail = self.tail.wrapping_add(1);
            proof {
                assert(self.count() == before.count() - 1);
                assert forall|i: int| 0 <= i < self.count() implies #[trigger] self.data@[self.slot(
                    i,
                )] == before.data@[before.slot(i + 1)] by {
                    assert(self.slot(i) == before.slot(i + 1));
                    assert(before.slot(i + 1) != at);
                }
                assert(before.data@[before.slot(0)] is Some);
                assert(self.pending() =~= before.pending().skip(1));
                assert(before.pending() =~= seq![before.pending()[0]] + self.pending());
            }
        }
        assert(self.pending() =~= Seq::<T>::empty());
        out
    }
}

impl<T: Copy + Default> Default for RingBuffer<T> {
    fn default() -> (r: Self)
        ensures
            r.wf(),
            r.pending() == Seq::<T>::empty(),
    {
        Self::new()
    }
}

/// What one flush writes: the trades one by one, then the spreads as a batch.
#[derive(Debug, Clone)]
pub struct FlushBatch {
    pub trades: Vec<TradeRecord>,
    pub spreads: Vec<SpreadRecord>,
}

/// The queues in front of the database.
pub struct Db {
    trades_ring: RingBuffer<TradeRecord>,
    spreads_ring: RingBuffer<SpreadRecord>,
}

impl Db {
    /// Both rings are well formed.
    pub closed spec fn wf(self) -> bool {
        &&& self.trades_ring.wf()
        &&& self.spreads_ring.wf()
    }

    /// The trades that wait, oldest first.
    pub closed spec fn trades(self) -> Seq<TradeRecord> {
        self.trades_ring.pending()
    }

    /// The spreads that wait, oldest first.
    pub closed spec fn spreads(self) -> Seq<SpreadRecord> {
        self.spreads_ring.pending()
    }

    /// Empty queues.
    pub fn new() -> (r: Self)
        ensures
            r.wf(),
            r.trades() == Seq::<TradeRecord>::empty(),
            r.spreads() == Seq::<SpreadRecord>::empty(),
    {
        Self { trades_ring: RingBuffer::new(), spreads_ring: RingBuffer::new() }
    }

    /// Queues a trade, or drops it if the queue is full. Says whether it was queued.
    pub fn push_trade(&mut self, trade: TradeRecord) -> (r: bool)
        requires
            old(self).wf(),
        ensures
            final(self).wf(),
            r <==> old(self).trades().len() < RING_CAP,
            final(self).trades() == after_push(old(self).trades(), trade),
            final(self).spreads() == old(self).spreads(),
    {
        self.trades_ring.push(trade)
    }

    /// Queues a spread, or drops it if the queue is full. Says whether it was queued.
    pub fn push_spread(&mut self, spread: SpreadRecord) -> (r: bool)
        requires
            old(self).wf(),
        ensures
            final(self).wf(),
            r <==> old(self).spreads().len() < RING_CAP,
            final(self).spreads() == after_push(old(self).spreads(), spread),
            final(self).trades() == old(self).trades(),
    {
        self.spreads_ring.push(spread)
    }

    /// Empties the queues and hands back what is to be written.
    pub fn flush(&mut self) -> (r: FlushBatch)
        requires
            old(self).wf(),
        ensures
            final(self).wf(),
            r.trades@ == old(self).trades(),
            r.spreads@ == old(self).spreads(),
            final(self).trades() == Seq::<TradeRecord>::empty(),
            final(self).spreads() == Seq::<SpreadRecord>::empty(),
    {
        let trades = self.trades_ring.drain();
        let spreads = self.spreads_ring.drain();
        FlushBatch { trades, spreads }
    }
}

impl Default for Db {
    fn default() -> (r: Self)
        ensures
            r.wf(),
            r.trades() == Seq::<TradeRecord>::empty(),
            r.spreads() == Seq::<SpreadRecord>::empty(),
    {
        Self::new()
    }
}

/// The record of a trade holds the trade: times, prices, profit and reason as they are, the size as
/// 0.01 BTC at the spot entry price, and the profit relative to that size in hundred-millionths, cut
/// toward zero. A trade without size has no relative profit.
pub proof fn records_hold_their_trade(
    symbol: &'static str,
    c: PaperClose,
    r: Option<TradeRecord>,
)
    requires
        call_ensures(TradeRecord::of_close, (symbol, &c), r),
        r is Some,
    ensures
        ({
            let t = r->0;
            &&& t.symbol == symbol
            &&& t.entry_ts == c.opened_at_us
            &&& t.exit_ts - t.entry_ts == c.hold_time_us
            &&& t.spot_entry == c.spot_entry@ && t.perp_entry == c.perp_entry@
            &&& t.spot_exit == c.spot_exit@ && t.perp_exit == c.perp_exit@
            &&& t.pnl_usd_raw == c.trade_pnl_raw
            &&& t.size_usd_raw * 100 <= c.spot_entry@ < t.size_usd_raw * 100 + 100
            &&& t.size_usd_raw == 0 ==> t.pnl_pct_raw == 0
            &&& t.size_usd_raw > 0 && c.trade_pnl_raw >= 0 ==> t.pnl_pct_raw * t.size_usd_raw
                <= c.trade_pnl_raw * 100_000_000 && c.trade_pnl_raw * 100_000_000 < (t.pnl_pct_raw
                + 1) * t.size_usd_raw
            &&& t.size_usd_raw > 0 && c.trade_pnl_raw <= 0 ==> t.pnl_pct_raw * t.size_usd_raw
                >= c.trade_pnl_raw * 100_000_000 && c.trade_pnl_raw * 100_000_000 > (t.pnl_pct_raw
                - 1) * t.size_usd_raw
            &&& c.reason == ExitReason::SpreadInverted ==> t.exit_reason@ == "spread_inverted"@
            &&& c.reason == ExitReason::ExitSpread ==> t.exit_reason@ == "exit_spread"@
            &&& c.reason == ExitReason::MaxHold ==> t.exit_reason@ == "max_hold"@
        }),
{
    assert(c.spot_entry@ * LEG_QTY == c.spot_entry@ * 1_000_000) by (nonlinear_arith)
        requires
            LEG_QTY == 1_000_000,
    ;
    assert(SCALE as int == 100_000_000);
    let size = trade_size(c);
    let n = c.trade_pnl_raw * 100_000_000;
    if size > 0 {
        let far = if n >= 0 {
            n
        } else {
            -n
        };
        let q = far / size;
        vstd::arithmetic::div_mod::lemma_fundamental_div_mod(far, size);
        assert(q * size <= far < (q + 1) * size && (-q) * size == -(q * size) && (-q - 1) * size
            == -((q + 1) * size)) by (nonlinear_arith)
            requires
                far == size * q + far % size,
                0 <= far % size < size,
        ;
        if n == 0 {
            assert(q == 0) by (nonlinear_arith)
                requires
                    q * size <= 0 < (q + 1) * size,
                    0 < size,
            ;
            assert(0 * size == 0 && (-1) * size == -size && 1 * size == size);
        }
    }
}

/// A trade is not recorded exactly if one of its numbers does not fit in 63 bits and a sign.
pub proof fn records_are_refused_for_their_numbers(
    symbol: &'static str,
    c: PaperClose,
    r: Option<TradeRecord>,
)
    requires
        call_ensures(TradeRecord::of_close, (symbol, &c), r),
    ensures
        c.opened_at_us + c.hold_time_us > 0x7fff_ffff_ffff_ffff ==> r is None,
        c.spot_entry@ > 0x7fff_ffff_ffff_ffff ==> r is None,
        c.perp_entry@ > 0x7fff_ffff_ffff_ffff ==> r is None,
        c.spot_exit@ > 0x7fff_ffff_ffff_ffff ==> r is None,
        c.perp_exit@ > 0x7fff_ffff_ffff_ffff ==> r is None,
        c.opened_at_us + c.hold_time_us <= 0x7fff_ffff_ffff_ffff && 100 <= c.spot_entry@
            <= 0x7fff_ffff_ffff_ffff && c.perp_entry@ <= 0x7fff_ffff_ffff_ffff && c.spot_exit@
            <= 0x7fff_ffff_ffff_ffff && c.perp_exit@ <= 0x7fff_ffff_ffff_ffff && -90_000_000_000
            <= c.trade_pnl_raw <= 90_000_000_000 ==> r is Some,
{
    assert(c.spot_entry@ * LEG_QTY == c.spot_entry@ * 1_000_000) by (nonlinear_arith)
        requires
            LEG_QTY == 1_000_000,
    ;
    assert(SCALE as int == 100_000_000);
    let size = trade_size(c);
    let n = c.trade_pnl_raw * 100_000_000;
    if size > 0 && -90_000_000_000 <= c.trade_pnl_raw <= 90_000_000_000 {
        let far = if n >= 0 {
            n
        } else {
            -n
        };
        assert(0 <= far / size <= far) by (nonlinear_arith)
            requires
                0 <= far,
                0 < size,
        ;
    }
}

/// A ring holds 4096 items. A push is taken exactly if fewer wait, and then waits last; a push that
/// is not taken changes nothing. A drain hands out all that wait, oldest first, and leaves nothing.
pub proof fn rings_hand_out_what_they_took<T: Copy + Default>(
    ring: &mut RingBuffer<T>,
    drained: &mut RingBuffer<T>,
    val: T,
    taken: bool,
    out: Vec<T>,
)
    requires
        old(ring).wf(),
        call_ensures(RingBuffer::<T>::push, (ring, val), taken),
        *old(drained) == *final(ring),
        call_ensures(RingBuffer::<T>::drain, (drained,), out),
    ensures
        taken <==> old(ring).pending().len() < 4096,
        taken ==> out@ == old(ring).pending().push(val),
        !taken ==> out@ == old(ring).pending(),
        final(drained).pending().len() == 0,
{
}

/// Trades and spreads wait in queues of their own: each is flushed with its own kind, in the order
/// in which they came, and a flush leaves nothing behind.
pub proof fn flushes_hand_out_each_kind(
    db: &mut Db,
    then: &mut Db,
    flushed: &mut Db,
    trade: TradeRecord,
    spread: SpreadRecord,
    a: bool,
    b: bool,
    r: FlushBatch,
)
    requires
        old(db).wf(),
        call_ensures(Db::push_trade, (db, trade), a),
        *old(then) == *final(db),
        call_ensures(Db::push_spread, (then, spread), b),
        *old(flushed) == *final(then),
        call_ensures(Db::flush, (flushed,), r),
    ensures
        a <==> old(db).trades().len() < 4096,
        b <==> old(db).spreads().len() < 4096,
        a ==> r.trades@ == old(db).trades().push(trade),
        !a ==> r.trades@ == old(db).trades(),
        b ==> r.spreads@ == old(db).spreads().push(spread),
        !b ==> r.spreads@ == old(db).spreads(),
        final(flushed).trades().len() == 0,
        final(flushed).spreads().len() == 0,
{
}

} // verus!
