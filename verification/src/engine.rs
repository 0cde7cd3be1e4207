//! Hot path: book update, spread check, signal.

use vstd::prelude::*;

use crate::clock::unix_micros;
use crate::types::{
    highest, lowest, min_nat, Fixed64, Level, ObUpdateCmd, OrderBook, SpreadSignal, SCALE,
};

verus! {

/// Which way a spread was measured.
#[derive(Debug, Clone, Copy, PartialEq, Eq, Structural)]
pub enum SpreadDirection {
    /// Short perp and buy spot: perp ask minus spot bid.
    Normal,
    /// Buy perp and short spot: spot ask minus perp bid.
    Inverse,
}

/// Spread of the two books at one moment, whatever any threshold says.
#[derive(Debug, Clone, Copy, PartialEq, Eq, Structural)]
pub struct SpreadSnapshot {
    /// Spread in raw units, 0 when inverted.
    pub spread_raw: u64,
    /// The spread is negative.
    pub inverted: bool,
    /// Direction of the measurement.
    pub direction: SpreadDirection,
    /// Spot price: the best bid (normal) or the best ask (inverse).
    pub leg_a: Fixed64,
    /// Perp price: the best ask (normal) or the best bid (inverse).
    pub leg_b: Fixed64,
}

/// The snapshot for a spot and a perp price; there is none while a price is missing.
pub open spec fn snapshot_of(
    direction: SpreadDirection,
    spot: Option<Fixed64>,
    perp: Option<Fixed64>,
) -> Option<SpreadSnapshot> {
    match (spot, perp) {
        (Some(a), Some(b)) => {
            let signed = match direction {
                SpreadDirection::Normal => b@ - a@,
                SpreadDirection::Inverse => a@ - b@,
            };
            Some(
                SpreadSnapshot {
                    spread_raw: if signed < 0 {
                        0
                    } else {
                        signed as u64
                    },
                    inverted: signed < 0,
                    direction,
                    leg_a: a,
                    leg_b: b,
                },
            )
        },
        _ => None,
    }
}

/// A snapshot calls for a signal at `threshold_raw`: the spread exceeds it and the spot price is
/// not zero.
pub open spec fn signals(snap: Option<SpreadSnapshot>, threshold_raw: u64) -> bool {
    &&& snap is Some
    &&& snap->0.spread_raw > threshold_raw
    &&& snap->0.leg_a@ > 0
}

/// The spread as a fraction of the spot price in raw units, reduced to 64 bits.
pub open spec fn spread_fraction(snap: SpreadSnapshot) -> int {
    (snap.spread_raw as int * SCALE as int / snap.leg_a@ as int) % 0x1_0000_0000_0000_0000
}

/// The signal that a snapshot gives at a time.
pub open spec fn is_signal_of(sig: SpreadSignal, snap: SpreadSnapshot, now_us: u64) -> bool {
    &&& sig.spread_raw == snap.spread_raw
    &&& sig.spread_pct@ == spread_fraction(snap)
    &&& sig.bid_price == snap.leg_a
    &&& sig.ask_price == snap.leg_b
    &&& sig.timestamp_us == now_us
}

impl SpreadSnapshot {
    /// The spread as a fraction of the spot price, reduced to 64 bits.
    pub fn fraction(&self) -> (r: Fixed64)
        requires
            self.leg_a@ > 0,
        ensures
            r@ == spread_fraction(*self),
    {
        assert(self.spread_raw * SCALE <= u128::MAX) by (nonlinear_arith)
            requires
                self.spread_raw <= u64::MAX,
                SCALE == 100_000_000,
        ;
        let fraction: u128 = self.spread_raw as u128 * SCALE as u128 / self.leg_a.raw() as u128;
        Fixed64::from_raw((fraction % 0x1_0000_0000_0000_0000u128) as u64)
    }
}

/// The spot and the perp order book.
pub struct Engine<const B: usize, const A: usize> {
    pub spot_book: OrderBook<B, A>,
    pub perp_book: OrderBook<B, A>,
}

impl<const B: usize, const A: usize> Engine<B, A> {
    /// Both books are well formed.
    pub open spec fn wf(self) -> bool {
        &&& self.spot_book.wf()
        &&& self.perp_book.wf()
    }

    /// Perp ask minus spot bid.
    pub open spec fn normal(self) -> Option<SpreadSnapshot> {
        snapshot_of(
            SpreadDirection::Normal,
            highest(self.spot_book.bid_levels()),
            lowest(self.perp_book.ask_levels()),
        )
    }

    /// Spot ask minus perp bid.
    pub open spec fn inverse(self) -> Option<SpreadSnapshot> {
        snapshot_of(
            SpreadDirection::Inverse,
            lowest(self.spot_book.ask_levels()),
            highest(self.perp_book.bid_levels()),
        )
    }

    /// An engine with empty books.
    pub fn new() -> (r: Self)
        ensures
            r.wf(),
            r.spot_book.bid_levels() == Seq::<Level>::empty(),
            r.spot_book.ask_levels() == Seq::<Level>::empty(),
            r.perp_book.bid_levels() == Seq::<Level>::empty(),
            r.perp_book.ask_levels() == Seq::<Level>::empty(),
            r.normal() is None,
            r.inverse() is None,
    {
        Self { spot_book: OrderBook::new(), perp_book: OrderBook::new() }
    }

    /// Replaces both sides of one book; the other book keeps its levels.
    pub fn apply(&mut self, cmd: &ObUpdateCmd)
        requires
            old(self).wf(),
        ensures
            final(self).wf(),
            cmd.is_spot ==> {
                &&& final(self).spot_book.bid_levels() == cmd.bids@.take(
                    final(self).spot_book.bid_count as int,
                )
                &&& final(self).spot_book.bid_count == min_nat(cmd.bids@.len(), B as nat)
                &&& final(self).spot_book.ask_levels() == cmd.asks@.take(
                    final(self).spot_book.ask_count as int,
                )
                &&& final(self).spot_book.ask_count == min_nat(cmd.asks@.len(), A as nat)
                &&& final(self).perp_book == old(self).perp_book
            },
            !cmd.is_spot ==> {
                &&& final(self).perp_book.bid_levels() == cmd.bids@.take(
                    final(self).perp_book.bid_count as int,
                )
                &&& final(self).perp_book.bid_count == min_nat(cmd.bids@.len(), B as nat)
                &&& final(self).perp_book.ask_levels() == cmd.asks@.take(
                    final(self).perp_book.ask_count as int,
                )
                &&& final(self).perp_book.ask_count == min_nat(cmd.asks@.len(), A as nat)
                &&& final(self).spot_book == old(self).spot_book
            },
    {
        if cmd.is_spot {
            self.spot_book.update_bids(cmd.bids.as_slice());
            self.spot_book.update_asks(cmd.asks.as_slice());
        } else {
            self.perp_book.update_bids(cmd.bids.as_slice());
            self.perp_book.update_asks(cmd.asks.as_slice());
        }
    }

    /// The current spread, perp ask minus spot bid, as soon as both prices are known.
    #[inline(always)]
    pub fn current_spread(&self) -> (r: Option<SpreadSnapshot>)
        requires
            self.wf(),
        ensures
            r == self.normal(),
    {
        let spot_bid = match self.spot_book.best_bid() {
            Some(p) => p,
            None => return None,
        };
        let perp_ask = match self.perp_book.best_ask() {
            Some(p) => p,
            None => return None,
        };
        let inverted = perp_ask.raw() < spot_bid.raw();
        let spread_raw: u64 = if inverted {
            0
        } else {
            perp_ask.raw() - spot_bid.raw()
        };
        Some(
            SpreadSnapshot {
                spread_raw,
                inverted,
                direction: SpreadDirection::Normal,
                leg_a: spot_bid,
                leg_b: perp_ask,
            },
        )
    }

    /// The inverse spread, spot ask minus perp bid, as soon as both prices are known.
    #[inline(always)]
    pub fn current_spread_inverse(&self) -> (r: Option<SpreadSnapshot>)
        requires
            self.wf(),
        ensures
            r == self.inverse(),
    {
        let spot_ask = match self.spot_book.best_ask() {
            Some(p) => p,
            None => return None,
        };
        let perp_bid = match self.perp_book.best_bid() {
            Some(p) => p,
            None => return None,
        };
        let inverted = spot_ask.raw() < perp_bid.raw();
        let spread_raw: u64 = if inverted {
            0
        } else {
            spot_ask.raw() - perp_bid.raw()
        };
        Some(
            SpreadSnapshot {
                spread_raw,
                inverted,
                direction: SpreadDirection::Inverse,
                leg_a: spot_ask,
                leg_b: perp_bid,
            },
        )
    }

    /// The entry signal at a given time: there is one exactly when the spread exceeds
    /// `threshold_raw` and the spot price is not zero.
    pub fn check_spread_at(&self, threshold_raw: u64, now_us: u64) -> (r: Option<SpreadSignal>)
        requires
            self.wf(),
        ensures
            r is Some <==> signals(self.normal(), threshold_raw),
            r matches Some(sig) ==> is_signal_of(sig, self.normal()->0, now_us),
    {
        let snap = match self.current_spread() {
            Some(s) => s,
            None => return None,
        };
        if snap.spread_raw <= threshold_raw {
            return None;
        }
        if snap.leg_a.raw() == 0 {
            return None;
        }
        Some(
            SpreadSignal {
                spread_raw: snap.spread_raw,
                spread_pct: snap.fraction(),
                bid_price: snap.leg_a,
                ask_price: snap.leg_b,
                timestamp_us: now_us,
            },
        )
    }

    /// The entry signal now, stamped with the wall clock. For exits use `current_spread`.
    #[inline(always)]
    pub fn check_spread(&self, threshold_raw: u64) -> (r: Option<SpreadSignal>)
        requires
            self.wf(),
        ensures
            r is Some <==> signals(self.normal(), threshold_raw),
            r matches Some(sig) ==> is_signal_of(sig, self.normal()->0, sig.timestamp_us),
    {
        self.check_spread_at(threshold_raw, unix_micros())
    }
}

impl<const B: usize, const A: usize> Default for Engine<B, A> {
    fn default() -> (r: Self)
        ensures
            r.wf(),
            r.spot_book.bid_levels() == Seq::<Level>::empty(),
            r.spot_book.ask_levels() == Seq::<Level>::empty(),
            r.perp_book.bid_levels() == Seq::<Level>::empty(),
            r.perp_book.ask_levels() == Seq::<Level>::empty(),
            r.normal() is None,
            r.inverse() is None,
    {
        Self::new()
    }
}

/// The spread is what the perp sells for above what the spot is bid: the best perp ask less the best
/// spot bid, 0 and marked as inverted where the ask is lower. The inverse one is the best spot ask
/// less the best perp bid. There is one exactly when both prices are known.
pub proof fn spreads_compare_the_best_prices<const B: usize, const A: usize>(
    e: Engine<B, A>,
    r: Option<SpreadSnapshot>,
    inverse: Option<SpreadSnapshot>,
    spot_bid: Option<Fixed64>,
    spot_ask: Option<Fixed64>,
    perp_bid: Option<Fixed64>,
    perp_ask: Option<Fixed64>,
)
    requires
        e.wf(),
        call_ensures(Engine::<B, A>::current_spread, (&e,), r),
        call_ensures(Engine::<B, A>::current_spread_inverse, (&e,), inverse),
        call_ensures(OrderBook::<B, A>::best_bid, (&e.spot_book,), spot_bid),
        call_ensures(OrderBook::<B, A>::best_ask, (&e.spot_book,), spot_ask),
        call_ensures(OrderBook::<B, A>::best_bid, (&e.perp_book,), perp_bid),
        call_ensures(OrderBook::<B, A>::best_ask, (&e.perp_book,), perp_ask),
    ensures
        r is Some <==> spot_bid is Some && perp_ask is Some,
        r matches Some(s) ==> {
            let (bid, ask) = (spot_bid->0, perp_ask->0);
            &&& s.leg_a == bid
            &&& s.leg_b == ask
            &&& s.inverted <==> ask@ < bid@
            &&& ask@ >= bid@ ==> s.spread_raw == ask@ - bid@
            &&& ask@ < bid@ ==> s.spread_raw == 0
            &&& s.direction == SpreadDirection::Normal
        },
        inverse is Some <==> spot_ask is Some && perp_bid is Some,
        inverse matches Some(s) ==> {
            let (ask, bid) = (spot_ask->0, perp_bid->0);
            &&& s.leg_a == ask
            &&& s.leg_b == bid
            &&& s.inverted <==> ask@ < bid@
            &&& ask@ >= bid@ ==> s.spread_raw == ask@ - bid@
            &&& ask@ < bid@ ==> s.spread_raw == 0
            &&& s.direction == SpreadDirection::Inverse
        },
{
}

/// A signal comes exactly when the spread exceeds the threshold and the spot bid is not zero. It
/// names the spread, the two prices and the time. A lower threshold never loses a signal.
pub proof fn signals_exceed_the_threshold<const B: usize, const A: usize>(
    e: Engine<B, A>,
    threshold: u64,
    now_us: u64,
    r: Option<SpreadSignal>,
    spread: Option<SpreadSnapshot>,
)
    requires
        e.wf(),
        call_ensures(Engine::<B, A>::check_spread_at, (&e, threshold, now_us), r),
        call_ensures(Engine::<B, A>::current_spread, (&e,), spread),
    ensures
        r is Some <==> spread is Some && spread->0.leg_b@ > spread->0.leg_a@ + threshold
            && spread->0.leg_a@ > 0,
        r matches Some(sig) ==> {
            &&& sig.bid_price == spread->0.leg_a
            &&& sig.ask_price == spread->0.leg_b
            &&& sig.spread_raw == sig.ask_price@ - sig.bid_price@
            &&& sig.timestamp_us == now_us
            &&& sig.spread_raw * 100_000_000 < sig.bid_price@ * 0x1_0000_0000_0000_0000 ==> {
                &&& sig.spread_pct@ * sig.bid_price@ <= sig.spread_raw * 100_000_000
                &&& sig.spread_raw * 100_000_000 < (sig.spread_pct@ + 1) * sig.bid_price@
            }
        },
{
    if let Some(sig) = r {
        if sig.spread_raw * 100_000_000 < sig.bid_price@ * 0x1_0000_0000_0000_0000 {
            fraction_is_the_quotient(spread->0);
        }
    }
}

/// A signal of this moment comes under the same condition, whatever the moment.
pub proof fn signals_of_now_exceed_the_threshold<const B: usize, const A: usize>(
    e: Engine<B, A>,
    threshold: u64,
    r: Option<SpreadSignal>,
    spread: Option<SpreadSnapshot>,
)
    requires
        e.wf(),
        call_ensures(Engine::<B, A>::check_spread, (&e, threshold), r),
        call_ensures(Engine::<B, A>::current_spread, (&e,), spread),
    ensures
        r is Some <==> spread is Some && spread->0.leg_b@ > spread->0.leg_a@ + threshold
            && spread->0.leg_a@ > 0,
        r matches Some(sig) ==> {
            &&& sig.bid_price == spread->0.leg_a
            &&& sig.ask_price == spread->0.leg_b
            &&& sig.spread_raw == sig.ask_price@ - sig.bid_price@
        },
{
}

/// The fraction of a spread, as far as it fits, is the whole quotient by the spot price.
pub proof fn fraction_is_the_quotient(s: SpreadSnapshot)
    requires
        s.leg_a@ > 0,
        s.spread_raw * 100_000_000 < s.leg_a@ * 0x1_0000_0000_0000_0000,
    ensures
        spread_fraction(s) * s.leg_a@ <= s.spread_raw * 100_000_000,
        s.spread_raw * 100_000_000 < (spread_fraction(s) + 1) * s.leg_a@,
{
    let n = s.spread_raw * 100_000_000;
    let d = s.leg_a@ as int;
    let q = n / d;
    assert(SCALE as int == 100_000_000);
    assert(s.spread_raw as int * SCALE as int == n);
    vstd::arithmetic::div_mod::lemma_fundamental_div_mod(n, d);
    assert(q * d <= n < (q + 1) * d && 0 <= q < 0x1_0000_0000_0000_0000) by (nonlinear_arith)
        requires
            n == d * q + n % d,
            0 <= n % d < d,
            0 <= n < d * 0x1_0000_0000_0000_0000,
            0 < d,
    ;
}

/// The fraction of a snapshot is its spread in hundred-millionths of its spot price, cut down.
pub proof fn fractions_are_of_the_spot_price(s: SpreadSnapshot, r: Fixed64)
    requires
        s.leg_a@ > 0,
        s.spread_raw * 100_000_000 < s.leg_a@ * 0x1_0000_0000_0000_0000,
        call_ensures(SpreadSnapshot::fraction, (&s,), r),
    ensures
        r@ * s.leg_a@ <= s.spread_raw * 100_000_000,
        s.spread_raw * 100_000_000 < (r@ + 1) * s.leg_a@,
{
    fraction_is_the_quotient(s);
}

/// An update puts its first levels into the book it is for, bids to bids and asks to asks, and
/// leaves the other book alone.
pub proof fn updates_go_to_their_book<const B: usize, const A: usize>(
    e: &mut Engine<B, A>,
    cmd: ObUpdateCmd,
)
    requires
        old(e).wf(),
        call_ensures(Engine::<B, A>::apply, (e, &cmd), ()),
    ensures
        cmd.is_spot ==> {
            &&& final(e).perp_book == old(e).perp_book
            &&& final(e).spot_book.bid_count <= cmd.bids@.len()
            &&& final(e).spot_book.ask_count <= cmd.asks@.len()
            &&& final(e).spot_book.bid_count == cmd.bids@.len() || final(e).spot_book.bid_count == B
            &&& final(e).spot_book.ask_count == cmd.asks@.len() || final(e).spot_book.ask_count == A
            &&& forall|i: int|
                0 <= i < final(e).spot_book.bid_count ==> #[trigger] final(e).spot_book.bids@[i]
                    == cmd.bids@[i]
            &&& forall|i: int|
                0 <= i < final(e).spot_book.ask_count ==> #[trigger] final(e).spot_book.asks@[i]
                    == cmd.asks@[i]
        },
        !cmd.is_spot ==> {
            &&& final(e).spot_book == old(e).spot_book
            &&& final(e).perp_book.bid_count <= cmd.bids@.len()
            &&& final(e).perp_book.ask_count <= cmd.asks@.len()
            &&& final(e).perp_book.bid_count == cmd.bids@.len() || final(e).perp_book.bid_count == B
            &&& final(e).perp_book.ask_count == cmd.asks@.len() || final(e).perp_book.ask_count == A
            &&& forall|i: int|
                0 <= i < final(e).perp_book.bid_count ==> #[trigger] final(e).perp_book.bids@[i]
                    == cmd.bids@[i]
            &&& forall|i: int|
                0 <= i < final(e).perp_book.ask_count ==> #[trigger] final(e).perp_book.asks@[i]
                    == cmd.asks@[i]
        },
{
    if cmd.is_spot {
        levels_are_taken_over(final(e).spot_book, cmd);
    } else {
        levels_are_taken_over(final(e).perp_book, cmd);
    }
}

/// A book whose levels are the first ones of an update holds them one for one.
proof fn levels_are_taken_over<const B: usize, const A: usize>(
    book: OrderBook<B, A>,
    cmd: ObUpdateCmd,
)
    requires
        book.wf(),
        book.bid_count <= cmd.bids@.len(),
        book.ask_count <= cmd.asks@.len(),
        book.bid_levels() == cmd.bids@.take(book.bid_count as int),
        book.ask_levels() == cmd.asks@.take(book.ask_count as int),
    ensures
        forall|i: int| 0 <= i < book.bid_count ==> #[trigger] book.bids@[i] == cmd.bids@[i],
        forall|i: int| 0 <= i < book.ask_count ==> #[trigger] book.asks@[i] == cmd.asks@[i],
{
    assert forall|i: int| 0 <= i < book.bid_count implies #[trigger] book.bids@[i]
        == cmd.bids@[i] by {
        assert(book.bid_levels()[i] == cmd.bids@.take(book.bid_count as int)[i]);
    }
    assert forall|i: int| 0 <= i < book.ask_count implies #[trigger] book.asks@[i]
        == cmd.asks@[i] by {
        assert(book.ask_levels()[i] == cmd.asks@.take(book.ask_count as int)[i]);
    }
}

} // verus!
