//! Fixed-point primitives and the data the other modules share.
//!
//! Every price and quantity is an unsigned 64-bit count of 1e-8 units.

use vstd::prelude::*;

verus! {

/// Scale factor: one whole unit is this many raw units.
pub const SCALE: u64 = 100_000_000;

/// A non-negative fixed-point number with eight decimal places.
#[derive(Debug, Clone, Copy, PartialEq, Eq, Structural)]
pub struct Fixed64(u64);

impl View for Fixed64 {
    type V = u64;

    closed spec fn view(&self) -> u64 {
        self.0
    }
}

impl Fixed64 {
    /// Wraps a count of raw units.
    #[inline(always)]
    pub fn from_raw(val: u64) -> (r: Self)
        ensures
            r@ == val,
    {
        Self(val)
    }

    /// The count of raw units.
    #[inline(always)]
    pub fn raw(self) -> (r: u64)
        ensures
            r == self@,
    {
        self.0
    }

    /// The number 0.
    #[inline(always)]
    pub fn zero() -> (r: Self)
        ensures
            r@ == 0,
    {
        Self(0)
    }

    /// The number 1.
    #[inline(always)]
    pub fn one() -> (r: Self)
        ensures
            r@ == SCALE,
    {
        Self(SCALE)
    }
}

/// Order side. Orders are always post-only (maker).
#[derive(Debug, Clone, Copy, PartialEq, Eq, Structural)]
pub enum Side {
    Bid,
    Ask,
}

/// One level of an order book.
#[derive(Debug, Clone, Copy, PartialEq, Eq, Structural)]
pub struct Level {
    pub price: Fixed64,
    pub qty: u64,
}

/// The highest price among `levels`, if there is any level.
pub open spec fn highest(levels: Seq<Level>) -> Option<Fixed64>
    decreases levels.len(),
{
    if levels.len() == 0 {
        None
    } else {
        match highest(levels.drop_last()) {
            Some(p) if p@ >= levels.last().price@ => Some(p),
            _ => Some(levels.last().price),
        }
    }
}

/// The lowest price among `levels`, if there is any level.
pub open spec fn lowest(levels: Seq<Level>) -> Option<Fixed64>
    decreases levels.len(),
{
    if levels.len() == 0 {
        None
    } else {
        match lowest(levels.drop_last()) {
            Some(p) if p@ <= levels.last().price@ => Some(p),
            _ => Some(levels.last().price),
        }
    }
}

/// `highest` is the price of some level, and no level has a higher price.
pub proof fn highest_is_maximum(levels: Seq<Level>)
    ensures
        highest(levels) is None <==> levels.len() == 0,
        highest(levels) matches Some(p) ==> {
            &&& exists|i: int| 0 <= i < levels.len() && #[trigger] levels[i].price == p
            &&& forall|i: int| 0 <= i < levels.len() ==> #[trigger] levels[i].price@ <= p@
        },
    decreases levels.len(),
{
    if levels.len() > 0 {
        let init = levels.drop_last();
        highest_is_maximum(init);
        assert(forall|i: int| 0 <= i < init.len() ==> levels[i] == #[trigger] init[i]);
        let p = highest(levels)->0;
        match highest(init) {
            Some(q) if q@ >= levels.last().price@ => {
                let i = choose|i: int| 0 <= i < init.len() && #[trigger] init[i].price == q;
                assert(levels[i].price == p);
            },
            _ => {
                assert(levels[levels.len() - 1].price == p);
            },
        }
        assert forall|i: int| 0 <= i < levels.len() implies #[trigger] levels[i].price@ <= p@ by {
            if i < init.len() {
                assert(init[i].price@ <= highest(init)->0@);
            }
        }
    }
}

/// `lowest` is the price of some level, and no level has a lower price.
pub proof fn lowest_is_minimum(levels: Seq<Level>)
    ensures
        lowest(levels) is None <==> levels.len() == 0,
        lowest(levels) matches Some(p) ==> {
            &&& exists|i: int| 0 <= i < levels.len() && #[trigger] levels[i].price == p
            &&& forall|i: int| 0 <= i < levels.len() ==> #[trigger] levels[i].price@ >= p@
        },
    decreases levels.len(),
{
    if levels.len() > 0 {
        let init = levels.drop_last();
        lowest_is_minimum(init);
        assert(forall|i: int| 0 <= i < init.len() ==> levels[i] == #[trigger] init[i]);
        let p = lowest(levels)->0;
        match lowest(init) {
            Some(q) if q@ <= levels.last().price@ => {
                let i = choose|i: int| 0 <= i < init.len() && #[trigger] init[i].price == q;
                assert(levels[i].price == p);
            },
            _ => {
                assert(levels[levels.len() - 1].price == p);
            },
        }
        assert forall|i: int| 0 <= i < levels.len() implies #[trigger] levels[i].price@ >= p@ by {
            if i < init.len() {
                assert(init[i].price@ >= lowest(init)->0@);
            }
        }
    }
}

/// The smaller of two numbers.
pub open spec fn min_nat(a: nat, b: nat) -> nat {
    if a <= b {
        a
    } else {
        b
    }
}

/// Order book of fixed capacity: at most `B` bids and `A` asks, held in place.
#[derive(Debug, Clone)]
pub struct OrderBook<const B: usize, const A: usize> {
    pub bids: [Level; B],
    pub asks: [Level; A],
    pub bid_count: usize,
    pub ask_count: usize,
}

impl<const B: usize, const A: usize> OrderBook<B, A> {
    /// The counts never exceed the capacities.
    pub open spec fn wf(self) -> bool {
        &&& self.bid_count <= B
        &&& self.ask_count <= A
    }

    /// The bids that are in use.
    pub open spec fn bid_levels(self) -> Seq<Level> {
        self.bids@.take(self.bid_count as int)
    }

    /// The asks that are in use.
    pub open spec fn ask_levels(self) -> Seq<Level> {
        self.asks@.take(self.ask_count as int)
    }

    /// Ask minus bid at the top of the book; none if a side is empty or the book is crossed.
    pub open spec fn spread(self) -> Option<u64> {
        match (highest(self.bid_levels()), lowest(self.ask_levels())) {
            (Some(bid), Some(ask)) => if ask@ >= bid@ {
                Some((ask@ - bid@) as u64)
            } else {
                None
            },
            _ => None,
        }
    }

    /// An empty, zero-filled book.
    #[inline(always)]
    pub fn new() -> (r: Self)
        ensures
            r.wf(),
            r.bid_count == 0,
            r.ask_count == 0,
            r.bid_levels() == Seq::<Level>::empty(),
            r.ask_levels() == Seq::<Level>::empty(),
            forall|i: int| 0 <= i < B ==> (#[trigger] r.bids@[i]).price@ == 0 && r.bids@[i].qty == 0,
            forall|i: int| 0 <= i < A ==> (#[trigger] r.asks@[i]).price@ == 0 && r.asks@[i].qty == 0,
    {
        let level = Level { price: Fixed64::zero(), qty: 0 };
        let bids: [Level; B] = [level; B];
        let asks: [Level; A] = [level; A];
        proof {
            broadcast use vstd::array::group_array_axioms;

            assert(bids == vstd::array::spec_array_fill_for_copy_type::<Level, B>(level));
            assert(asks == vstd::array::spec_array_fill_for_copy_type::<Level, A>(level));
        }
        let r = Self { bids, asks, bid_count: 0, ask_count: 0 };
        assert(r.bid_levels() =~= Seq::<Level>::empty());
        assert(r.ask_levels() =~= Seq::<Level>::empty());
        r
    }

    /// Replaces the bids by the first levels of a snapshot, as many as there is room for.
    pub fn update_bids(&mut self, levels: &[Level])
        requires
            old(self).wf(),
        ensures
            final(self).wf(),
            final(self).bid_count == min_nat(levels@.len(), B as nat),
            final(self).bid_levels() == levels@.take(final(self).bid_count as int),
            final(self).bids@.skip(final(self).bid_count as int) == old(self).bids@.skip(
                final(self).bid_count as int,
            ),
            final(self).asks == old(self).asks,
            final(self).ask_count == old(self).ask_count,
    {
        let n: usize = if levels.len() < B {
            levels.len()
        } else {
            B
        };
        let mut i: usize = 0;
        while i < n
            invariant
                i <= n <= B,
                n <= levels@.len(),
                self.bids@.take(i as int) =~= levels@.take(i as int),
                self.bids@.skip(i as int) =~= old(self).bids@.skip(i as int),
                self.asks == old(self).asks,
                self.ask_count == old(self).ask_count,
            decreases n - i,
        {
            let ghost before = self.bids@;
            self.bids[i] = levels[i];
            proof {
                assert(self.bids@ =~= before.update(i as int, levels@[i as int]));
                assert(self.bids@.take(i + 1) =~= before.take(i as int).push(levels@[i as int]));
                assert(levels@.take(i + 1) =~= levels@.take(i as int).push(levels@[i as int]));
                assert forall|j: int| 0 <= j < B - (i + 1) implies #[trigger] self.bids@.skip(
                    i + 1,
                )[j] == old(self).bids@.skip(i + 1)[j] by {
                    assert(before.skip(i as int)[j + 1] == old(self).bids@.skip(i as int)[j + 1]);
                }
            }
            i = i + 1;
        }
        self.bid_count = n;
    }

    /// Replaces the asks by the first levels of a snapshot, as many as there is room for.
    pub fn update_asks(&mut self, levels: &[Level])
        requires
            old(self).wf(),
        ensures
            final(self).wf(),
            final(self).ask_count == min_nat(levels@.len(), A as nat),
            final(self).ask_levels() == levels@.take(final(self).ask_count as int),
            final(self).asks@.skip(final(self).ask_count as int) == old(self).asks@.skip(
                final(self).ask_count as int,
            ),
            final(self).bids == old(self).bids,
            final(self).bid_count == old(self).bid_count,
    {
        let n: usize = if levels.len() < A {
            levels.len()
        } else {
            A
        };
        let mut i: usize = 0;
        while i < n
            invariant
                i <= n <= A,
                n <= levels@.len(),
                self.asks@.take(i as int) =~= levels@.take(i as int),
                self.asks@.skip(i as int) =~= old(self).asks@.skip(i as int),
                self.bids == old(self).bids,
                self.bid_count == old(self).bid_count,
            decreases n - i,
        {
            let ghost before = self.asks@;
            self.asks[i] = levels[i];
            proof {
                assert(self.asks@ =~= before.update(i as int, levels@[i as int]));
                assert(self.asks@.take(i + 1) =~= before.take(i as int).push(levels@[i as int]));
                assert(levels@.take(i + 1) =~= levels@.take(i as int).push(levels@[i as int]));
                assert forall|j: int| 0 <= j < A - (i + 1) implies #[trigger] self.asks@.skip(
                    i + 1,
                )[j] == old(self).asks@.skip(i + 1)[j] by {
                    assert(before.skip(i as int)[j + 1] == old(self).asks@.skip(i as int)[j + 1]);
                }
            }
            i = i + 1;
        }
        self.ask_count = n;
    }

    /// Best bid: the highest bid price, in whatever order the levels came.
    pub fn best_bid(&self) -> (r: Option<Fixed64>)
        requires
            self.wf(),
        ensures
            r == highest(self.bid_levels()),
    {
        let mut best: Option<Fixed64> = None;
        let mut i: usize = 0;
        assert(self.bids@.take(0) =~= Seq::<Level>::empty());
        while i < self.bid_count
            invariant
                i <= self.bid_count <= B,
                best == highest(self.bids@.take(i as int)),
            decreases self.bid_count - i,
        {
            let price = self.bids[i].price;
            assert(self.bids@.take(i + 1).drop_last() =~= self.bids@.take(i as int));
            best =
            match best {
                Some(p) if p.raw() >= price.raw() => Some(p),
                _ => Some(price),
            };
            i = i + 1;
        }
        best
    }

    /// Best ask: the lowest ask price, in whatever order the levels came.
    pub fn best_ask(&self) -> (r: Option<Fixed64>)
        requires
            self.wf(),
        ensures
            r == lowest(self.ask_levels()),
    {
        let mut best: Option<Fixed64> = None;
        let mut i: usize = 0;
        assert(self.asks@.take(0) =~= Seq::<Level>::empty());
        while i < self.ask_count
            invariant
                i <= self.ask_count <= A,
                best == lowest(self.asks@.take(i as int)),
            decreases self.ask_count - i,
        {
            let price = self.asks[i].price;
            assert(self.asks@.take(i + 1).drop_last() =~= self.asks@.take(i as int));
            best =
            match best {
                Some(p) if p.raw() <= price.raw() => Some(p),
                _ => Some(price),
            };
            i = i + 1;
        }
        best
    }

    /// Best ask minus best bid in raw units; none if a side is empty or the book is crossed.
    pub fn spread_raw(&self) -> (r: Option<u64>)
        requires
            self.wf(),
        ensures
            r == self.spread(),
    {
        match (self.best_bid(), self.best_ask()) {
            (Some(bid), Some(ask)) => ask.raw().checked_sub(bid.raw()),
            _ => None,
        }
    }
}

impl<const B: usize, const A: usize> Default for OrderBook<B, A> {
    fn default() -> (r: Self)
        ensures
            r.wf(),
            r.bid_count == 0,
            r.ask_count == 0,
            r.bid_levels() == Seq::<Level>::empty(),
            r.ask_levels() == Seq::<Level>::empty(),
            forall|i: int| 0 <= i < B ==> (#[trigger] r.bids@[i]).price@ == 0 && r.bids@[i].qty == 0,
            forall|i: int| 0 <= i < A ==> (#[trigger] r.asks@[i]).price@ == 0 && r.asks@[i].qty == 0,
    {
        Self::new()
    }
}

/// Trade signal from spread detection.
#[derive(Debug, Clone, Copy, PartialEq, Eq, Structural)]
pub struct SpreadSignal {
    pub spread_raw: u64,
    pub spread_pct: Fixed64,
    pub bid_price: Fixed64,
    pub ask_price: Fixed64,
    pub timestamp_us: u64,
}

/// Order request, always post-only (maker).
#[derive(Debug, Clone)]
pub struct OrderRequest {
    pub symbol: &'static str,
    pub side: Side,
    pub price: Fixed64,
    pub qty: u64,
    /// The order is placed only if it goes on the book, never as a taker.
    pub post_only: bool,
}

/// Trade state machine.
#[derive(Debug, Clone, Copy, PartialEq, Eq, Structural)]
pub enum TradeState {
    Idle,
    Leg1Sent,
    Leg1Filled,
    Leg2Sent,
    BothFilled,
    Closing,
    Closed,
}

/// Arbitrage leg.
#[derive(Debug, Clone, Copy, PartialEq, Eq, Structural)]
pub enum LegKind {
    SpotBuy,
    SpotSell,
    PerpShort,
    PerpLong,
}

/// One leg of an arbitrage position.
#[derive(Debug, Clone, Copy, PartialEq, Eq, Structural)]
pub struct Leg {
    pub kind: LegKind,
    pub price: Fixed64,
    pub qty: u64,
    pub state: TradeState,
    pub sent_at_us: Option<u64>,
    pub filled_at_us: Option<u64>,
}

/// Full arbitrage position of two legs, spot and perp.
#[derive(Debug, Clone)]
pub struct ArbitragePosition {
    pub legs: [Leg; 2],
    pub opened_at_us: u64,
    pub state: TradeState,
}

impl ArbitragePosition {
    /// A position whose first leg has been sent.
    pub fn new(leg1: Leg, leg2: Leg, opened_at_us: u64) -> (r: Self)
        ensures
            r.legs@ == seq![leg1, leg2],
            r.opened_at_us == opened_at_us,
            r.state == TradeState::Leg1Sent,
    {
        let r = Self { legs: [leg1, leg2], opened_at_us, state: TradeState::Leg1Sent };
        assert(r.legs@ =~= seq![leg1, leg2]);
        r
    }
}

/// Command from the strategy to the order manager.
#[derive(Debug, Clone)]
pub enum OrderCmd {
    Place {
        /// Locally assigned identifier.
        client_id: u64,
        symbol: &'static str,
        side: Side,
        price: Fixed64,
        /// In raw units.
        qty: u64,
        post_only: bool,
    },
    Cancel { client_id: u64, exchange_id: String, symbol: &'static str },
}

/// Status of an order on the exchange.
#[derive(Debug, Clone, Copy, PartialEq, Eq, Structural)]
pub enum OrderStatus {
    Open,
    Filled,
    PartiallyFilled,
    Cancelled,
    Rejected,
}

/// Acknowledgement from the order manager to the strategy.
#[derive(Debug, Clone)]
pub struct OrderAck {
    pub client_id: u64,
    pub exchange_id: String,
    pub status: OrderStatus,
}

/// Raw rate units per basis point: a rate of one basis point is 1e-4, that is 10_000 raw units.
pub const RAW_PER_BPS: i64 = 10_000;

/// Funding rate published by the exchange.
#[derive(Debug, Clone)]
pub struct FundingRateUpdate {
    pub contract: String,
    /// Rate per funding interval in raw units.
    pub rate_raw: i64,
    pub timestamp_ms: u64,
}

impl FundingRateUpdate {
    /// The rate in basis points, as a count of 1 / `RAW_PER_BPS` basis points.
    pub fn rate_bps(&self) -> (r: i64)
        ensures
            r == self.rate_raw,
    {
        self.rate_raw
    }
}

/// Full replacement of the top levels of one book.
#[derive(Debug, Clone)]
pub struct ObUpdateCmd {
    pub is_spot: bool,
    pub bids: Vec<Level>,
    pub asks: Vec<Level>,
}

/// The best bid is the price of some bid, and no bid is higher; the best ask is the price of some
/// ask, and no ask is lower. There is none exactly while the side is empty.
pub proof fn best_prices_top_the_book<const B: usize, const A: usize>(
    book: OrderBook<B, A>,
    bid: Option<Fixed64>,
    ask: Option<Fixed64>,
)
    requires
        book.wf(),
        call_ensures(OrderBook::<B, A>::best_bid, (&book,), bid),
        call_ensures(OrderBook::<B, A>::best_ask, (&book,), ask),
    ensures
        bid is None <==> book.bid_count == 0,
        ask is None <==> book.ask_count == 0,
        bid matches Some(p) ==> {
            &&& exists|i: int| 0 <= i < book.bid_count && #[trigger] book.bids@[i].price == p
            &&& forall|i: int| 0 <= i < book.bid_count ==> #[trigger] book.bids@[i].price@ <= p@
        },
        ask matches Some(p) ==> {
            &&& exists|i: int| 0 <= i < book.ask_count && #[trigger] book.asks@[i].price == p
            &&& forall|i: int| 0 <= i < book.ask_count ==> #[trigger] book.asks@[i].price@ >= p@
        },
{
    let (bids, asks) = (book.bids@.take(book.bid_count as int), book.asks@.take(
        book.ask_count as int,
    ));
    highest_is_maximum(bids);
    lowest_is_minimum(asks);
    if let Some(p) = bid {
        let i = choose|i: int| 0 <= i < bids.len() && #[trigger] bids[i].price == p;
        assert(book.bids@[i].price == p);
        assert forall|j: int| 0 <= j < book.bid_count implies #[trigger] book.bids@[j].price@
            <= p@ by {
            assert(bids[j].price@ <= p@);
        }
    }
    if let Some(p) = ask {
        let i = choose|i: int| 0 <= i < asks.len() && #[trigger] asks[i].price == p;
        assert(book.asks@[i].price == p);
        assert forall|j: int| 0 <= j < book.ask_count implies #[trigger] book.asks@[j].price@
            >= p@ by {
            assert(asks[j].price@ >= p@);
        }
    }
}

/// The spread of a book is its best ask less its best bid. There is none exactly while a side is
/// empty or the book is crossed.
pub proof fn spread_is_ask_less_bid<const B: usize, const A: usize>(
    book: OrderBook<B, A>,
    bid: Option<Fixed64>,
    ask: Option<Fixed64>,
    r: Option<u64>,
)
    requires
        book.wf(),
        call_ensures(OrderBook::<B, A>::best_bid, (&book,), bid),
        call_ensures(OrderBook::<B, A>::best_ask, (&book,), ask),
        call_ensures(OrderBook::<B, A>::spread_raw, (&book,), r),
    ensures
        r is Some <==> bid is Some && ask is Some && bid->0@ <= ask->0@,
        r matches Some(d) ==> bid->0@ + d == ask->0@,
{
}

/// An update of one side puts the first levels there, in order, as many as there is room for, and
/// leaves the other side alone.
pub proof fn updates_replace_one_side<const B: usize, const A: usize>(
    book: &mut OrderBook<B, A>,
    other: &mut OrderBook<B, A>,
    levels: &[Level],
)
    requires
        old(book).wf(),
        old(other).wf(),
        call_ensures(OrderBook::<B, A>::update_bids, (book, levels), ()),
        call_ensures(OrderBook::<B, A>::update_asks, (other, levels), ()),
    ensures
        final(book).bid_count <= levels@.len(),
        final(book).bid_count <= B,
        final(book).bid_count == levels@.len() || final(book).bid_count == B,
        forall|i: int|
            0 <= i < final(book).bid_count ==> #[trigger] final(book).bids@[i] == levels@[i],
        final(book).asks == old(book).asks,
        final(book).ask_count == old(book).ask_count,
        final(other).ask_count <= levels@.len(),
        final(other).ask_count <= A,
        final(other).ask_count == levels@.len() || final(other).ask_count == A,
        forall|i: int|
            0 <= i < final(other).ask_count ==> #[trigger] final(other).asks@[i] == levels@[i],
        final(other).bids == old(other).bids,
        final(other).bid_count == old(other).bid_count,
{
    assert forall|i: int| 0 <= i < final(book).bid_count implies #[trigger] final(book).bids@[i]
        == levels@[i] by {
        assert(final(book).bids@.take(final(book).bid_count as int)[i] == levels@.take(
            final(book).bid_count as int,
        )[i]);
    }
    assert forall|i: int| 0 <= i < final(other).ask_count implies #[trigger] final(other).asks@[i]
        == levels@[i] by {
        assert(final(other).asks@.take(final(other).ask_count as int)[i] == levels@.take(
            final(other).ask_count as int,
        )[i]);
    }
}

/// A raw number is given back as it was wrapped. One whole unit is a hundred million raw ones.
pub proof fn raw_numbers_are_given_back(val: u64, f: Fixed64, raw: u64, one: Fixed64, zero: Fixed64)
    requires
        call_ensures(Fixed64::from_raw, (val,), f),
        call_ensures(Fixed64::raw, (f,), raw),
        call_ensures(Fixed64::one, (), one),
        call_ensures(Fixed64::zero, (), zero),
    ensures
        raw == val,
        one@ == 100_000_000,
        zero@ == 0,
{
}

/// A position holds its two legs in order and has its first one sent.
pub proof fn positions_start_with_the_first_leg(
    leg1: Leg,
    leg2: Leg,
    opened_at_us: u64,
    r: ArbitragePosition,
)
    requires
        call_ensures(ArbitragePosition::new, (leg1, leg2, opened_at_us), r),
    ensures
        r.legs@.len() == 2,
        r.legs@[0] == leg1,
        r.legs@[1] == leg2,
        r.opened_at_us == opened_at_us,
        r.state == TradeState::Leg1Sent,
{
}

} // verus!
