//! Public market data of the exchange: channels, messages, price parsing, reconnection.

use vstd::arithmetic::power2::pow2;
use vstd::prelude::*;
use vstd::utf8::*;

use crate::decimal::{
    decimal, decimal_round_trip, eight_places, parse_u64, price_round_trip, price_value,
    try_parse_price, uint_or_zero, unsigned_part,
};
use crate::json::{append_json_items, append_json_text, json_items, json_quoted, texts};
use crate::types::{min_nat, Fixed64, FundingRateUpdate, Level, ObUpdateCmd};

verus! {

/// Spot order book channel.
pub const CHANNEL_SPOT_OB: &'static str = "spot.order_book";

/// Futures order book channel.
pub const CHANNEL_FUTURES_OB: &'static str = "futures.order_book";

/// Funding rate channel.
pub const CHANNEL_FUNDING_RATE: &'static str = "futures.funding_rate";

/// Levels of a snapshot that count.
pub const BOOK_DEPTH: usize = 20;

/// Subscription request.
#[derive(Debug, Clone)]
pub struct SubscribeMsg {
    pub channel: &'static str,
    pub event: &'static str,
    pub payload: Vec<String>,
}

/// A subscription request as JSON.
pub open spec fn subscribe_json(channel: Seq<char>, event: Seq<char>, payload: Seq<Seq<char>>) -> Seq<
    char,
> {
    "{\"channel\":"@ + json_quoted(channel) + ",\"event\":"@ + json_quoted(event)
        + ",\"payload\":["@ + json_items(payload) + "]}"@
}

impl SubscribeMsg {
    /// A subscription to one pair on one channel, ten levels deep.
    pub fn new(channel: &'static str, currency_pair: &str) -> (r: Self)
        ensures
            r.channel == channel,
            r.event@ == "subscribe"@,
            texts(r.payload@) == seq![currency_pair@, "10"@, "0"@],
    {
        let mut payload: Vec<String> = Vec::new();
        payload.push(currency_pair.to_string());
        payload.push("10".to_string());
        payload.push("0".to_string());
        assert(texts(payload@) =~= seq![currency_pair@, "10"@, "0"@]);
        Self { channel, event: "subscribe", payload }
    }

    /// The request as JSON.
    pub fn to_json(&self) -> (r: String)
        ensures
            r@ == subscribe_json(self.channel@, self.event@, texts(self.payload@)),
    {
        let mut out = String::new();
        out.append("{\"channel\":");
        append_json_text(&mut out, self.channel);
        out.append(",\"event\":");
        append_json_text(&mut out, self.event);
        out.append(",\"payload\":[");
        append_json_items(&mut out, &self.payload);
        out.append("]}");
        assert(out@ =~= subscribe_json(self.channel@, self.event@, texts(self.payload@)));
        out
    }
}

/// Order book snapshot: price and quantity of each level as text.
#[derive(Debug, Clone)]
pub struct ObUpdate {
    pub t: u64,
    pub s: String,
    pub bids: Vec<(String, String)>,
    pub asks: Vec<(String, String)>,
}

/// Funding rate message.
#[derive(Debug, Clone)]
pub struct FundingRatePayload {
    /// Contract name.
    pub contract: String,
    /// Funding rate as text, such as `0.0001` for 0.01%.
    pub r: String,
    /// Time in milliseconds.
    pub t: u64,
}

impl FundingRatePayload {
    /// The update for a rate that was read from the text, in raw units.
    pub fn to_update(&self, rate_raw: i64) -> (r: FundingRateUpdate)
        ensures
            r.contract@ == self.contract@,
            r.rate_raw == rate_raw,
            r.timestamp_ms == self.t,
    {
        FundingRateUpdate { contract: self.contract.clone(), rate_raw, timestamp_ms: self.t }
    }
}

/// Message by channel.
#[derive(Debug, Clone)]
pub enum WsEvent {
    SpotOb(ObUpdate),
    FuturesOb(ObUpdate),
    SpotTrades(ObUpdate),
    FundingRate(FundingRatePayload),
}

/// Reads a decimal price. The first eight digits behind the dot count; a part that is no number
/// counts as 0. The price must fit: see `try_parse_price`.
pub fn parse_price(s: &str) -> (r: Fixed64)
    requires
        price_value(encode_utf8(s@)) <= u64::MAX,
    ensures
        r@ == price_value(encode_utf8(s@)),
{
    match try_parse_price(s) {
        Some(p) => p,
        None => Fixed64::zero(),
    }
}

/// The level that a pair of texts writes down. A quantity that is no whole number counts as 0.
pub open spec fn is_level(l: Level, price: Seq<char>, qty: Seq<char>) -> bool {
    &&& l.price@ == price_value(encode_utf8(price))
    &&& l.qty == uint_or_zero(encode_utf8(qty))
}

/// Reads a level. The price must fit: see `try_parse_level`.
pub fn parse_level(price_str: &str, qty_str: &str) -> (r: Level)
    requires
        price_value(encode_utf8(price_str@)) <= u64::MAX,
    ensures
        is_level(r, price_str@, qty_str@),
{
    let qty: u64 = match parse_u64(qty_str) {
        Some(q) => q,
        None => 0,
    };
    Level { price: parse_price(price_str), qty }
}

/// Reads a level, if its price fits.
pub fn try_parse_level(price_str: &str, qty_str: &str) -> (r: Option<Level>)
    ensures
        match r {
            Some(l) => is_level(l, price_str@, qty_str@),
            None => price_value(encode_utf8(price_str@)) > u64::MAX,
        },
{
    match try_parse_price(price_str) {
        Some(_) => Some(parse_level(price_str, qty_str)),
        None => None,
    }
}

/// Some levels are those that the first pairs of texts write down, as many as count.
pub open spec fn are_levels(levels: Seq<Level>, pairs: Seq<(String, String)>) -> bool {
    &&& levels.len() == min_nat(pairs.len(), BOOK_DEPTH as nat)
    &&& forall|i: int|
        0 <= i < levels.len() ==> is_level(#[trigger] levels[i], pairs[i].0@, pairs[i].1@)
}

/// Every price that counts fits.
pub open spec fn prices_fit(pairs: Seq<(String, String)>) -> bool {
    forall|i: int|
        0 <= i < pairs.len() && i < BOOK_DEPTH ==> price_value(
            encode_utf8((#[trigger] pairs[i]).0@),
        ) <= u64::MAX
}

/// Reads the levels that count, if their prices fit.
fn read_levels(pairs: &Vec<(String, String)>) -> (r: Option<Vec<Level>>)
    ensures
        match r {
            Some(levels) => prices_fit(pairs@) && are_levels(levels@, pairs@),
            None => !prices_fit(pairs@),
        },
{
    let n: usize = if pairs.len() < BOOK_DEPTH {
        pairs.len()
    } else {
        BOOK_DEPTH
    };
    let mut levels: Vec<Level> = Vec::new();
    let mut i: usize = 0;
    while i < n
        invariant
            i <= n,
            n == min_nat(pairs@.len(), BOOK_DEPTH as nat),
            levels@.len() == i,
            forall|k: int|
                0 <= k < i ==> is_level(#[trigger] levels@[k], pairs@[k].0@, pairs@[k].1@),
            forall|k: int|
                0 <= k < i ==> price_value(encode_utf8((#[trigger] pairs@[k]).0@)) <= u64::MAX,
        decreases n - i,
    {
        let pair = &pairs[i];
        match try_parse_level(pair.0.as_str(), pair.1.as_str()) {
            Some(l) => {
                levels.push(l);
            },
            None => {
                assert(price_value(encode_utf8(pairs@[i as int].0@)) > u64::MAX);
                return None;
            },
        }
        i = i + 1;
    }
    Some(levels)
}

impl ObUpdate {
    /// The command that replaces a book by this snapshot, if every price fits.
    pub fn to_cmd(&self, is_spot: bool) -> (r: Option<ObUpdateCmd>)
        ensures
            r is Some <==> prices_fit(self.bids@) && prices_fit(self.asks@),
            r matches Some(cmd) ==> {
                &&& cmd.is_spot == is_spot
                &&& are_levels(cmd.bids@, self.bids@)
                &&& are_levels(cmd.asks@, self.asks@)
            },
    {
        let bids = match read_levels(&self.bids) {
            Some(v) => v,
            None => return None,
        };
        let asks = match read_levels(&self.asks) {
            Some(v) => v,
            None => return None,
        };
        Some(ObUpdateCmd { is_spot, bids, asks })
    }
}

/// Reconnection policy. Times are in milliseconds.
#[derive(Debug, Clone, Copy, PartialEq, Eq, Structural)]
pub struct ReconnectConfig {
    pub initial_delay_ms: u64,
    pub max_delay_ms: u64,
    /// Give up after this many consecutive failures.
    pub max_attempts: u32,
    /// When an outage lasts longer than this, a warning about pausing new entries is due.
    pub pause_threshold_ms: u64,
}

impl Default for ReconnectConfig {
    fn default() -> (r: Self)
        ensures
            r == (ReconnectConfig {
                initial_delay_ms: 1_000,
                max_delay_ms: 30_000,
                max_attempts: 10,
                pause_threshold_ms: 60_000,
            }),
    {
        ReconnectConfig {
            initial_delay_ms: 1_000,
            max_delay_ms: 30_000,
            max_attempts: 10,
            pause_threshold_ms: 60_000,
        }
    }
}

/// The growth of the delay by an attempt, counted from 1: `2^(attempt - 1)`, with the exponent at
/// most 5.
pub open spec fn backoff_factor(attempt: u32) -> int {
    pow2(min_nat((attempt - 1) as nat, 5)) as int
}

/// The factor of each attempt.
proof fn backoff_factors(attempt: u32)
    requires
        attempt >= 1,
    ensures
        backoff_factor(attempt) == match attempt {
            1 => 1int,
            2 => 2,
            3 => 4,
            4 => 8,
            5 => 16,
            _ => 32,
        },
{
    vstd::arithmetic::power2::lemma2_to64();
}

/// The delay before an attempt, counted from 1.
pub open spec fn backoff_delay(cfg: ReconnectConfig, attempt: u32) -> int {
    let raw = cfg.initial_delay_ms * backoff_factor(attempt);
    if raw <= cfg.max_delay_ms {
        raw
    } else {
        cfg.max_delay_ms as int
    }
}

/// What to do after a connection was lost or could not be made.
#[derive(Debug, Clone, Copy, PartialEq, Eq, Structural)]
pub enum ReconnectStep {
    GiveUp,
    Retry {
        delay_ms: u64,
        /// The outage is so long that a warning about pausing new entries is due.
        pause_entries: bool,
    },
}

impl ReconnectConfig {
    /// The delay before an attempt, counted from 1: `initial * 2^(attempt - 1)` with the exponent
    /// at most 5, capped at the maximum.
    pub fn delay_for_attempt(&self, attempt: u32) -> (r: u64)
        requires
            attempt >= 1,
            self.initial_delay_ms * backoff_factor(attempt) <= u64::MAX,
        ensures
            r == backoff_delay(*self, attempt),
    {
        proof {
            backoff_factors(attempt);
        }
        let factor: u64 = match attempt {
            1 => 1,
            2 => 2,
            3 => 4,
            4 => 8,
            5 => 16,
            _ => 32,
        };
        let raw: u64 = self.initial_delay_ms * factor;
        if raw <= self.max_delay_ms {
            raw
        } else {
            self.max_delay_ms
        }
    }

    /// The step after the latest of some consecutive failures.
    pub fn after_failure(&self, failures: u32, outage_ms: u64) -> (r: ReconnectStep)
        requires
            failures >= 1,
            failures < self.max_attempts ==> self.initial_delay_ms * backoff_factor(failures)
                <= u64::MAX,
        ensures
            r == if failures >= self.max_attempts {
                ReconnectStep::GiveUp
            } else {
                ReconnectStep::Retry {
                    delay_ms: backoff_delay(*self, failures) as u64,
                    pause_entries: outage_ms > self.pause_threshold_ms,
                }
            },
    {
        if failures >= self.max_attempts {
            return ReconnectStep::GiveUp;
        }
        ReconnectStep::Retry {
            delay_ms: self.delay_for_attempt(failures),
            pause_entries: outage_ms > self.pause_threshold_ms,
        }
    }
}

/// Keeps count of consecutive failures and of the outage.
#[derive(Debug, Clone, Copy, PartialEq, Eq, Structural)]
pub struct Reconnect {
    pub config: ReconnectConfig,
    /// Failures since the latest connection.
    pub failures: u32,
    /// When the outage began, in milliseconds, if there is one.
    pub lost_at_ms: Option<u64>,
}

impl Reconnect {
    /// No failure so far.
    pub fn new(config: ReconnectConfig) -> (r: Self)
        ensures
            r == (Reconnect { config, failures: 0, lost_at_ms: None }),
    {
        Reconnect { config, failures: 0, lost_at_ms: None }
    }

    /// The failures after one more.
    pub open spec fn next_failures(self) -> u32 {
        if self.failures < u32::MAX {
            (self.failures + 1) as u32
        } else {
            u32::MAX
        }
    }

    /// When the outage began that a failure at `now_ms` belongs to.
    pub open spec fn outage_start(self, now_ms: u64) -> u64 {
        match self.lost_at_ms {
            Some(t) => t,
            None => now_ms,
        }
    }

    /// A connection was made: the failures are no longer consecutive, and the outage is over.
    pub fn connected(&mut self)
        ensures
            *final(self) == (Reconnect { failures: 0, lost_at_ms: None, ..*old(self) }),
    {
        self.failures = 0;
        self.lost_at_ms = None;
    }

    /// A connection was lost or could not be made, at a time in milliseconds.
    pub fn lost(&mut self, now_ms: u64) -> (r: ReconnectStep)
        requires
            old(self).next_failures() < old(self).config.max_attempts
                ==> old(self).config.initial_delay_ms * backoff_factor(old(self).next_failures())
                <= u64::MAX,
        ensures
            *final(self) == (Reconnect {
                failures: old(self).next_failures(),
                lost_at_ms: Some(old(self).outage_start(now_ms)),
                ..*old(self)
            }),
            r == if old(self).next_failures() >= old(self).config.max_attempts {
                ReconnectStep::GiveUp
            } else {
                ReconnectStep::Retry {
                    delay_ms: backoff_delay(
                        old(self).config,
                        old(self).next_failures(),
                    ) as u64,
                    pause_entries: now_ms - old(self).outage_start(now_ms)
                        > old(self).config.pause_threshold_ms,
                }
            },
    {
        self.failures = self.failures.saturating_add(1);
        let start: u64 = match self.lost_at_ms {
            Some(t) => t,
            None => now_ms,
        };
        self.lost_at_ms = Some(start);
        self.config.after_failure(self.failures, now_ms.saturating_sub(start))
    }
}

/// The first delay is the initial one, or the maximum if that is less. Later delays never shrink,
/// never exceed the maximum, and double from one attempt to the next until the maximum or the
/// sixth attempt is reached.
pub proof fn backoff_grows(cfg: ReconnectConfig, attempt: u32, later: u32)
    requires
        1 <= attempt <= later,
    ensures
        1 <= backoff_factor(attempt) <= 32,
        backoff_delay(cfg, 1) == if cfg.initial_delay_ms <= cfg.max_delay_ms {
            cfg.initial_delay_ms
        } else {
            cfg.max_delay_ms
        },
        backoff_delay(cfg, attempt) <= backoff_delay(cfg, later) <= cfg.max_delay_ms,
        attempt < 6 && later == attempt + 1 && backoff_delay(cfg, later) < cfg.max_delay_ms
            ==> backoff_delay(cfg, later) == 2 * backoff_delay(cfg, attempt),
{
    let d = cfg.initial_delay_ms as int;
    let (a, b) = (backoff_factor(attempt), backoff_factor(later));
    backoff_factors(1);
    backoff_factors(attempt);
    backoff_factors(later);
    assert(1 <= a <= b <= 32);
    assert(d * a <= d * b <= d * 32) by (nonlinear_arith)
        requires
            0 <= d,
            1 <= a <= b <= 32,
    ;
    if attempt < 6 && later == attempt + 1 {
        assert(b == 2 * a);
        assert(d * b == 2 * (d * a)) by (nonlinear_arith)
            requires
                b == 2 * a,
        ;
    }
}

/// A subscription asks the channel for one pair, ten levels deep, at the interval `0`.
pub proof fn subscriptions_ask_for_one_pair(
    channel: &'static str,
    pair: &str,
    m: SubscribeMsg,
    r: String,
)
    requires
        call_ensures(SubscribeMsg::new, (channel, pair), m),
        call_ensures(SubscribeMsg::to_json, (&m,), r),
    ensures
        r@ == "{\"channel\":"@ + json_quoted(channel@) + ",\"event\":"@ + json_quoted("subscribe"@)
            + ",\"payload\":["@ + (json_quoted(pair@) + ","@ + json_quoted("10"@) + ","@
            + json_quoted("0"@)) + "]}"@,
{
    let all = texts(m.payload@);
    let two = all.drop_last();
    let one = two.drop_last();
    assert(all =~= seq![pair@, "10"@, "0"@]);
    assert(two =~= seq![pair@, "10"@]);
    assert(one =~= seq![pair@]);
    assert(json_items(one) == json_quoted(pair@));
    assert(json_items(two) == json_items(one) + ","@ + json_quoted("10"@));
    assert(json_items(all) == json_items(two) + ","@ + json_quoted("0"@));
}

/// A level is read as written: a price with eight places and a quantity in decimal. A quantity with
/// a dot counts as none.
pub proof fn levels_are_read_as_written(
    price: &str,
    qty: &str,
    raw: u64,
    n: u64,
    l: Level,
    tried: Option<Level>,
)
    requires
        price@ == eight_places(raw as nat),
        call_ensures(parse_level, (price, qty), l),
        call_ensures(try_parse_level, (price, qty), tried),
    ensures
        l.price@ == raw,
        qty@ == decimal(n as nat) ==> l.qty == n,
        (exists|i: int|
            0 < i < encode_utf8(qty@).len() && #[trigger] encode_utf8(qty@)[i] == '.' as u8)
            ==> l.qty == 0,
        tried is Some,
        tried->0.price@ == l.price@ && tried->0.qty == l.qty,
{
    price_round_trip(raw);
    decimal_round_trip(n);
    let b = encode_utf8(qty@);
    if exists|i: int| 0 < i < b.len() && #[trigger] b[i] == '.' as u8 {
        let i = choose|i: int| 0 < i < b.len() && #[trigger] b[i] == '.' as u8;
        let d = unsigned_part(b);
        if b[0] == 43 {
            assert(d[i - 1] == b[i]);
        } else {
            assert(d[i] == b[i]);
        }
    }
}

/// A snapshot becomes a command for the same book with its bids as bids and its asks as asks, in
/// order, twenty levels of each at most. Each level has the price and the quantity of its own texts.
pub proof fn snapshots_become_commands(u: ObUpdate, is_spot: bool, r: Option<ObUpdateCmd>, i: int)
    requires
        call_ensures(ObUpdate::to_cmd, (&u, is_spot), r),
        r is Some,
    ensures
        r->0.is_spot == is_spot,
        r->0.bids@.len() == if u.bids@.len() < 20 {
            u.bids@.len() as int
        } else {
            20
        },
        r->0.asks@.len() == if u.asks@.len() < 20 {
            u.asks@.len() as int
        } else {
            20
        },
        0 <= i < r->0.bids@.len() ==> r->0.bids@[i].price@ == price_value(
            encode_utf8(u.bids@[i].0@),
        ) && r->0.bids@[i].qty == uint_or_zero(encode_utf8(u.bids@[i].1@)),
        0 <= i < r->0.asks@.len() ==> r->0.asks@[i].price@ == price_value(
            encode_utf8(u.asks@[i].0@),
        ) && r->0.asks@[i].qty == uint_or_zero(encode_utf8(u.asks@[i].1@)),
{
    if 0 <= i < r->0.bids@.len() {
        assert(is_level(r->0.bids@[i], u.bids@[i].0@, u.bids@[i].1@));
    }
    if 0 <= i < r->0.asks@.len() {
        assert(is_level(r->0.asks@[i], u.asks@[i].0@, u.asks@[i].1@));
    }
}

/// A snapshot is refused exactly if one of the first twenty prices of a side does not fit.
pub proof fn snapshots_are_refused_for_their_prices(
    u: ObUpdate,
    is_spot: bool,
    r: Option<ObUpdateCmd>,
)
    requires
        call_ensures(ObUpdate::to_cmd, (&u, is_spot), r),
    ensures
        r is None <==> (exists|i: int|
            0 <= i < u.bids@.len() && i < 20 && price_value(
                encode_utf8((#[trigger] u.bids@[i]).0@),
            ) > u64::MAX) || (exists|i: int|
            0 <= i < u.asks@.len() && i < 20 && price_value(
                encode_utf8((#[trigger] u.asks@[i]).0@),
            ) > u64::MAX),
{
}

/// The first delay is the initial one, and each later one twice the one before up to the sixth, from
/// where on it stays; none exceeds the maximum.
pub proof fn delays_double_up_to_the_sixth(
    cfg: ReconnectConfig,
    attempt: u32,
    first: u64,
    r: u64,
    next: u64,
)
    requires
        1 <= attempt < u32::MAX,
        cfg.initial_delay_ms * 32 <= u64::MAX,
        call_ensures(ReconnectConfig::delay_for_attempt, (&cfg, 1u32), first),
        call_ensures(ReconnectConfig::delay_for_attempt, (&cfg, attempt), r),
        call_ensures(ReconnectConfig::delay_for_attempt, (&cfg, (attempt + 1) as u32), next),
    ensures
        first == if cfg.initial_delay_ms <= cfg.max_delay_ms {
            cfg.initial_delay_ms
        } else {
            cfg.max_delay_ms
        },
        attempt >= 6 ==> next == r,
        attempt < 6 ==> next == if 2 * r <= cfg.max_delay_ms {
            2 * r
        } else {
            cfg.max_delay_ms as int
        },
        r <= cfg.max_delay_ms,
{
    backoff_factors(1);
    backoff_factors(attempt);
    backoff_factors((attempt + 1) as u32);
    let d = cfg.initial_delay_ms as int;
    let (a, b) = (backoff_factor(attempt), backoff_factor((attempt + 1) as u32));
    assert(d * a >= 0 && (b == 2 * a ==> d * b == 2 * (d * a))) by (nonlinear_arith)
        requires
            d >= 0,
            1 <= a <= 32,
    ;
}

/// A connection that fails is tried again until the failures in a row reach the most allowed. The
/// outage is counted from its first failure: a warning to pause is due exactly when it has lasted
/// longer than the threshold. A connection that is made starts both counts anew.
pub proof fn outages_count_from_their_first_failure(
    c: &mut Reconnect,
    d: &mut Reconnect,
    e: &mut Reconnect,
    t: u64,
    u: u64,
    r: ReconnectStep,
    q: ReconnectStep,
)
    requires
        old(c).config.initial_delay_ms * 32 <= u64::MAX,
        old(c).failures < u32::MAX - 1,
        call_ensures(Reconnect::lost, (c, t), r),
        *old(d) == *final(c),
        call_ensures(Reconnect::lost, (d, u), q),
        *old(e) == *final(d),
        call_ensures(Reconnect::connected, (e,), ()),
    ensures
        final(c).failures == old(c).failures + 1,
        final(d).failures == old(c).failures + 2,
        final(e).failures == 0,
        final(e).lost_at_ms is None,
        final(c).config == old(c).config && final(d).config == old(c).config && final(e).config
            == old(c).config,
        old(c).lost_at_ms is None ==> final(c).lost_at_ms == Some(t) && final(d).lost_at_ms == Some(
            t,
        ),
        old(c).lost_at_ms is Some ==> final(d).lost_at_ms == old(c).lost_at_ms,
        r is GiveUp <==> old(c).failures + 1 >= old(c).config.max_attempts,
        q is GiveUp <==> old(c).failures + 2 >= old(c).config.max_attempts,
        old(c).lost_at_ms is None && r is Retry ==> !r->pause_entries,
        old(c).lost_at_ms is None && q is Retry ==> (q->pause_entries <==> u > t
            + old(c).config.pause_threshold_ms),
        old(c).lost_at_ms matches Some(s) ==> (r is Retry ==> (r->pause_entries <==> t > s
            + old(c).config.pause_threshold_ms)),
{
}

/// The delay of a retry is the one of as many failures in a row.
pub proof fn retries_wait_their_turn(
    c: &mut Reconnect,
    t: u64,
    r: ReconnectStep,
    delay: u64,
    failures: u32,
    outage_ms: u64,
    q: ReconnectStep,
)
    requires
        old(c).config.initial_delay_ms * 32 <= u64::MAX,
        old(c).failures < u32::MAX,
        failures == old(c).failures + 1,
        call_ensures(Reconnect::lost, (c, t), r),
        call_ensures(ReconnectConfig::delay_for_attempt, (&old(c).config, failures), delay),
        call_ensures(ReconnectConfig::after_failure, (&old(c).config, failures, outage_ms), q),
    ensures
        r is Retry ==> r->delay_ms == delay,
        q is Retry ==> q->delay_ms == delay,
        q is GiveUp <==> failures >= old(c).config.max_attempts,
        q is Retry ==> (q->pause_entries <==> outage_ms > old(c).config.pause_threshold_ms),
{
    backoff_factors(failures);
}

/// An update carries the contract, the rate and the time of its message.
pub proof fn rates_are_passed_on(p: FundingRatePayload, rate_raw: i64, r: FundingRateUpdate, bps: i64)
    requires
        call_ensures(FundingRatePayload::to_update, (&p, rate_raw), r),
        call_ensures(FundingRateUpdate::rate_bps, (&r,), bps),
    ensures
        r.contract@ == p.contract@,
        r.rate_raw == rate_raw,
        r.timestamp_ms == p.t,
        bps == rate_raw,
{
}

/// A price with eight places is read as the number it was written for.
pub proof fn prices_with_eight_places_are_read_back(s: &str, raw: u64, r: Fixed64)
    requires
        s@ == eight_places(raw as nat),
        call_ensures(parse_price, (s,), r),
    ensures
        r@ == raw,
{
    price_round_trip(raw);
}

/// A connection starts without a failure and an outage.
pub proof fn connections_start_without_failures(config: ReconnectConfig, r: Reconnect)
    requires
        call_ensures(Reconnect::new, (config,), r),
    ensures
        r.config == config,
        r.failures == 0,
        r.lost_at_ms is None,
{
}

} // verus!
