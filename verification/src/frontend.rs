//! Dashboard: request routing, state and log.

use std::collections::VecDeque;

use vstd::prelude::*;
use vstd::utf8::*;

use crate::clock::unix_millis;
use crate::decimal::{
    append_decimal, append_nine_places, append_signed, append_signed_places, decimal,
    eight_places, nine_places, price_round_trip, price_text, price_value, signed_decimal,
    signed_places,
};
use crate::health::{http_head, http_head_text};
use crate::json::{append_json_bool, append_json_items, json_bool, json_items, texts};
use crate::text::chars_of;
use crate::types::{Fixed64, SCALE};

verus! {

/// Log entries that are kept.
pub const MAX_LOG_ENTRIES: usize = 100;

/// An ASCII letter in lower case; any other character as it is.
pub open spec fn ascii_lower(c: char) -> char {
    if 'A' <= c <= 'Z' {
        (c as u8 + 32) as char
    } else {
        c
    }
}

/// A text with its ASCII letters in lower case.
pub open spec fn lower(s: Seq<char>) -> Seq<char> {
    Seq::new(s.len(), |i: int| ascii_lower(s[i]))
}

/// `part` occurs in `s`, beginning at `i`.
pub open spec fn occurs_at(s: Seq<char>, part: Seq<char>, i: int) -> bool {
    &&& 0 <= i
    &&& i + part.len() <= s.len()
    &&& s.subrange(i, i + part.len()) == part
}

/// `part` occurs in `s`.
pub open spec fn contains_text(s: Seq<char>, part: Seq<char>) -> bool {
    exists|i: int| occurs_at(s, part, i)
}

/// An ASCII letter in lower case.
fn lower_char(c: char) -> (r: char)
    ensures
        r == ascii_lower(c),
{
    if 'A' <= c && c <= 'Z' {
        (c as u8 + 32) as char
    } else {
        c
    }
}

/// A request asks for a WebSocket: it holds the upgrade header, in whatever case.
pub fn is_ws_upgrade(request_text: &str) -> (r: bool)
    ensures
        r <==> contains_text(lower(request_text@), "upgrade: websocket"@),
{
    let s = chars_of(request_text);
    let part = chars_of("upgrade: websocket");
    let ghost low = lower(request_text@);
    if s.len() < part.len() {
        return false;
    }
    let last: usize = s.len() - part.len();
    let mut i: usize = 0;
    while i <= last
        invariant
            s@ == request_text@,
            part@ == "upgrade: websocket"@,
            low == lower(request_text@),
            last + part@.len() == s@.len() <= usize::MAX,
            i <= last + 1,
            forall|k: int| 0 <= k < i ==> !occurs_at(low, part@, k),
        decreases last + 1 - i,
    {
        let mut j: usize = 0;
        while j < part.len() && lower_char(s[i + j]) == part[j]
            invariant
                s@ == request_text@,
                low == lower(request_text@),
                last + part@.len() == s@.len() <= usize::MAX,
                i <= last,
                j <= part@.len(),
                forall|k: int| 0 <= k < j ==> low[i + k] == part@[k],
            decreases part@.len() - j,
        {
            j = j + 1;
        }
        if j == part.len() {
            assert(low.subrange(i as int, i + part@.len()) =~= part@);
            assert(occurs_at(low, part@, i as int));
            return true;
        }
        assert(!occurs_at(low, part@, i as int)) by {
            if occurs_at(low, part@, i as int) {
                assert(low.subrange(i as int, i + part@.len())[j as int] == part@[j as int]);
            }
        }
        i = i + 1;
    }
    false
}

/// Requests that differ only in the case of ASCII letters are treated alike.
pub proof fn upgrade_ignores_case(a: Seq<char>, b: Seq<char>)
    requires
        a.len() == b.len(),
        forall|i: int| 0 <= i < a.len() ==> ascii_lower(#[trigger] a[i]) == ascii_lower(b[i]),
    ensures
        contains_text(lower(a), "upgrade: websocket"@) == contains_text(
            lower(b),
            "upgrade: websocket"@,
        ),
{
    assert(lower(a) =~= lower(b));
}

/// The dashboard page.
pub const DASHBOARD_HTML: &'static str = "<!DOCTYPE html>
<html lang=\"en\">
<head>
<meta charset=\"utf-8\">
<title>gate-arb</title>
<style>
body { background: #10141a; color: #d8dee9; font-family: monospace; margin: 2em; }
h1 { font-size: 1.2em; }
table { border-collapse: collapse; margin-bottom: 1em; }
td { padding: 0.2em 1.5em 0.2em 0; }
td.value { text-align: right; color: #ffffff; }
#log { background: #161c24; padding: 0.8em; height: 18em; overflow-y: scroll; white-space: pre-wrap; }
.down { color: #e06c75; }
.up { color: #98c379; }
</style>
</head>
<body>
<h1>gate-arb <span id=\"link\" class=\"down\">offline</span></h1>
<table>
<tr><td>Spread (bps)</td><td class=\"value\" id=\"spread_bps\">-</td></tr>
<tr><td>Spot bid</td><td class=\"value\" id=\"bid_price\">-</td></tr>
<tr><td>Perp ask</td><td class=\"value\" id=\"ask_price\">-</td></tr>
<tr><td>P&amp;L (USD)</td><td class=\"value\" id=\"pnl_usd\">-</td></tr>
<tr><td>P&amp;L (%)</td><td class=\"value\" id=\"pnl_pct\">-</td></tr>
<tr><td>Trades</td><td class=\"value\" id=\"total_trades\">-</td></tr>
<tr><td>Wins / losses</td><td class=\"value\" id=\"record\">-</td></tr>
<tr><td>Position</td><td class=\"value\" id=\"position\">-</td></tr>
<tr><td>Funding (% per 8 h)</td><td class=\"value\" id=\"funding\">-</td></tr>
<tr><td>Updated</td><td class=\"value\" id=\"updated\">-</td></tr>
</table>
<div id=\"log\"></div>
<script>
function put(id, text) { document.getElementById(id).textContent = text; }
function show(s) {
  put('spread_bps', s.spread_bps.toFixed(2));
  put('bid_price', s.bid_price.toFixed(2));
  put('ask_price', s.ask_price.toFixed(2));
  put('pnl_usd', s.pnl_usd.toFixed(4));
  put('pnl_pct', s.pnl_pct.toFixed(4));
  put('total_trades', s.total_trades);
  put('record', s.wins + ' / ' + s.losses);
  put('position', s.position_open ? 'open' : 'flat');
  put('funding', (s.funding_rate_bps / 100).toFixed(2));
  put('updated', s.timestamp_ms ? new Date(s.timestamp_ms).toISOString() : '-');
  put('log', s.recent_logs.join('\\n'));
}
function link(up) {
  var e = document.getElementById('link');
  e.textContent = up ? 'live' : 'offline';
  e.className = up ? 'up' : 'down';
}
function connect() {
  var ws = new WebSocket('ws://' + location.host + '/');
  ws.onopen = function () { link(true); };
  ws.onmessage = function (m) { show(JSON.parse(m.data)); };
  ws.onclose = function () { link(false); setTimeout(connect, 2000); };
}
connect();
</script>
</body>
</html>
";

/// `std::str::from_utf8`: the text that bytes encode, if they are well-formed UTF-8.
#[verifier::external_body]
fn utf8_text(bytes: &[u8]) -> (r: Option<&str>)
    ensures
        match r {
            Some(s) => valid_utf8(bytes@) && s@ == decode_utf8(bytes@),
            None => !valid_utf8(bytes@),
        },
{
    std::str::from_utf8(bytes).ok()
}

/// What to do with a connection.
#[derive(Debug, Clone, Copy, PartialEq, Eq, Structural)]
pub enum Route {
    /// Close it without an answer.
    Close,
    /// Stream the dashboard state over a WebSocket.
    WebSocket,
    /// Send the dashboard page.
    Page,
}

/// Bytes that begin a GET request: at least four, the first three being `GET`.
pub open spec fn is_get(bytes: Seq<u8>) -> bool {
    &&& bytes.len() >= 4
    &&& bytes[0] == 71
    &&& bytes[1] == 69
    &&& bytes[2] == 84
}

/// The route for the first bytes of a connection. What is no GET request is closed; a request for
/// a WebSocket gets one; any other gets the page, one that is not UTF-8 too.
pub open spec fn route_of(bytes: Seq<u8>) -> Route {
    if !is_get(bytes) {
        Route::Close
    } else if valid_utf8(bytes) && contains_text(
        lower(decode_utf8(bytes)),
        "upgrade: websocket"@,
    ) {
        Route::WebSocket
    } else {
        Route::Page
    }
}

/// Routes a connection by its first bytes.
pub fn route(bytes: &[u8]) -> (r: Route)
    ensures
        r == route_of(bytes@),
{
    if bytes.len() < 4 || bytes[0] != 71u8 || bytes[1] != 69u8 || bytes[2] != 84u8 {
        return Route::Close;
    }
    match utf8_text(bytes) {
        Some(text) => if is_ws_upgrade(text) {
            Route::WebSocket
        } else {
            Route::Page
        },
        None => Route::Page,
    }
}

/// The head of the answer that carries the dashboard page.
pub fn page_head() -> (r: String)
    ensures
        r@ == http_head("text/html; charset=utf-8"@, encode_utf8(DASHBOARD_HTML@).len()),
{
    http_head_text("text/html; charset=utf-8", DASHBOARD_HTML.as_bytes().len())
}

/// What the dashboard shows.
#[derive(Debug, Clone)]
pub struct DashboardState {
    /// Spread in basis points, in raw units.
    pub spread_bps_raw: i64,
    pub bid_price: Fixed64,
    pub ask_price: Fixed64,
    /// Profit in USD, in raw units.
    pub pnl_raw: i64,
    /// Profit in percent of a notional of 500 USD, in billionths of a percent.
    pub pnl_pct_billionths: i128,
    pub total_trades: u64,
    pub wins: u64,
    pub losses: u64,
    pub position_open: bool,
    /// Funding rate in whole basis points.
    pub funding_rate_bps: i64,
    /// Time of the latest update in Unix milliseconds.
    pub timestamp_ms: u64,
    pub recent_logs: Vec<String>,
}

/// Profit in percent of a notional of 500 USD, in billionths of a percent. It is exact: one raw unit
/// is a hundred-millionth of a USD, and 5 USD are one percent.
pub open spec fn pnl_percent(pnl_raw: int) -> int {
    pnl_raw * 2
}

/// A dashboard state as JSON. Numbers in raw units are written with eight decimal places, the
/// profit in percent with nine.
pub open spec fn dashboard_json(s: DashboardState) -> Seq<char> {
    "{\"spread_bps\":"@ + signed_places(s.spread_bps_raw as int) + ",\"bid_price\":"@ + eight_places(
        s.bid_price@ as nat,
    ) + ",\"ask_price\":"@ + eight_places(s.ask_price@ as nat) + ",\"pnl_raw\":"@
        + signed_decimal(s.pnl_raw as int) + ",\"pnl_usd\":"@ + signed_places(s.pnl_raw as int)
        + ",\"pnl_pct\":"@ + nine_places(s.pnl_pct_billionths as int) + ",\"total_trades\":"@ + decimal(
        s.total_trades as nat,
    ) + ",\"wins\":"@ + decimal(s.wins as nat) + ",\"losses\":"@ + decimal(s.losses as nat)
        + ",\"position_open\":"@ + json_bool(s.position_open) + ",\"funding_rate_bps\":"@
        + signed_decimal(s.funding_rate_bps as int) + ",\"timestamp_ms\":"@ + decimal(
        s.timestamp_ms as nat,
    ) + ",\"recent_logs\":["@ + json_items(texts(s.recent_logs@)) + "]}"@
}

impl DashboardState {
    /// The state as JSON.
    pub fn to_json(&self) -> (r: String)
        ensures
            r@ == dashboard_json(*self),
    {
        let bid_price = price_text(self.bid_price.raw());
        let ask_price = price_text(self.ask_price.raw());
        let mut out = String::new();
        out.append("{\"spread_bps\":");
        append_signed_places(&mut out, self.spread_bps_raw);
        out.append(",\"bid_price\":");
        out.append(bid_price.as_str());
        out.append(",\"ask_price\":");
        out.append(ask_price.as_str());
        out.append(",\"pnl_raw\":");
        append_signed(&mut out, self.pnl_raw);
        out.append(",\"pnl_usd\":");
        append_signed_places(&mut out, self.pnl_raw);
        out.append(",\"pnl_pct\":");
        append_nine_places(&mut out, self.pnl_pct_billionths);
        out.append(",\"total_trades\":");
        append_decimal(&mut out, self.total_trades);
        out.append(",\"wins\":");
        append_decimal(&mut out, self.wins);
        out.append(",\"losses\":");
        append_decimal(&mut out, self.losses);
        out.append(",\"position_open\":");
        append_json_bool(&mut out, self.position_open);
        out.append(",\"funding_rate_bps\":");
        append_signed(&mut out, self.funding_rate_bps);
        out.append(",\"timestamp_ms\":");
        append_decimal(&mut out, self.timestamp_ms);
        out.append(",\"recent_logs\":[");
        append_json_items(&mut out, &self.recent_logs);
        out.append("]}");
        assert(out@ =~= dashboard_json(*self));
        out
    }
}

/// The log after another entry: the oldest makes way once the log is full.
pub open spec fn after_log(logs: Seq<String>, msg: String) -> Seq<String> {
    if logs.len() >= MAX_LOG_ENTRIES {
        logs.skip(1).push(msg)
    } else {
        logs.push(msg)
    }
}

/// State of the dashboard and its log.
pub struct FrontendWs {
    pub state: DashboardState,
    pub logs: VecDeque<String>,
}

impl FrontendWs {
    /// The state shows the whole log, and the log keeps its limit.
    pub open spec fn wf(self) -> bool {
        &&& self.state.recent_logs@ == self.logs@
        &&& self.logs@.len() <= MAX_LOG_ENTRIES
    }

    /// A dashboard with nothing to show.
    pub fn new() -> (r: Self)
        ensures
            r.wf(),
            r.state.spread_bps_raw == 0 && r.state.bid_price@ == 0 && r.state.ask_price@ == 0,
            r.state.pnl_raw == 0 && r.state.pnl_pct_billionths == 0,
            r.state.total_trades == 0 && r.state.wins == 0 && r.state.losses == 0,
            !r.state.position_open,
            r.state.funding_rate_bps == 0 && r.state.timestamp_ms == 0,
            r.logs@ == Seq::<String>::empty(),
    {
        Self {
            state: DashboardState {
                spread_bps_raw: 0,
                bid_price: Fixed64::zero(),
                ask_price: Fixed64::zero(),
                pnl_raw: 0,
                pnl_pct_billionths: 0,
                total_trades: 0,
                wins: 0,
                losses: 0,
                position_open: false,
                funding_rate_bps: 0,
                timestamp_ms: 0,
                recent_logs: Vec::new(),
            },
            logs: VecDeque::with_capacity(MAX_LOG_ENTRIES),
        }
    }

    /// Shows spread and prices.
    pub fn update_at(
        &mut self,
        spread_bps_raw: i64,
        bid_price: Fixed64,
        ask_price: Fixed64,
        now_ms: u64,
    )
        requires
            old(self).wf(),
        ensures
            final(self).wf(),
            final(self).logs == old(self).logs,
            final(self).state == (DashboardState {
                spread_bps_raw,
                bid_price,
                ask_price,
                timestamp_ms: now_ms,
                ..old(self).state
            }),
    {
        self.state.spread_bps_raw = spread_bps_raw;
        self.state.bid_price = bid_price;
        self.state.ask_price = ask_price;
        self.state.timestamp_ms = now_ms;
    }

    /// Shows spread and prices as of now.
    pub fn update(&mut self, spread_bps_raw: i64, bid_price: Fixed64, ask_price: Fixed64)
        requires
            old(self).wf(),
        ensures
            final(self).wf(),
            final(self).logs == old(self).logs,
            final(self).state == (DashboardState {
                spread_bps_raw,
                bid_price,
                ask_price,
                timestamp_ms: final(self).state.timestamp_ms,
                ..old(self).state
            }),
    {
        self.update_at(spread_bps_raw, bid_price, ask_price, unix_millis());
    }

    /// Shows profit and trade counts.
    pub fn update_pnl_at(
        &mut self,
        pnl_raw: i64,
        total_trades: u64,
        wins: u64,
        losses: u64,
        position_open: bool,
        now_ms: u64,
    )
        requires
            old(self).wf(),
        ensures
            final(self).wf(),
            final(self).logs == old(self).logs,
            final(self).state == (DashboardState {
                pnl_raw,
                pnl_pct_billionths: pnl_percent(pnl_raw as int) as i128,
                total_trades,
                wins,
                losses,
                position_open,
                timestamp_ms: now_ms,
                ..old(self).state
            }),
            final(self).state.pnl_pct_billionths == pnl_percent(pnl_raw as int),
    {
        self.state.pnl_raw = pnl_raw;
        self.state.pnl_pct_billionths = pnl_raw as i128 * 2;
        self.state.total_trades = total_trades;
        self.state.wins = wins;
        self.state.losses = losses;
        self.state.position_open = position_open;
        self.state.timestamp_ms = now_ms;
    }

    /// Shows profit and trade counts as of now.
    pub fn update_pnl(
        &mut self,
        pnl_raw: i64,
        total_trades: u64,
        wins: u64,
        losses: u64,
        position_open: bool,
    )
        requires
            old(self).wf(),
        ensures
            final(self).wf(),
            final(self).logs == old(self).logs,
            final(self).state == (DashboardState {
                pnl_raw,
                pnl_pct_billionths: pnl_percent(pnl_raw as int) as i128,
                total_trades,
                wins,
                losses,
                position_open,
                timestamp_ms: final(self).state.timestamp_ms,
                ..old(self).state
            }),
            final(self).state.pnl_pct_billionths == pnl_percent(pnl_raw as int),
    {
        self.update_pnl_at(pnl_raw, total_trades, wins, losses, position_open, unix_millis());
    }

    /// Shows the funding rate in whole basis points.
    pub fn update_funding_rate_at(&mut self, funding_rate_bps: i64, now_ms: u64)
        requires
            old(self).wf(),
        ensures
            final(self).wf(),
            final(self).logs == old(self).logs,
            final(self).state == (DashboardState {
                funding_rate_bps,
                timestamp_ms: now_ms,
                ..old(self).state
            }),
    {
        self.state.funding_rate_bps = funding_rate_bps;
        self.state.timestamp_ms = now_ms;
    }

    /// Shows the funding rate as of now.
    pub fn update_funding_rate(&mut self, funding_rate_bps: i64)
        requires
            old(self).wf(),
        ensures
            final(self).wf(),
            final(self).logs == old(self).logs,
            final(self).state == (DashboardState {
                funding_rate_bps,
                timestamp_ms: final(self).state.timestamp_ms,
                ..old(self).state
            }),
    {
        self.update_funding_rate_at(funding_rate_bps, unix_millis());
    }

    /// Adds a log entry; the oldest makes way once there are `MAX_LOG_ENTRIES`.
    pub fn log(&mut self, msg: String)
        requires
            old(self).wf(),
        ensures
            final(self).wf(),
            final(self).logs@ == after_log(old(self).logs@, msg),
            final(self).state == (DashboardState {
                recent_logs: final(self).state.recent_logs,
                ..old(self).state
            }),
    {
        if self.logs.len() >= MAX_LOG_ENTRIES {
            self.logs.pop_front();
            assert(self.logs@ =~= old(self).logs@.skip(1));
        }
        self.logs.push_back(msg.clone());
        self.state.recent_logs.push(msg);
        if self.state.recent_logs.len() > MAX_LOG_ENTRIES {
            self.state.recent_logs.remove(0);
            assert(self.state.recent_logs@ =~= old(self).logs@.skip(1).push(msg));
        }
    }
}

impl Default for FrontendWs {
    fn default() -> (r: Self)
        ensures
            r.wf(),
            r.state.spread_bps_raw == 0 && r.state.bid_price@ == 0 && r.state.ask_price@ == 0,
            r.state.pnl_raw == 0 && r.state.pnl_pct_billionths == 0,
            r.state.total_trades == 0 && r.state.wins == 0 && r.state.losses == 0,
            !r.state.position_open,
            r.state.funding_rate_bps == 0 && r.state.timestamp_ms == 0,
            r.logs@ == Seq::<String>::empty(),
    {
        Self::new()
    }
}

/// The percentage shown is exact: so many percent of 500 USD are the profit, with nothing rounded
/// off.
pub proof fn percentage_is_exact(pnl_raw: i64)
    ensures
        500 * SCALE * pnl_percent(pnl_raw as int) == 100 * pnl_raw * 1_000_000_000,
{
    assert(SCALE as int == 100_000_000);
}

/// The log after several entries, one after another.
pub open spec fn log_all(logs: Seq<String>, msgs: Seq<String>) -> Seq<String>
    decreases msgs.len(),
{
    if msgs.len() == 0 {
        logs
    } else {
        after_log(log_all(logs, msgs.drop_last()), msgs.last())
    }
}

/// However many entries are logged, exactly the newest are kept, up to the limit.
pub proof fn newest_entries_stay(logs: Seq<String>, msgs: Seq<String>)
    requires
        logs.len() <= MAX_LOG_ENTRIES,
    ensures
        log_all(logs, msgs) == {
            let all = logs + msgs;
            if all.len() <= MAX_LOG_ENTRIES {
                all
            } else {
                all.skip(all.len() - MAX_LOG_ENTRIES)
            }
        },
    decreases msgs.len(),
{
    let all = logs + msgs;
    if msgs.len() == 0 {
        assert(all =~= logs);
    } else {
        newest_entries_stay(logs, msgs.drop_last());
        assert((logs + msgs.drop_last()).push(msgs.last()) =~= all);
        if all.len() <= MAX_LOG_ENTRIES {
            assert(log_all(logs, msgs) =~= all);
        } else {
            assert(log_all(logs, msgs) =~= all.skip(all.len() - MAX_LOG_ENTRIES));
        }
    }
}

/// A request asks for a WebSocket exactly if the words `upgrade: websocket` stand in it somewhere,
/// each letter in either case.
pub proof fn upgrades_are_asked_for_in_either_case(request: &str, r: bool)
    requires
        call_ensures(is_ws_upgrade, (request,), r),
    ensures
        r <==> exists|a: Seq<char>, m: Seq<char>, b: Seq<char>|
            {
                let words = "upgrade: websocket"@;
                &&& request@ == #[trigger] (a + m + b)
                &&& m.len() == words.len()
                &&& forall|i: int|
                    0 <= i < m.len() ==> #[trigger] m[i] == words[i] || 'A' <= m[i] <= 'Z'
                        && m[i] as u32 + 32 == words[i] as u32
            },
{
    let words = "upgrade: websocket"@;
    reveal_strlit("upgrade: websocket");
    let s = request@;
    if r {
        let k = choose|k: int| occurs_at(lower(s), words, k);
        let (a, m, b) = (s.take(k), s.subrange(k, k + words.len()), s.skip(k + words.len()));
        assert(s =~= a + m + b);
        assert forall|i: int| 0 <= i < m.len() implies #[trigger] m[i] == words[i] || 'A' <= m[i]
            <= 'Z' && m[i] as u32 + 32 == words[i] as u32 by {
            assert(lower(s).subrange(k, k + words.len())[i] == words[i]);
            assert(lower(s)[k + i] == ascii_lower(m[i]));
        }
    }
    assert forall|a: Seq<char>, m: Seq<char>, b: Seq<char>|
        {
            &&& s == #[trigger] (a + m + b)
            &&& m.len() == words.len()
            &&& forall|i: int|
                0 <= i < m.len() ==> #[trigger] m[i] == words[i] || 'A' <= m[i] <= 'Z' && m[i] as u32
                    + 32 == words[i] as u32
        } implies r by {
        let k = a.len() as int;
        assert forall|i: int| 0 <= i < words.len() implies #[trigger] lower(s).subrange(
            k,
            k + words.len(),
        )[i] == words[i] by {
            assert(s[k + i] == m[i]);
            assert(!('A' <= words[i] <= 'Z'));
            assert(ascii_lower(m[i]) == words[i]);
        }
        assert(lower(s).subrange(k, k + words.len()) =~= words);
        assert(occurs_at(lower(s), words, k));
    }
}

/// A connection is closed exactly if its first bytes are not `GET` and at least one more. Otherwise
/// it gets the stream exactly if the bytes are text that asks for one, and the page if not.
pub proof fn connections_are_routed_by_their_request(
    bytes: &[u8],
    request: &str,
    asks: bool,
    r: Route,
)
    requires
        call_ensures(route, (bytes,), r),
        call_ensures(is_ws_upgrade, (request,), asks),
    ensures
        r == Route::Close <==> bytes@.len() < 4 || bytes@[0] != 'G' as u8 || bytes@[1] != 'E' as u8
            || bytes@[2] != 'T' as u8,
        !valid_utf8(bytes@) ==> r != Route::WebSocket,
        bytes@ == encode_utf8(request@) && r != Route::Close ==> (r == Route::WebSocket <==> asks),
{
    if bytes@ == encode_utf8(request@) {
        encode_utf8_decode_utf8(request@);
        encode_utf8_valid_utf8(request@);
    }
}

/// The profit that is shown is the one given, with the counts and the time given. In percent it is
/// the part of 500 USD, of which 5 USD are one percent, without rounding. Prices, funding and log
/// stay.
pub proof fn profits_are_shown_as_given(
    f: &mut FrontendWs,
    pnl_raw: i64,
    total: u64,
    wins: u64,
    losses: u64,
    open: bool,
    now_ms: u64,
)
    requires
        old(f).wf(),
        call_ensures(
            FrontendWs::update_pnl_at,
            (f, pnl_raw, total, wins, losses, open, now_ms),
            (),
        ),
    ensures
        final(f).state.pnl_raw == pnl_raw,
        final(f).state.pnl_pct_billionths * 5 == pnl_raw * 10,
        final(f).state.total_trades == total,
        final(f).state.wins == wins,
        final(f).state.losses == losses,
        final(f).state.position_open == open,
        final(f).state.timestamp_ms == now_ms,
        final(f).state.spread_bps_raw == old(f).state.spread_bps_raw,
        final(f).state.bid_price == old(f).state.bid_price,
        final(f).state.ask_price == old(f).state.ask_price,
        final(f).state.funding_rate_bps == old(f).state.funding_rate_bps,
        final(f).logs == old(f).logs,
{
}

/// Spread and prices are shown as given, and so is the funding rate; either changes nothing else but
/// the time.
pub proof fn market_is_shown_as_given(
    f: &mut FrontendWs,
    g: &mut FrontendWs,
    spread_bps_raw: i64,
    bid: Fixed64,
    ask: Fixed64,
    rate_bps: i64,
    now_ms: u64,
)
    requires
        old(f).wf(),
        old(g).wf(),
        call_ensures(FrontendWs::update_at, (f, spread_bps_raw, bid, ask, now_ms), ()),
        call_ensures(FrontendWs::update_funding_rate_at, (g, rate_bps, now_ms), ()),
    ensures
        final(f).state.spread_bps_raw == spread_bps_raw,
        final(f).state.bid_price == bid,
        final(f).state.ask_price == ask,
        final(f).state.timestamp_ms == now_ms,
        final(f).state.pnl_raw == old(f).state.pnl_raw,
        final(f).state.total_trades == old(f).state.total_trades,
        final(f).state.funding_rate_bps == old(f).state.funding_rate_bps,
        final(g).state.funding_rate_bps == rate_bps,
        final(g).state.timestamp_ms == now_ms,
        final(g).state.bid_price == old(g).state.bid_price,
        final(g).state.ask_price == old(g).state.ask_price,
        final(g).state.pnl_raw == old(g).state.pnl_raw,
{
}

/// An entry is logged last. Up to a hundred entries are kept, the newest ones, and what is shown is
/// the log.
pub proof fn logs_keep_the_newest_hundred(f: &mut FrontendWs, msg: String)
    requires
        old(f).wf(),
        call_ensures(FrontendWs::log, (f, msg), ()),
    ensures
        final(f).logs@.last() == msg,
        final(f).logs@.len() <= 100,
        old(f).logs@.len() < 100 ==> final(f).logs@ == old(f).logs@.push(msg),
        old(f).logs@.len() == 100 ==> final(f).logs@ == old(f).logs@.skip(1).push(msg),
        final(f).state.recent_logs@ == final(f).logs@,
        final(f).state.pnl_raw == old(f).state.pnl_raw,
        final(f).state.timestamp_ms == old(f).state.timestamp_ms,
{
}

/// The state goes out with each member under its own name: prices and profit in USD as decimal
/// numbers that read back as they are, the rest as it is.
#[verifier::rlimit(40)]
pub proof fn state_goes_out_member_by_member(s: DashboardState, r: String)
    requires
        call_ensures(DashboardState::to_json, (&s,), r),
    ensures
        exists|bid: Seq<char>, ask: Seq<char>|
            #![trigger encode_utf8(bid), encode_utf8(ask)]
            {
                &&& price_value(encode_utf8(bid)) == s.bid_price@
                &&& price_value(encode_utf8(ask)) == s.ask_price@
                &&& r@ == "{\"spread_bps\":"@ + signed_places(s.spread_bps_raw as int)
                    + ",\"bid_price\":"@ + bid + ",\"ask_price\":"@ + ask
                    + ",\"pnl_raw\":"@ + signed_decimal(s.pnl_raw as int)
                    + ",\"pnl_usd\":"@ + signed_places(s.pnl_raw as int) + ",\"pnl_pct\":"@
                    + nine_places(s.pnl_pct_billionths as int) + ",\"total_trades\":"@ + decimal(
                    s.total_trades as nat,
                ) + ",\"wins\":"@ + decimal(s.wins as nat) + ",\"losses\":"@ + decimal(
                    s.losses as nat,
                ) + ",\"position_open\":"@ + (if s.position_open {
                    "true"@
                } else {
                    "false"@
                }) + ",\"funding_rate_bps\":"@ + signed_decimal(s.funding_rate_bps as int)
                    + ",\"timestamp_ms\":"@ + decimal(s.timestamp_ms as nat)
                    + ",\"recent_logs\":["@ + json_items(texts(s.recent_logs@)) + "]}"@
            },
{
    price_round_trip(s.bid_price@);
    price_round_trip(s.ask_price@);
    let (bid, ask) = (eight_places(s.bid_price@ as nat), eight_places(s.ask_price@ as nat));
    let _ = (encode_utf8(bid), encode_utf8(ask));
}

/// The page is announced as HTML with its length in bytes.
pub proof fn page_is_announced_with_its_length(r: String)
    requires
        call_ensures(page_head, (), r),
    ensures
        r@ == "HTTP/1.1 200 OK\r\nContent-Type: "@ + "text/html; charset=utf-8"@
            + "\r\nContent-Length: "@ + decimal(encode_utf8(DASHBOARD_HTML@).len())
            + "\r\nConnection: close\r\n\r\n"@,
{
}

/// What is shown as of now is shown as given; only the time is the clock's.
pub proof fn updates_of_now_show_what_is_given(
    f: &mut FrontendWs,
    g: &mut FrontendWs,
    h: &mut FrontendWs,
    spread_bps_raw: i64,
    bid: Fixed64,
    ask: Fixed64,
    pnl_raw: i64,
    counts: (u64, u64, u64),
    open: bool,
    rate_bps: i64,
)
    requires
        old(f).wf(),
        old(g).wf(),
        old(h).wf(),
        call_ensures(FrontendWs::update, (f, spread_bps_raw, bid, ask), ()),
        call_ensures(
            FrontendWs::update_pnl,
            (g, pnl_raw, counts.0, counts.1, counts.2, open),
            (),
        ),
        call_ensures(FrontendWs::update_funding_rate, (h, rate_bps), ()),
    ensures
        final(f).state.spread_bps_raw == spread_bps_raw,
        final(f).state.bid_price == bid,
        final(f).state.ask_price == ask,
        final(f).state.pnl_raw == old(f).state.pnl_raw,
        final(g).state.pnl_raw == pnl_raw,
        final(g).state.pnl_pct_billionths * 5 == pnl_raw * 10,
        final(g).state.total_trades == counts.0,
        final(g).state.wins == counts.1,
        final(g).state.losses == counts.2,
        final(g).state.position_open == open,
        final(g).state.bid_price == old(g).state.bid_price,
        final(h).state.funding_rate_bps == rate_bps,
        final(h).state.pnl_raw == old(h).state.pnl_raw,
        final(h).state.bid_price == old(h).state.bid_price,
{
}

/// A dashboard starts with nothing to show.
pub proof fn dashboards_start_empty(r: FrontendWs)
    requires
        call_ensures(FrontendWs::new, (), r),
    ensures
        r.logs@.len() == 0,
        r.state.recent_logs@.len() == 0,
        r.state.pnl_raw == 0 && r.state.pnl_pct_billionths == 0 && r.state.spread_bps_raw == 0,
        r.state.bid_price@ == 0 && r.state.ask_price@ == 0,
        r.state.total_trades == 0 && r.state.wins == 0 && r.state.losses == 0,
        !r.state.position_open && r.state.funding_rate_bps == 0 && r.state.timestamp_ms == 0,
{
}

} // verus!
