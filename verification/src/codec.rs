//! Order messages of the exchange's WebSocket: placing, cancelling, updates.
//!
//! Orders are post-only limit orders on the spot account. Prices and amounts are written with
//! eight decimal places.

use vstd::prelude::*;
use vstd::utf8::*;

use crate::decimal::{
    append_decimal, decimal, decimal_round_trip, eight_places, parse_u64_between, parse_uint,
    price_round_trip, price_text, price_value,
};
use crate::json::{
    append_json_text, json_quoted, list_field, optional_string_field,
    plain_text_is_quoted_as_it_is, read_record, record_of, string_field, texts,
};
use crate::text::{holds_part, middle_is_part, same_text};
use crate::types::{Fixed64, OrderAck, OrderStatus, Side};

verus! {

/// Parameters of a place order message.
pub struct PlaceOrderParams<'a> {
    pub channel: &'static str,
    pub client_id: u64,
    pub symbol: &'a str,
    pub side: Side,
    pub price: Fixed64,
    /// In raw units.
    pub qty: u64,
    pub signature: &'a str,
    pub api_key: &'a str,
    pub ts: u64,
}

/// The exchange's word for a side.
pub open spec fn side_word(side: Side) -> Seq<char> {
    match side {
        Side::Bid => "buy"@,
        Side::Ask => "sell"@,
    }
}

/// The text field of an order with this identifier.
pub open spec fn order_text(client_id: u64) -> Seq<char> {
    "t-"@ + decimal(client_id as nat)
}

/// The beginning of a request, up to its payload.
pub open spec fn request_head(ts: u64, channel: Seq<char>, event: Seq<char>) -> Seq<char> {
    "{\"time\":"@ + decimal(ts as nat) + ",\"channel\":"@ + json_quoted(channel) + ",\"event\":"@
        + json_quoted(event) + ",\"payload\":"@
}

/// The end of a request: the authentication block.
pub open spec fn request_tail(api_key: Seq<char>, signature: Seq<char>) -> Seq<char> {
    ",\"auth\":{\"method\":\"api_key\",\"KEY\":"@ + json_quoted(api_key) + ",\"SIGN\":"@
        + json_quoted(signature) + "}}"@
}

/// The payload of a post-only limit order on the spot account.
pub open spec fn place_payload(
    client_id: u64,
    symbol: Seq<char>,
    side: Side,
    price: u64,
    qty: u64,
) -> Seq<char> {
    "{\"text\":"@ + json_quoted(order_text(client_id)) + ",\"currency_pair\":"@ + json_quoted(symbol)
        + ",\"type\":\"limit\",\"side\":"@ + json_quoted(side_word(side)) + ",\"price\":"@
        + json_quoted(eight_places(price as nat)) + ",\"amount\":"@ + json_quoted(
        eight_places(qty as nat),
    ) + ",\"time_in_force\":\"poc\",\"account\":\"spot\"}"@
}

/// The payload of a cancellation.
pub open spec fn cancel_payload(exchange_id: Seq<char>, symbol: Seq<char>) -> Seq<char> {
    "{\"order_id\":"@ + json_quoted(exchange_id) + ",\"currency_pair\":"@ + json_quoted(symbol)
        + ",\"account\":\"spot\"}"@
}

/// Writes the beginning of a request.
fn append_head(out: &mut String, ts: u64, channel: &str, event: &str)
    ensures
        final(out)@ == old(out)@ + request_head(ts, channel@, event@),
{
    let ghost start = out@;
    out.append("{\"time\":");
    append_decimal(out, ts);
    out.append(",\"channel\":");
    append_json_text(out, channel);
    out.append(",\"event\":");
    append_json_text(out, event);
    out.append(",\"payload\":");
    assert(out@ =~= start + request_head(ts, channel@, event@));
}

/// Writes the end of a request.
fn append_tail(out: &mut String, api_key: &str, signature: &str)
    ensures
        final(out)@ == old(out)@ + request_tail(api_key@, signature@),
{
    let ghost start = out@;
    out.append(",\"auth\":{\"method\":\"api_key\",\"KEY\":");
    append_json_text(out, api_key);
    out.append(",\"SIGN\":");
    append_json_text(out, signature);
    out.append("}}");
    assert(out@ =~= start + request_tail(api_key@, signature@));
}

/// Writes the message that places a post-only limit order.
pub fn encode_place_order(p: PlaceOrderParams<'_>) -> (r: String)
    ensures
        r@ == request_head(p.ts, p.channel@, "api"@) + place_payload(
            p.client_id,
            p.symbol@,
            p.side,
            p.price@,
            p.qty,
        ) + request_tail(p.api_key@, p.signature@),
{
    let side = match p.side {
        Side::Bid => "buy",
        Side::Ask => "sell",
    };
    let mut id_text = String::new();
    id_text.append("t-");
    append_decimal(&mut id_text, p.client_id);
    assert(id_text@ =~= order_text(p.client_id));
    let price = price_text(p.price.raw());
    let amount = price_text(p.qty);
    let mut out = String::new();
    append_head(&mut out, p.ts, p.channel, "api");
    let ghost head = out@;
    out.append("{\"text\":");
    append_json_text(&mut out, id_text.as_str());
    out.append(",\"currency_pair\":");
    append_json_text(&mut out, p.symbol);
    out.append(",\"type\":\"limit\",\"side\":");
    append_json_text(&mut out, side);
    out.append(",\"price\":");
    append_json_text(&mut out, price.as_str());
    out.append(",\"amount\":");
    append_json_text(&mut out, amount.as_str());
    out.append(",\"time_in_force\":\"poc\",\"account\":\"spot\"}");
    assert(out@ =~= head + place_payload(p.client_id, p.symbol@, p.side, p.price@, p.qty));
    append_tail(&mut out, p.api_key, p.signature);
    assert(head =~= request_head(p.ts, p.channel@, "api"@));
    out
}

/// Writes the message that cancels an order.
pub fn encode_cancel_order(
    channel: &'static str,
    exchange_id: &str,
    symbol: &str,
    signature: &str,
    api_key: &str,
    ts: u64,
) -> (r: String)
    ensures
        r@ == request_head(ts, channel@, "cancel"@) + cancel_payload(exchange_id@, symbol@)
            + request_tail(api_key@, signature@),
{
    let mut out = String::new();
    append_head(&mut out, ts, channel, "cancel");
    let ghost head = out@;
    out.append("{\"order_id\":");
    append_json_text(&mut out, exchange_id);
    out.append(",\"currency_pair\":");
    append_json_text(&mut out, symbol);
    out.append(",\"account\":\"spot\"}");
    assert(out@ =~= head + cancel_payload(exchange_id@, symbol@));
    append_tail(&mut out, api_key, signature);
    assert(head =~= request_head(ts, channel@, "cancel"@));
    out
}

/// Why an order update cannot be decoded.
#[derive(Debug, Clone, Copy, PartialEq, Eq, Structural)]
pub enum DecodeError {
    /// The text is no order event.
    Parse,
    /// The event holds no order.
    EmptyResult,
    /// The text field holds no identifier of ours.
    ClientId,
}

impl DecodeError {
    /// The error in words.
    pub fn message(self) -> (r: &'static str)
        ensures
            r@ == match self {
                DecodeError::Parse => "parse order event"@,
                DecodeError::EmptyResult => "empty result array"@,
                DecodeError::ClientId => "parse client_id from text field"@,
            },
    {
        match self {
            DecodeError::Parse => "parse order event",
            DecodeError::EmptyResult => "empty result array",
            DecodeError::ClientId => "parse client_id from text field",
        }
    }
}

/// One order of an order event.
#[derive(Debug, Clone)]
pub struct OrderResult {
    pub id: String,
    pub text: String,
    pub status: String,
    pub finish_as: Option<String>,
    pub left: String,
}

/// One order of an order event, as plain values.
pub struct OrderResultModel {
    pub id: Seq<char>,
    pub text: Seq<char>,
    pub status: Seq<char>,
    pub finish_as: Option<Seq<char>>,
    pub left: Seq<char>,
}

impl View for OrderResult {
    type V = OrderResultModel;

    open spec fn view(&self) -> OrderResultModel {
        OrderResultModel {
            id: self.id@,
            text: self.text@,
            status: self.status@,
            finish_as: match self.finish_as {
                Some(s) => Some(s@),
                None => None,
            },
            left: self.left@,
        }
    }
}

/// The identifier in a text field: `t-` and a number.
pub open spec fn client_id_of(text: Seq<char>) -> Option<nat> {
    let b = encode_utf8(text);
    if b.len() >= 2 && b[0] == 116 && b[1] == 45 {
        parse_uint(b.skip(2), u64::MAX as nat)
    } else {
        None
    }
}

/// The status of an order. An open order with nothing left is filled. A closed order is filled if
/// it finished so, and cancelled otherwise. Any other status counts as open.
pub open spec fn status_of(o: OrderResultModel) -> OrderStatus {
    if o.status == "open"@ {
        if o.left == "0"@ {
            OrderStatus::Filled
        } else {
            OrderStatus::Open
        }
    } else if o.status == "closed"@ {
        if o.finish_as == Some("filled"@) {
            OrderStatus::Filled
        } else {
            OrderStatus::Cancelled
        }
    } else {
        OrderStatus::Open
    }
}

/// What the orders of an event decode to: the first one counts.
pub open spec fn decodes_to(
    results: Seq<OrderResultModel>,
    r: Result<OrderAck, DecodeError>,
) -> bool {
    if results.len() == 0 {
        r == Err::<OrderAck, DecodeError>(DecodeError::EmptyResult)
    } else {
        match client_id_of(results[0].text) {
            None => r == Err::<OrderAck, DecodeError>(DecodeError::ClientId),
            Some(id) => {
                &&& r is Ok
                &&& r->Ok_0.client_id == id
                &&& r->Ok_0.exchange_id@ == results[0].id
                &&& r->Ok_0.status == status_of(results[0])
            },
        }
    }
}

/// An order of an event, as JSON: a record of five fields.
pub open spec fn order_of(text: Seq<char>) -> Option<OrderResultModel> {
    match record_of(text, 5) {
        Some(f) => match (
            string_field(f, 0, "id"@),
            string_field(f, 1, "text"@),
            string_field(f, 2, "status"@),
            optional_string_field(f, 3, "finish_as"@),
            string_field(f, 4, "left"@),
        ) {
            (Some(id), Some(text), Some(status), Some(finish_as), Some(left)) => Some(
                OrderResultModel { id, text, status, finish_as, left },
            ),
            _ => None,
        },
        None => None,
    }
}

/// The orders in a list, if each of them is one.
pub open spec fn all_orders(items: Seq<Seq<char>>) -> Option<Seq<OrderResultModel>> {
    if forall|i: int| 0 <= i < items.len() ==> order_of(#[trigger] items[i]) is Some {
        Some(Seq::new(items.len(), |i: int| order_of(items[i])->0))
    } else {
        None
    }
}

/// The orders of an event, as JSON: a record of a channel, an event name and a list of orders.
pub open spec fn orders_of(text: Seq<char>) -> Option<Seq<OrderResultModel>> {
    match record_of(text, 3) {
        Some(f) => match (
            string_field(f, 0, "channel"@),
            string_field(f, 1, "event"@),
            list_field(f, 2, "result"@),
        ) {
            (Some(_), Some(_), Some(items)) => all_orders(items),
            _ => None,
        },
        None => None,
    }
}

/// Reads an order.
fn read_order(text: &str) -> (r: Option<OrderResult>)
    ensures
        match r {
            Some(o) => order_of(text@) == Some(o@),
            None => order_of(text@) is None,
        },
{
    let fields = match read_record(text, 5) {
        Some(f) => f,
        None => return None,
    };
    match (
        fields.string(0, "id"),
        fields.string(1, "text"),
        fields.string(2, "status"),
        fields.optional_string(3, "finish_as"),
        fields.string(4, "left"),
    ) {
        (Some(id), Some(text), Some(status), Some(finish_as), Some(left)) => Some(
            OrderResult { id, text, status, finish_as, left },
        ),
        _ => None,
    }
}

/// The views of some orders.
pub open spec fn order_views(orders: Seq<OrderResult>) -> Seq<OrderResultModel> {
    Seq::new(orders.len(), |i: int| orders[i]@)
}

/// Reads a list of orders.
fn read_all(items: &Vec<String>) -> (r: Option<Vec<OrderResult>>)
    ensures
        match r {
            Some(orders) => all_orders(texts(items@)) == Some(order_views(orders@)),
            None => all_orders(texts(items@)) is None,
        },
{
    let ghost all = texts(items@);
    let mut orders: Vec<OrderResult> = Vec::new();
    let mut i: usize = 0;
    while i < items.len()
        invariant
            i <= items@.len(),
            all == texts(items@),
            orders@.len() == i,
            forall|k: int|
                0 <= k < i ==> order_of(#[trigger] all[k]) == Some((#[trigger] orders@[k])@),
        decreases items@.len() - i,
    {
        assert(all[i as int] == items@[i as int]@);
        match read_order(items[i].as_str()) {
            Some(o) => {
                orders.push(o);
            },
            None => return None,
        }
        i = i + 1;
    }
    proof {
        assert forall|k: int| 0 <= k < all.len() implies order_of(#[trigger] all[k])
            == Some(orders@[k]@) by {
            let _ = orders@[k];
        }
        assert(all_orders(all)->0 =~= order_views(orders@));
    }
    Some(orders)
}

/// Reads the orders of an event.
fn read_orders(text: &str) -> (r: Option<Vec<OrderResult>>)
    ensures
        match r {
            Some(orders) => orders_of(text@) == Some(order_views(orders@)),
            None => orders_of(text@) is None,
        },
{
    let fields = match read_record(text, 3) {
        Some(f) => f,
        None => return None,
    };
    if fields.string(0, "channel").is_none() || fields.string(1, "event").is_none() {
        return None;
    }
    match fields.list(2, "result") {
        Some(items) => read_all(&items),
        None => None,
    }
}

/// The identifier in a text field.
pub fn parse_client_id(text: &str) -> (r: Option<u64>)
    ensures
        match r {
            Some(id) => client_id_of(text@) == Some(id as nat),
            None => client_id_of(text@) is None,
        },
{
    let bytes = text.as_bytes();
    let len: usize = bytes.len();
    if len < 2 || bytes[0] != 116u8 || bytes[1] != 45u8 {
        return None;
    }
    assert(bytes@.subrange(2, len as int) =~= bytes@.skip(2));
    parse_u64_between(bytes, 2, len)
}

/// The status of an order.
pub fn order_status(o: &OrderResult) -> (r: OrderStatus)
    ensures
        r == status_of(o@),
{
    if same_text(o.status.as_str(), "open") {
        if same_text(o.left.as_str(), "0") {
            OrderStatus::Filled
        } else {
            OrderStatus::Open
        }
    } else if same_text(o.status.as_str(), "closed") {
        match &o.finish_as {
            Some(f) => if same_text(f.as_str(), "filled") {
                OrderStatus::Filled
            } else {
                OrderStatus::Cancelled
            },
            None => OrderStatus::Cancelled,
        }
    } else {
        OrderStatus::Open
    }
}

/// Decodes the orders of an event: the first one counts.
pub fn decode_order_event(orders: &Vec<OrderResult>) -> (r: Result<OrderAck, DecodeError>)
    ensures
        decodes_to(order_views(orders@), r),
{
    if orders.len() == 0 {
        return Err(DecodeError::EmptyResult);
    }
    let first = &orders[0];
    assert(order_views(orders@)[0] == first@);
    match parse_client_id(first.text.as_str()) {
        Some(client_id) => Ok(
            OrderAck {
                client_id,
                exchange_id: first.id.clone(),
                status: order_status(first),
            },
        ),
        None => Err(DecodeError::ClientId),
    }
}

/// What a text decodes to.
pub open spec fn update_decodes_to(text: Seq<char>, r: Result<OrderAck, DecodeError>) -> bool {
    match orders_of(text) {
        None => r == Err::<OrderAck, DecodeError>(DecodeError::Parse),
        Some(orders) => decodes_to(orders, r),
    }
}

/// Decodes an order update.
pub fn decode_order_update(raw: &str) -> (r: Result<OrderAck, DecodeError>)
    ensures
        update_decodes_to(raw@, r),
{
    match read_orders(raw) {
        Some(orders) => decode_order_event(&orders),
        None => Err(DecodeError::Parse),
    }
}

/// The text field of a placed order gives its identifier back.
pub proof fn client_id_round_trip(client_id: u64)
    ensures
        client_id_of(order_text(client_id)) == Some(client_id as nat),
{
    reveal_strlit("t-");
    let d = decimal(client_id as nat);
    decimal_round_trip(client_id);
    let text = order_text(client_id);
    is_ascii_chars_concat(text, "t-"@, d);
    is_ascii_chars_encode_utf8(text);
    is_ascii_chars_encode_utf8(d);
    assert(encode_utf8(text).skip(2) =~= encode_utf8(d));
}

/// The member that names a side, as it stands in a message.
proof fn side_member(side: Side)
    ensures
        side == Side::Bid ==> ",\"type\":\"limit\",\"side\":"@ + json_quoted(side_word(side))
            == ",\"type\":\"limit\","@ + "\"side\":\"buy\""@,
        side == Side::Ask ==> ",\"type\":\"limit\",\"side\":"@ + json_quoted(side_word(side))
            == ",\"type\":\"limit\","@ + "\"side\":\"sell\""@,
        side == Side::Bid ==> json_quoted(side_word(side)).len() == 5,
        side == Side::Ask ==> json_quoted(side_word(side)).len() == 6,
{
    reveal_strlit("buy");
    reveal_strlit("sell");
    reveal_strlit(",\"type\":\"limit\",\"side\":");
    reveal_strlit(",\"type\":\"limit\",");
    reveal_strlit("\"side\":\"buy\"");
    reveal_strlit("\"side\":\"sell\"");
    plain_text_is_quoted_as_it_is("buy"@);
    plain_text_is_quoted_as_it_is("sell"@);
    assert("buy"@ =~= seq!['b', 'u', 'y']);
    assert("sell"@ =~= seq!['s', 'e', 'l', 'l']);
    if side == Side::Bid {
        assert(",\"type\":\"limit\",\"side\":"@ + json_quoted(side_word(side))
            =~= ",\"type\":\"limit\","@ + "\"side\":\"buy\""@);
    } else {
        assert(",\"type\":\"limit\",\"side\":"@ + json_quoted(side_word(side))
            =~= ",\"type\":\"limit\","@ + "\"side\":\"sell\""@);
    }
}

/// The message that places an order spells out that order: identifier, pair, side, and price and
/// amount in a form that reads back as the same numbers. It is a limit order that is cancelled
/// rather than taken, on the spot account, and it carries the key and the signature.
#[verifier::rlimit(40)]
pub proof fn place_message_spells_the_order(p: PlaceOrderParams<'_>, r: String)
    requires
        call_ensures(encode_place_order, (p,), r),
    ensures
        exists|price: Seq<char>, amount: Seq<char>|
            #![trigger json_quoted(price), json_quoted(amount)]
            {
                &&& price_value(encode_utf8(price)) == p.price@
                &&& price_value(encode_utf8(amount)) == p.qty
                &&& r@ == ("{\"time\":"@ + decimal(p.ts as nat) + ",\"channel\":"@ + json_quoted(
                    p.channel@,
                ) + ",\"event\":"@ + json_quoted("api"@) + ",\"payload\":"@) + ("{\"text\":"@
                    + json_quoted("t-"@ + decimal(p.client_id as nat)) + ",\"currency_pair\":"@
                    + json_quoted(p.symbol@) + ",\"type\":\"limit\",\"side\":"@ + json_quoted(
                    if p.side == Side::Bid {
                        "buy"@
                    } else {
                        "sell"@
                    },
                ) + ",\"price\":"@ + json_quoted(price) + ",\"amount\":"@ + json_quoted(amount)
                    + ",\"time_in_force\":\"poc\",\"account\":\"spot\"}"@) + (
                ",\"auth\":{\"method\":\"api_key\",\"KEY\":"@ + json_quoted(p.api_key@)
                    + ",\"SIGN\":"@ + json_quoted(p.signature@) + "}}"@)
            },
{
    let price = eight_places(p.price@ as nat);
    let amount = eight_places(p.qty as nat);
    price_round_trip(p.price@);
    price_round_trip(p.qty);
    let _ = (json_quoted(price), json_quoted(amount));
}

/// Seven texts in a row, grouped around the third and fourth.
proof fn grouped_in_the_middle(
    h: Seq<char>,
    a: Seq<char>,
    b: Seq<char>,
    c: Seq<char>,
    d: Seq<char>,
    e: Seq<char>,
    t: Seq<char>,
)
    ensures
        h + (a + b + c + d + e) + t == (h + a) + (b + c) + ((d + e) + t),
{
    assert(h + (a + b + c + d + e) + t =~= (h + a) + (b + c) + ((d + e) + t));
}

/// Whatever stands around it, the payload of an order names its side: a bid buys, an ask sells, and
/// with the other side the text is another one.
pub proof fn payload_names_the_side(
    head: Seq<char>,
    client_id: u64,
    symbol: Seq<char>,
    side: Side,
    other: Side,
    price: u64,
    qty: u64,
    tail: Seq<char>,
)
    ensures
        ({
            let text = head + place_payload(client_id, symbol, side, price, qty) + tail;
            &&& side == Side::Bid ==> holds_part(text, "\"side\":\"buy\""@)
            &&& side == Side::Ask ==> holds_part(text, "\"side\":\"sell\""@)
            &&& side != other ==> text != head + place_payload(client_id, symbol, other, price, qty)
                + tail
        }),
{
    side_member(side);
    side_member(other);
    let a = "{\"text\":"@ + json_quoted(order_text(client_id)) + ",\"currency_pair\":"@
        + json_quoted(symbol);
    let b = ",\"type\":\"limit\",\"side\":"@;
    let d = ",\"price\":"@ + json_quoted(eight_places(price as nat));
    let e = ",\"amount\":"@ + json_quoted(eight_places(qty as nat))
        + ",\"time_in_force\":\"poc\",\"account\":\"spot\"}"@;
    let (c, o) = (json_quoted(side_word(side)), json_quoted(side_word(other)));
    assert(place_payload(client_id, symbol, side, price, qty) =~= a + b + c + d + e);
    assert(place_payload(client_id, symbol, other, price, qty) =~= a + b + o + d + e);
    grouped_in_the_middle(head, a, b, c, d, e, tail);
    let kind = ",\"type\":\"limit\","@;
    let part = if side == Side::Bid {
        "\"side\":\"buy\""@
    } else {
        "\"side\":\"sell\""@
    };
    let (before, behind) = (head + a, (d + e) + tail);
    assert(before + (kind + part) + behind =~= (before + kind) + part + behind);
    middle_is_part(before + kind, part, behind);
}

/// A bid is placed as a purchase and an ask as a sale, and the messages of two orders that differ
/// in the side alone differ.
pub proof fn place_message_names_the_side(
    p: PlaceOrderParams<'_>,
    q: PlaceOrderParams<'_>,
    r: String,
    t: String,
)
    requires
        call_ensures(encode_place_order, (p,), r),
        call_ensures(encode_place_order, (q,), t),
        q == (PlaceOrderParams { side: q.side, ..p }),
    ensures
        p.side == Side::Bid ==> holds_part(r@, "\"side\":\"buy\""@),
        p.side == Side::Ask ==> holds_part(r@, "\"side\":\"sell\""@),
        p.side != q.side ==> r@ != t@,
{
    payload_names_the_side(
        request_head(p.ts, p.channel@, "api"@),
        p.client_id,
        p.symbol@,
        p.side,
        q.side,
        p.price@,
        p.qty,
        request_tail(p.api_key@, p.signature@),
    );
}

/// The message that cancels an order names that order and its pair, on the spot account, and
/// carries the key and the signature.
#[verifier::rlimit(40)]
pub proof fn cancel_message_names_the_order(
    channel: &'static str,
    exchange_id: &str,
    symbol: &str,
    signature: &str,
    api_key: &str,
    ts: u64,
    r: String,
)
    requires
        call_ensures(
            encode_cancel_order,
            (channel, exchange_id, symbol, signature, api_key, ts),
            r,
        ),
    ensures
        r@ == ("{\"time\":"@ + decimal(ts as nat) + ",\"channel\":"@ + json_quoted(channel@)
            + ",\"event\":"@ + json_quoted("cancel"@) + ",\"payload\":"@) + ("{\"order_id\":"@
            + json_quoted(exchange_id@) + ",\"currency_pair\":"@ + json_quoted(symbol@)
            + ",\"account\":\"spot\"}"@) + (",\"auth\":{\"method\":\"api_key\",\"KEY\":"@
            + json_quoted(api_key@) + ",\"SIGN\":"@ + json_quoted(signature@) + "}}"@),
{
}

/// The first order of an event counts. It gives the exchange's identifier as it stands, and ours as
/// it was written when the order was placed. It is filled exactly if it is open with nothing left,
/// or closed as filled; cancelled exactly if it is closed in any other way; open otherwise.
pub proof fn first_order_of_an_event_counts(
    orders: Vec<OrderResult>,
    client_id: u64,
    r: Result<OrderAck, DecodeError>,
)
    requires
        call_ensures(decode_order_event, (&orders,), r),
    ensures
        orders@.len() == 0 <==> r == Err::<OrderAck, DecodeError>(DecodeError::EmptyResult),
        r is Err ==> r->Err_0 != DecodeError::Parse,
        orders@.len() > 0 && orders@[0].text@ == "t-"@ + decimal(client_id as nat) ==> r is Ok
            && r->Ok_0.client_id == client_id,
        r matches Ok(ack) ==> {
            let o = orders@[0];
            let closed = o.status@ == "closed"@;
            let as_filled = o.finish_as is Some && o.finish_as->0@ == "filled"@;
            &&& ack.exchange_id@ == o.id@
            &&& ack.status == OrderStatus::Filled <==> o.status@ == "open"@ && o.left@ == "0"@
                || closed && as_filled
            &&& ack.status == OrderStatus::Cancelled <==> closed && !as_filled
            &&& ack.status == OrderStatus::Open <==> !closed && !(o.status@ == "open"@ && o.left@
                == "0"@)
        },
{
    client_id_round_trip(client_id);
    reveal_strlit("open");
    reveal_strlit("closed");
    assert("open"@.len() == 4 && "closed"@.len() == 6);
    if orders@.len() > 0 {
        assert(order_views(orders@)[0] == orders@[0]@);
    }
}

/// An identifier is read exactly from text that begins with `t-`: any other text holds none, and so
/// does text with no number behind that.
pub proof fn identifiers_begin_with_t(text: &str, r: Option<u64>)
    requires
        call_ensures(parse_client_id, (text,), r),
    ensures
        r is Some ==> encode_utf8(text@).len() > 2 && encode_utf8(text@)[0] == 't' as u8
            && encode_utf8(text@)[1] == '-' as u8,
        r matches Some(n) ==> parse_uint(encode_utf8(text@).skip(2), u64::MAX as nat) == Some(
            n as nat,
        ),
        r is None && encode_utf8(text@).len() > 2 && encode_utf8(text@)[0] == 't' as u8
            && encode_utf8(text@)[1] == '-' as u8 ==> parse_uint(
            encode_utf8(text@).skip(2),
            u64::MAX as nat,
        ) is None,
{
}

/// A text decodes to what its orders decode to. One that is no record of a channel, an event and a
/// list of orders, each with its five fields, is refused as such.
pub proof fn updates_decode_their_orders(
    raw: &str,
    r: Result<OrderAck, DecodeError>,
    orders: Vec<OrderResult>,
    q: Result<OrderAck, DecodeError>,
)
    requires
        call_ensures(decode_order_update, (raw,), r),
        call_ensures(decode_order_event, (&orders,), q),
        orders_of(raw@) is None || orders_of(raw@) == Some(order_views(orders@)),
    ensures
        orders_of(raw@) is None <==> r == Err::<OrderAck, DecodeError>(DecodeError::Parse),
        orders_of(raw@) is Some ==> {
            &&& r is Ok <==> q is Ok
            &&& r is Ok ==> r->Ok_0.client_id == q->Ok_0.client_id && r->Ok_0.status
                == q->Ok_0.status && r->Ok_0.exchange_id@ == q->Ok_0.exchange_id@
            &&& r is Err ==> r == q
        },
        orders_of(raw@) matches Some(all) ==> record_of(raw@, 3) is Some && string_field(
            record_of(raw@, 3)->0,
            0,
            "channel"@,
        ) is Some && string_field(record_of(raw@, 3)->0, 1, "event"@) is Some && list_field(
            record_of(raw@, 3)->0,
            2,
            "result"@,
        ) is Some && all.len() == list_field(record_of(raw@, 3)->0, 2, "result"@)->0.len(),
{
}

/// An order is read from a record of five fields, each under its own name and in its own place. The
/// way it finished may be missing; the others have to be there.
pub proof fn orders_have_five_fields(text: Seq<char>)
    ensures
        order_of(text) is Some <==> {
            &&& record_of(text, 5) is Some
            &&& string_field(record_of(text, 5)->0, 0, "id"@) is Some
            &&& string_field(record_of(text, 5)->0, 1, "text"@) is Some
            &&& string_field(record_of(text, 5)->0, 2, "status"@) is Some
            &&& optional_string_field(record_of(text, 5)->0, 3, "finish_as"@) is Some
            &&& string_field(record_of(text, 5)->0, 4, "left"@) is Some
        },
        order_of(text) matches Some(o) ==> {
            let f = record_of(text, 5)->0;
            &&& Some(o.id) == string_field(f, 0, "id"@)
            &&& Some(o.text) == string_field(f, 1, "text"@)
            &&& Some(o.status) == string_field(f, 2, "status"@)
            &&& Some(o.finish_as) == optional_string_field(f, 3, "finish_as"@)
            &&& Some(o.left) == string_field(f, 4, "left"@)
        },
{
}

} // verus!
