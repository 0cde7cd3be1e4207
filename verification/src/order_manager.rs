//! Private order session: login, subscription, commands out, acknowledgements in.
//!
//! The session logic is a function from an event to an action. Whoever holds the connection
//! performs the action and hands back the next event.

use vstd::prelude::*;
use vstd::utf8::*;

use crate::auth::{build_auth_header, hmac_sign, sign_string, sign_text, signature_of};
use crate::codec::{
    cancel_payload, decode_order_update, encode_cancel_order, encode_place_order,
    payload_names_the_side, place_payload, request_head, request_tail, update_decodes_to,
    DecodeError, PlaceOrderParams,
};
use crate::decimal::{
    append_decimal, decimal, decimal_text, eight_places, price_round_trip, price_value,
};
use crate::json::{append_json_text, json_quoted};
use crate::ring::{
    after_insert, after_remove, after_update, by_age, distinct_ids, found,
    full_ring_has_no_free_slot, insertion_loses_only_the_oldest, place, place_is_sound,
    removal_spares_the_others, removed_order_is_gone, slot_is_lowest, update_is_found,
    InFlightOrder, OrderRing, RingModel,
};
use crate::text::holds_part;
use crate::types::{OrderAck, OrderCmd, OrderStatus, Side};

verus! {

/// Credentials and address of the order session.
pub struct OrderManager {
    api_key: String,
    api_secret: String,
    ws_url: &'static str,
}

/// What can happen to a session.
#[derive(Debug, Clone)]
pub enum SessionEvent {
    /// A text message came in.
    Text(String),
    /// A ping frame came in, with its data.
    Ping(Vec<u8>),
    /// Some other frame came in.
    OtherFrame,
    /// The connection failed.
    Failed,
    /// The connection was closed.
    Closed,
    /// The strategy sent a command.
    Command(OrderCmd),
    /// No more commands will come.
    CommandsClosed,
    /// The ping interval passed.
    PingDue,
}

/// What to do about it.
#[derive(Debug, Clone)]
pub enum SessionAction {
    /// Nothing.
    Wait,
    /// Send a text message.
    Send(String),
    /// Answer the ping frame, with this data.
    Pong(Vec<u8>),
    /// Hand the acknowledgement to the strategy.
    Deliver(OrderAck),
    /// End the session.
    Stop,
}

/// The order needs no more tracking.
pub open spec fn is_settled(status: OrderStatus) -> bool {
    status == OrderStatus::Filled || status == OrderStatus::Cancelled
}

/// The tracked orders after an acknowledgement.
pub open spec fn after_ack_in_ring(ring: RingModel, ack: OrderAck) -> RingModel {
    let updated = after_update(ring, ack.client_id, ack.exchange_id, ack.status);
    if is_settled(ack.status) {
        after_remove(updated, ack.client_id)
    } else {
        updated
    }
}

/// The login message.
pub open spec fn login_text(api_key: Seq<char>, api_secret: Seq<char>, ts: u64) -> Seq<char> {
    "{\"auth\":{\"KEY\":"@ + json_quoted(api_key) + ",\"SIGN\":"@ + json_quoted(
        signature_of(api_secret, sign_string(""@, ""@, ts)),
    ) + ",\"Timestamp\":"@ + json_quoted(decimal(ts as nat))
        + ",\"method\":\"api_key\"},\"channel\":\"spot.login\",\"event\":\"api\",\"payload\":{},\"time\":"@
        + decimal(ts as nat) + "}"@
}

/// The subscription to order updates.
pub open spec fn subscribe_text(ts: u64) -> Seq<char> {
    "{\"channel\":\"spot.orders\",\"event\":\"subscribe\",\"payload\":[\"BTC_USDT\"],\"time\":"@
        + decimal(ts as nat) + "}"@
}

/// The periodic ping.
pub open spec fn ping_text(ts: u64) -> Seq<char> {
    "{\"channel\":\"spot.ping\",\"event\":\"\",\"time\":"@ + decimal(ts as nat) + "}"@
}

/// The message for a command.
pub open spec fn command_text(
    cmd: OrderCmd,
    api_key: Seq<char>,
    api_secret: Seq<char>,
    ts: u64,
) -> Seq<char> {
    match cmd {
        OrderCmd::Place { client_id, symbol, side, price, qty, post_only } => request_head(
            ts,
            "spot.orders"@,
            "api"@,
        ) + place_payload(client_id, symbol@, side, price@, qty) + request_tail(
            api_key,
            signature_of(api_secret, sign_string("spot.orders"@, "api"@, ts)),
        ),
        OrderCmd::Cancel { client_id, exchange_id, symbol } => request_head(
            ts,
            "spot.orders"@,
            "cancel"@,
        ) + cancel_payload(exchange_id@, symbol@) + request_tail(
            api_key,
            signature_of(api_secret, sign_string("spot.orders"@, "cancel"@, ts)),
        ),
    }
}

/// The entry that tracks a placed order: open, and without an exchange identifier so far.
pub open spec fn is_tracked(o: InFlightOrder, cmd: OrderCmd) -> bool {
    cmd matches OrderCmd::Place { client_id, symbol, side, price, qty, post_only } && o.client_id
        == client_id && o.exchange_id@ == ""@ && o.symbol == symbol && o.side == side && o.price
        == price && o.qty == qty && o.status == OrderStatus::Open
}

/// The tracked orders after a command: a placed order is added, a cancellation changes nothing
/// until it is acknowledged.
pub open spec fn tracks_command(
    before: RingModel,
    after: RingModel,
    cmd: OrderCmd,
) -> bool {
    match cmd {
        OrderCmd::Place { .. } => after.slots[place(before)] matches Some(order) && is_tracked(
            order,
            cmd,
        ) && after == after_insert(before, order),
        OrderCmd::Cancel { .. } => after == before,
    }
}

/// What one event leads to.
pub open spec fn is_step(
    key: Seq<char>,
    secret: Seq<char>,
    event: SessionEvent,
    ts: u64,
    before: RingModel,
    after: RingModel,
    action: SessionAction,
) -> bool {
    match event {
        SessionEvent::Text(text) => match action {
            SessionAction::Deliver(ack) => {
                &&& update_decodes_to(text@, Ok(ack))
                &&& after == after_ack_in_ring(before, ack)
            },
            SessionAction::Wait => {
                &&& exists|e: DecodeError| update_decodes_to(text@, Err(e))
                &&& after == before
            },
            _ => false,
        },
        SessionEvent::Ping(data) => {
            &&& action matches SessionAction::Pong(answer) && answer@ == data@
            &&& after == before
        },
        SessionEvent::OtherFrame => action is Wait && after == before,
        SessionEvent::Failed => action is Stop && after == before,
        SessionEvent::Closed => action is Stop && after == before,
        SessionEvent::Command(cmd) => {
            &&& action matches SessionAction::Send(text) && text@ == command_text(
                cmd,
                key,
                secret,
                ts,
            )
            &&& tracks_command(before, after, cmd)
        },
        SessionEvent::CommandsClosed => action is Stop && after == before,
        SessionEvent::PingDue => {
            &&& action matches SessionAction::Send(text) && text@ == ping_text(ts)
            &&& after == before
        },
    }
}

/// Takes an acknowledgement into the tracked orders: status and exchange identifier are updated,
/// and an order that is filled or cancelled is no longer tracked.
pub fn apply_ack(ring: &mut OrderRing<32>, ack: &OrderAck)
    requires
        old(ring).wf(),
    ensures
        final(ring).wf(),
        final(ring)@ == after_ack_in_ring(old(ring)@, *ack),
{
    ring.update_status(ack.client_id, ack.exchange_id.clone(), ack.status);
    if ack.status == OrderStatus::Filled || ack.status == OrderStatus::Cancelled {
        ring.remove(ack.client_id);
    }
}

impl OrderManager {
    /// The API key.
    pub closed spec fn key(self) -> Seq<char> {
        self.api_key@
    }

    /// The API secret.
    pub closed spec fn secret(self) -> Seq<char> {
        self.api_secret@
    }

    /// The address.
    pub closed spec fn url(self) -> Seq<char> {
        self.ws_url@
    }

    /// A manager with these credentials.
    pub fn new(api_key: String, api_secret: String) -> (r: Self)
        ensures
            r.key() == api_key@,
            r.secret() == api_secret@,
            r.url() == "wss://api.gateio.ws/ws/v4/"@,
    {
        Self { api_key, api_secret, ws_url: "wss://api.gateio.ws/ws/v4/" }
    }

    /// Address of the exchange's WebSocket.
    pub fn ws_url(&self) -> (r: &'static str)
        ensures
            r@ == self.url(),
    {
        self.ws_url
    }

    /// The login message for a time in Unix seconds.
    pub fn login_message(&self, ts: u64) -> (r: String)
        ensures
            r@ == login_text(self.key(), self.secret(), ts),
    {
        let header = build_auth_header(self.api_key.as_str(), self.api_secret.as_str(), ts);
        let stamp = decimal_text(header.timestamp);
        let mut out = String::new();
        out.append("{\"auth\":{\"KEY\":");
        append_json_text(&mut out, header.key.as_str());
        out.append(",\"SIGN\":");
        append_json_text(&mut out, header.signature.as_str());
        out.append(",\"Timestamp\":");
        append_json_text(&mut out, stamp.as_str());
        out.append(
            ",\"method\":\"api_key\"},\"channel\":\"spot.login\",\"event\":\"api\",\"payload\":{},\"time\":",
        );
        append_decimal(&mut out, ts);
        out.append("}");
        assert(out@ =~= login_text(self.key(), self.secret(), ts));
        out
    }

    /// The subscription to order updates.
    pub fn subscribe_message(ts: u64) -> (r: String)
        ensures
            r@ == subscribe_text(ts),
    {
        let mut out = String::new();
        out.append(
            "{\"channel\":\"spot.orders\",\"event\":\"subscribe\",\"payload\":[\"BTC_USDT\"],\"time\":",
        );
        append_decimal(&mut out, ts);
        out.append("}");
        assert(out@ =~= subscribe_text(ts));
        out
    }

    /// The messages that open a session, in the order in which they are sent before anything
    /// else: the login, then the subscription to order updates. The times are in Unix seconds.
    pub fn opening_messages(&self, login_ts: u64, subscribe_ts: u64) -> (r: Vec<String>)
        ensures
            r@.len() == 2,
            r@[0]@ == login_text(self.key(), self.secret(), login_ts),
            r@[1]@ == subscribe_text(subscribe_ts),
    {
        let mut out: Vec<String> = Vec::new();
        out.push(self.login_message(login_ts));
        out.push(Self::subscribe_message(subscribe_ts));
        out
    }

    /// The periodic ping.
    pub fn ping_message(ts: u64) -> (r: String)
        ensures
            r@ == ping_text(ts),
    {
        let mut out = String::new();
        out.append("{\"channel\":\"spot.ping\",\"event\":\"\",\"time\":");
        append_decimal(&mut out, ts);
        out.append("}");
        assert(out@ =~= ping_text(ts));
        out
    }

    /// Takes a text message in. An order update is tracked and handed back; anything else is
    /// ignored.
    pub fn handle_inbound(&self, text: &str, ring: &mut OrderRing<32>) -> (r: Option<OrderAck>)
        requires
            old(ring).wf(),
        ensures
            final(ring).wf(),
            match r {
                Some(ack) => {
                    &&& update_decodes_to(text@, Ok(ack))
                    &&& final(ring)@ == after_ack_in_ring(old(ring)@, ack)
                },
                None => {
                    &&& exists|e: DecodeError| update_decodes_to(text@, Err(e))
                    &&& final(ring)@ == old(ring)@
                },
            },
    {
        match decode_order_update(text) {
            Ok(ack) => {
                apply_ack(ring, &ack);
                Some(ack)
            },
            Err(e) => {
                assert(update_decodes_to(text@, Err(e)));
                None
            },
        }
    }

    /// The signed message for a command at a time in Unix seconds. A placed order is tracked.
    pub fn handle_cmd(&self, cmd: OrderCmd, ts: u64, ring: &mut OrderRing<32>) -> (r: String)
        requires
            old(ring).wf(),
        ensures
            final(ring).wf(),
            r@ == command_text(cmd, self.key(), self.secret(), ts),
            tracks_command(old(ring)@, final(ring)@, cmd),
    {
        match cmd {
            OrderCmd::Place { client_id, symbol, side, price, qty, post_only: _ } => {
                let message = sign_text("spot.orders", "api", ts);
                let signature = hmac_sign(self.api_secret.as_str(), message.as_str());
                let json = encode_place_order(
                    PlaceOrderParams {
                        channel: "spot.orders",
                        client_id,
                        symbol,
                        side,
                        price,
                        qty,
                        signature: signature.as_str(),
                        api_key: self.api_key.as_str(),
                        ts,
                    },
                );
                let order = InFlightOrder {
                    client_id,
                    exchange_id: "".to_string(),
                    symbol,
                    side,
                    price,
                    qty,
                    status: OrderStatus::Open,
                };
                let ghost tracked_order = order;
                proof {
                    place_is_sound(ring@, 32);
                }
                ring.insert(order);
                assert(ring@.slots[place(old(ring)@)] == Some(tracked_order));
                json
            },
            OrderCmd::Cancel { client_id: _, exchange_id, symbol } => {
                let message = sign_text("spot.orders", "cancel", ts);
                let signature = hmac_sign(self.api_secret.as_str(), message.as_str());
                encode_cancel_order(
                    "spot.orders",
                    exchange_id.as_str(),
                    symbol,
                    signature.as_str(),
                    self.api_key.as_str(),
                    ts,
                )
            },
        }
    }

    /// The action that an event at a time in Unix seconds calls for.
    pub fn step(&self, event: SessionEvent, ts: u64, ring: &mut OrderRing<32>) -> (r: SessionAction)
        requires
            old(ring).wf(),
        ensures
            final(ring).wf(),
            is_step(self.key(), self.secret(), event, ts, old(ring)@, final(ring)@, r),
    {
        match event {
            SessionEvent::Text(text) => match self.handle_inbound(text.as_str(), ring) {
                Some(ack) => SessionAction::Deliver(ack),
                None => SessionAction::Wait,
            },
            SessionEvent::Ping(data) => SessionAction::Pong(data),
            SessionEvent::OtherFrame => SessionAction::Wait,
            SessionEvent::Failed => SessionAction::Stop,
            SessionEvent::Closed => SessionAction::Stop,
            SessionEvent::Command(cmd) => SessionAction::Send(self.handle_cmd(cmd, ts, ring)),
            SessionEvent::CommandsClosed => SessionAction::Stop,
            SessionEvent::PingDue => SessionAction::Send(Self::ping_message(ts)),
        }
    }
}

/// An order that is filled or cancelled is no longer tracked, and every other order stays as it is,
/// if identifiers are distinct.
pub proof fn settled_order_is_forgotten(ring: RingModel, ack: OrderAck, other_id: u64)
    requires
        distinct_ids(ring.slots),
        is_settled(ack.status),
        other_id != ack.client_id,
    ensures
        ({
            let after = after_ack_in_ring(ring, ack);
            &&& found(after.slots, ack.client_id) is None
            &&& found(after.slots, other_id) == found(ring.slots, other_id)
        }),
{
    let updated = after_update(ring, ack.client_id, ack.exchange_id, ack.status);
    update_is_found(ring, ack.client_id, ack.exchange_id, ack.status, other_id);
    slot_is_lowest(ring.slots, ack.client_id, 0);
    assert(distinct_ids(updated.slots)) by {
        assert forall|i: int, j: int|
            0 <= i < j < updated.slots.len() && (#[trigger] updated.slots[i]) is Some && (
            #[trigger] updated.slots[j]) is Some implies updated.slots[i]->0.client_id
            != updated.slots[j]->0.client_id by {
            assert(ring.slots[i] is Some && ring.slots[j] is Some);
        }
    }
    removed_order_is_gone(updated, ack.client_id);
    removal_spares_the_others(updated, ack.client_id, other_id);
}

/// A ping is answered with its own data, and a message is sent exactly for a command or a ping that
/// is due.
pub proof fn session_answers(
    key: Seq<char>,
    secret: Seq<char>,
    event: SessionEvent,
    ts: u64,
    before: RingModel,
    after: RingModel,
    action: SessionAction,
)
    requires
        is_step(key, secret, event, ts, before, after, action),
    ensures
        event matches SessionEvent::Ping(data) ==> (action matches SessionAction::Pong(answer)
            && answer@ == data@),
        action is Pong ==> event is Ping,
        action is Send <==> event is Command || event is PingDue,
{
}

/// A session ends exactly when the connection fails or closes or no more commands can come.
pub proof fn session_ends(
    key: Seq<char>,
    secret: Seq<char>,
    event: SessionEvent,
    ts: u64,
    before: RingModel,
    after: RingModel,
    action: SessionAction,
)
    requires
        is_step(key, secret, event, ts, before, after, action),
    ensures
        action is Stop <==> event is Failed || event is Closed || event is CommandsClosed,
{
}

/// The message for a placed order spells out the order that is tracked for it, and that order is the
/// command's: identifier, pair, side, price and quantity. Price and amount read back as the same
/// numbers. The message is signed with the secret over channel, event and time. The order is the
/// youngest one tracked, open and without an identifier of the exchange so far.
#[verifier::rlimit(40)]
pub proof fn placed_orders_go_out_as_tracked(
    om: OrderManager,
    cmd: OrderCmd,
    ts: u64,
    ring: &mut OrderRing<32>,
    r: String,
)
    requires
        old(ring).wf(),
        call_ensures(OrderManager::handle_cmd, (&om, cmd, ts, ring), r),
        cmd is Place,
    ensures
        by_age(final(ring)@).len() > 0,
        ({
            let o = by_age(final(ring)@).last();
            &&& cmd matches OrderCmd::Place { client_id, symbol, side, price, qty, post_only }
            &&& o.client_id == client_id
            &&& o.symbol == symbol
            &&& o.side == side
            &&& o.price == price
            &&& o.qty == qty
            &&& o.status == OrderStatus::Open
            &&& o.exchange_id@ == ""@
        }),
        exists|price: Seq<char>, amount: Seq<char>|
            #![trigger json_quoted(price), json_quoted(amount)]
            {
                let o = by_age(final(ring)@).last();
                &&& price_value(encode_utf8(price)) == o.price@
                &&& price_value(encode_utf8(amount)) == o.qty
                &&& r@ == ("{\"time\":"@ + decimal(ts as nat) + ",\"channel\":"@ + json_quoted(
                    "spot.orders"@,
                ) + ",\"event\":"@ + json_quoted("api"@) + ",\"payload\":"@) + ("{\"text\":"@
                    + json_quoted("t-"@ + decimal(o.client_id as nat)) + ",\"currency_pair\":"@
                    + json_quoted(o.symbol@) + ",\"type\":\"limit\",\"side\":"@ + json_quoted(
                    if o.side == Side::Bid {
                        "buy"@
                    } else {
                        "sell"@
                    },
                ) + ",\"price\":"@ + json_quoted(price) + ",\"amount\":"@ + json_quoted(amount)
                    + ",\"time_in_force\":\"poc\",\"account\":\"spot\"}"@) + (
                ",\"auth\":{\"method\":\"api_key\",\"KEY\":"@ + json_quoted(om.key())
                    + ",\"SIGN\":"@ + json_quoted(
                    signature_of(
                        om.secret(),
                        "channel="@ + "spot.orders"@ + "\nevent="@ + "api"@ + "\nts="@ + decimal(
                            ts as nat,
                        ),
                    ),
                ) + "}}"@)
            },
{
    place_is_sound(old(ring)@, 32);
    let o = final(ring)@.slots[place(old(ring)@)]->0;
    insertion_loses_only_the_oldest(old(ring)@, o, 32);
    full_ring_has_no_free_slot(old(ring)@, 32);
    assert(by_age(final(ring)@).last() == o);
    let price = eight_places(o.price@ as nat);
    let amount = eight_places(o.qty as nat);
    price_round_trip(o.price@);
    price_round_trip(o.qty);
    let _ = (json_quoted(price), json_quoted(amount));
}

/// A bid goes out as a purchase and an ask as a sale: the messages of two commands that differ in
/// the side alone differ.
pub proof fn sides_go_out_as_commanded(
    om: OrderManager,
    cmd: OrderCmd,
    other: OrderCmd,
    ts: u64,
    ring: &mut OrderRing<32>,
    other_ring: &mut OrderRing<32>,
    r: String,
    t: String,
)
    requires
        old(ring).wf(),
        old(other_ring).wf(),
        call_ensures(OrderManager::handle_cmd, (&om, cmd, ts, ring), r),
        call_ensures(OrderManager::handle_cmd, (&om, other, ts, other_ring), t),
        cmd is Place,
        other is Place,
        cmd->Place_client_id == other->Place_client_id,
        cmd->Place_symbol == other->Place_symbol,
        cmd->price == other->price,
        cmd->qty == other->qty,
    ensures
        cmd->side == Side::Bid ==> holds_part(r@, "\"side\":\"buy\""@),
        cmd->side == Side::Ask ==> holds_part(r@, "\"side\":\"sell\""@),
        cmd->side != other->side ==> r@ != t@,
{
    payload_names_the_side(
        request_head(ts, "spot.orders"@, "api"@),
        cmd->Place_client_id,
        cmd->Place_symbol@,
        cmd->side,
        other->side,
        cmd->price@,
        cmd->qty,
        request_tail(
            om.key(),
            signature_of(om.secret(), sign_string("spot.orders"@, "api"@, ts)),
        ),
    );
}

/// The message for a cancellation names the order of the exchange and its pair, signed as such. The
/// order stays tracked as it is until the exchange answers.
#[verifier::rlimit(40)]
pub proof fn cancellations_name_the_order(
    om: OrderManager,
    cmd: OrderCmd,
    ts: u64,
    ring: &mut OrderRing<32>,
    r: String,
)
    requires
        old(ring).wf(),
        call_ensures(OrderManager::handle_cmd, (&om, cmd, ts, ring), r),
        cmd is Cancel,
    ensures
        final(ring)@ == old(ring)@,
        r@ == ("{\"time\":"@ + decimal(ts as nat) + ",\"channel\":"@ + json_quoted("spot.orders"@)
            + ",\"event\":"@ + json_quoted("cancel"@) + ",\"payload\":"@) + ("{\"order_id\":"@
            + json_quoted(cmd->exchange_id@) + ",\"currency_pair\":"@ + json_quoted(
            cmd->Cancel_symbol@,
        ) + ",\"account\":\"spot\"}"@) + (",\"auth\":{\"method\":\"api_key\",\"KEY\":"@ + json_quoted(
            om.key(),
        ) + ",\"SIGN\":"@ + json_quoted(
            signature_of(
                om.secret(),
                "channel="@ + "spot.orders"@ + "\nevent="@ + "cancel"@ + "\nts="@ + decimal(
                    ts as nat,
                ),
            ),
        ) + "}}"@),
{
}

/// The acknowledgement of a tracked order is taken over: status and identifier of the exchange. The
/// order stays tracked unless it was filled or cancelled; then it is dropped. Other orders stay as
/// they are, and so does every order when the acknowledged one is not tracked.
pub proof fn acknowledgements_are_taken_over(
    ring: &mut OrderRing<32>,
    ack: OrderAck,
    other_id: u64,
)
    requires
        old(ring).wf(),
        call_ensures(apply_ack, (ring, &ack), ()),
        distinct_ids(old(ring)@.slots),
        other_id != ack.client_id,
    ensures
        ({
            let before = found(old(ring)@.slots, ack.client_id);
            let after = found(final(ring)@.slots, ack.client_id);
            let gone = ack.status == OrderStatus::Filled || ack.status == OrderStatus::Cancelled;
            &&& after is Some <==> before is Some && !gone
            &&& after matches Some(o) ==> o == (InFlightOrder {
                status: ack.status,
                exchange_id: ack.exchange_id,
                ..before->0
            })
            &&& found(final(ring)@.slots, other_id) == found(old(ring)@.slots, other_id)
            &&& before is None ==> final(ring)@ == old(ring)@
        }),
{
    if is_settled(ack.status) {
        settled_order_is_forgotten(old(ring)@, ack, other_id);
    }
    update_is_found(old(ring)@, ack.client_id, ack.exchange_id, ack.status, other_id);
    slot_is_lowest(old(ring)@.slots, ack.client_id, 0);
}

/// A text that comes in is an acknowledgement exactly if it decodes to one. It is then handed back
/// as decoded and taken over; any other text changes nothing.
pub proof fn texts_are_decoded_and_taken_over(
    om: OrderManager,
    text: &str,
    ring: &mut OrderRing<32>,
    same: &mut OrderRing<32>,
    r: Option<OrderAck>,
    decoded: Result<OrderAck, DecodeError>,
)
    requires
        old(ring).wf(),
        old(same)@ == old(ring)@,
        call_ensures(OrderManager::handle_inbound, (&om, text, ring), r),
        call_ensures(decode_order_update, (text,), decoded),
        r matches Some(ack) ==> call_ensures(apply_ack, (same, &ack), ()),
    ensures
        r is Some <==> decoded is Ok,
        r matches Some(ack) ==> {
            &&& ack.client_id == decoded->Ok_0.client_id
            &&& ack.status == decoded->Ok_0.status
            &&& ack.exchange_id@ == decoded->Ok_0.exchange_id@
            &&& final(ring)@ == final(same)@
        },
        r is None ==> final(ring)@ == old(ring)@,
{
}

/// What each event leads to. A text leads to its acknowledgement, or to nothing; a ping to a pong
/// with the same data; a command to its message; a ping that is due to one; the end of the
/// connection or of the commands to the end of the session. Only texts and commands touch the
/// tracked orders.
pub proof fn events_lead_to_their_action(
    om: OrderManager,
    event: SessionEvent,
    ts: u64,
    ring: &mut OrderRing<32>,
    r: SessionAction,
)
    requires
        old(ring).wf(),
        call_ensures(OrderManager::step, (&om, event, ts, ring), r),
    ensures
        r is Stop <==> event is Failed || event is Closed || event is CommandsClosed,
        r is Send <==> event is Command || event is PingDue,
        r is Pong <==> event is Ping,
        r is Deliver ==> event is Text,
        r is Wait ==> event is Text || event is OtherFrame,
        event is OtherFrame ==> r is Wait,
        event matches SessionEvent::Ping(data) ==> r->Pong_0@ == data@,
        !(event is Text) && !(event is Command) ==> final(ring)@ == old(ring)@,
        r is Wait ==> final(ring)@ == old(ring)@,
        event is PingDue ==> r->Send_0@ == "{\"channel\":\"spot.ping\",\"event\":\"\",\"time\":"@
            + decimal(ts as nat) + "}"@,
        event matches SessionEvent::Command(cmd) ==> (cmd is Cancel ==> final(ring)@ == old(ring)@),
        event matches SessionEvent::Text(text) ==> {
            &&& r is Deliver <==> !exists|e: DecodeError| update_decodes_to(text@, Err(e))
            &&& r matches SessionAction::Deliver(ack) ==> update_decodes_to(text@, Ok(ack))
        },
{
    if let SessionEvent::Text(text) = event {
        if let SessionAction::Deliver(ack) = r {
            assert(update_decodes_to(text@, Ok(ack)));
            assert forall|e: DecodeError| !update_decodes_to(text@, Err(e)) by {}
        }
    }
}

/// A step sends the message of its command, and tracks what the command tracks.
pub proof fn steps_send_the_message_of_a_command(
    om: OrderManager,
    cmd: OrderCmd,
    ts: u64,
    ring: &mut OrderRing<32>,
    same: &mut OrderRing<32>,
    r: SessionAction,
    message: String,
)
    requires
        old(ring).wf(),
        old(ring)@ == old(same)@,
        call_ensures(OrderManager::step, (&om, SessionEvent::Command(cmd), ts, ring), r),
        call_ensures(OrderManager::handle_cmd, (&om, cmd, ts, same), message),
    ensures
        r is Send,
        r->Send_0@ == message@,
        final(ring)@.ages == final(same)@.ages,
        final(ring)@.next == final(same)@.next,
        cmd is Place ==> {
            let (a, b) = (by_age(final(ring)@).last(), by_age(final(same)@).last());
            &&& by_age(final(ring)@).drop_last() == by_age(final(same)@).drop_last()
            &&& a == (InFlightOrder { exchange_id: a.exchange_id, ..b })
            &&& a.exchange_id@ == b.exchange_id@
        },
        cmd is Cancel ==> final(ring)@ == final(same)@,
{
    place_is_sound(old(ring)@, 32);
    if cmd is Place {
        let (a, b) = (
            final(ring)@.slots[place(old(ring)@)]->0,
            final(same)@.slots[place(old(ring)@)]->0,
        );
        insertion_loses_only_the_oldest(old(ring)@, a, 32);
        insertion_loses_only_the_oldest(old(ring)@, b, 32);
        full_ring_has_no_free_slot(old(ring)@, 32);
    }
}

/// A session opens with the login and then the subscription. The login carries the key, the time,
/// and the signature of an empty channel and event at that time; the subscription is to the orders
/// of the traded pair.
#[verifier::rlimit(40)]
pub proof fn sessions_open_with_login_and_subscription(
    om: OrderManager,
    login_ts: u64,
    subscribe_ts: u64,
    r: Vec<String>,
    ping_ts: u64,
    ping: String,
)
    requires
        call_ensures(OrderManager::opening_messages, (&om, login_ts, subscribe_ts), r),
        call_ensures(OrderManager::ping_message, (ping_ts,), ping),
    ensures
        r@.len() == 2,
        r@[0]@ == "{\"auth\":{\"KEY\":"@ + json_quoted(om.key()) + ",\"SIGN\":"@ + json_quoted(
            signature_of(
                om.secret(),
                "channel="@ + ""@ + "\nevent="@ + ""@ + "\nts="@ + decimal(login_ts as nat),
            ),
        ) + ",\"Timestamp\":"@ + json_quoted(decimal(login_ts as nat))
            + ",\"method\":\"api_key\"},\"channel\":\"spot.login\",\"event\":\"api\",\"payload\":{},\"time\":"@
            + decimal(login_ts as nat) + "}"@,
        r@[1]@
            == "{\"channel\":\"spot.orders\",\"event\":\"subscribe\",\"payload\":[\"BTC_USDT\"],\"time\":"@
            + decimal(subscribe_ts as nat) + "}"@,
        ping@ == "{\"channel\":\"spot.ping\",\"event\":\"\",\"time\":"@ + decimal(ping_ts as nat)
            + "}"@,
{
}

/// A manager keeps its credentials apart and connects to the exchange's address.
pub proof fn managers_keep_their_credentials(
    api_key: String,
    api_secret: String,
    r: OrderManager,
    url: &'static str,
)
    requires
        call_ensures(OrderManager::new, (api_key, api_secret), r),
        call_ensures(OrderManager::ws_url, (&r,), url),
    ensures
        r.key() == api_key@,
        r.secret() == api_secret@,
        url@ == "wss://api.gateio.ws/ws/v4/"@,
{
}

} // verus!
