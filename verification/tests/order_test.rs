use gate_arb::auth::{build_auth_header, hmac_sign, sign_text, signature_text};
use gate_arb::codec::{
    decode_order_event, decode_order_update, encode_cancel_order, encode_place_order,
    parse_client_id, DecodeError, OrderResult, PlaceOrderParams,
};
use gate_arb::json::{read_record, JsonFields};
use gate_arb::order_manager::{OrderManager, SessionAction, SessionEvent};
use gate_arb::ring::{InFlightOrder, OrderRing};
use gate_arb::types::{Fixed64, OrderCmd, OrderStatus, Side};

#[test]
fn auth_signature_format() {
    let key = "test_key";
    let secret = "test_secret";
    let ts = 1_700_000_000u64;

    let header = build_auth_header(key, secret, ts);

    assert_eq!(header.method, "api_key");
    assert_eq!(header.key, "test_key");
    assert_eq!(header.timestamp, ts);
    assert_eq!(header.signature.len(), 128);
    assert!(header.signature.chars().all(|c| c.is_ascii_hexdigit()));
    assert_eq!(header.signature, hmac_sign(secret, "channel=\nevent=\nts=1700000000"));
}

#[test]
fn auth_signature_deterministic() {
    let h1 = build_auth_header("k", "s", 999);
    let h2 = build_auth_header("k", "s", 999);
    assert_eq!(h1.signature, h2.signature);
}

#[test]
fn auth_signature_varies_by_secret() {
    let h1 = build_auth_header("k", "secret1", 999);
    let h2 = build_auth_header("k", "secret2", 999);
    assert_ne!(h1.signature, h2.signature);
}

#[test]
fn a_published_signature_comes_out() {
    assert_eq!(
        hmac_sign("Jefe", "what do ya want for nothing?"),
        "164b7a7bfcf819e2e395fbe73b56e0a387bd64222e831fd610270cd7ea250554\
         9758bf75c05a994a6d034f65f8f0e6fdcaeab1a34d4a6b4b636e070a38bce737"
    );
}

#[test]
fn signatures_are_lower_case_hexadecimal() {
    let mut mac = [0u8; 64];
    mac[0] = 0xAB;
    mac[1] = 0x0C;
    mac[63] = 0xFF;
    let text = signature_text(&mac);
    assert!(text.starts_with("ab0c00"));
    assert!(text.ends_with("00ff"));
}

#[test]
fn signed_text_names_channel_event_and_time() {
    assert_eq!(sign_text("spot.orders", "api", 7), "channel=spot.orders\nevent=api\nts=7");
}

fn place(symbol: &str, side: Side) -> String {
    encode_place_order(PlaceOrderParams {
        channel: "spot.orders",
        client_id: 1001,
        symbol,
        side,
        price: Fixed64::from_raw(5_000_000_000_000),
        qty: 1_000_000u64,
        signature: "sig",
        api_key: "key",
        ts: 1_700_000_000u64,
    })
}

#[test]
fn encode_place_order_post_only() {
    let json = place("BTC_USDT", Side::Bid);
    assert!(json.contains("\"time_in_force\":\"poc\""));
    assert!(json.contains("\"text\":\"t-1001\""));
    assert!(json.contains("\"price\":\"50000.00000000\""));
    assert!(json.contains("\"amount\":\"0.01000000\""));
    assert!(json.contains("\"side\":\"buy\""));
}

#[test]
fn a_place_message_is_complete() {
    assert_eq!(
        place("BTC_USDT", Side::Ask),
        "{\"time\":1700000000,\"channel\":\"spot.orders\",\"event\":\"api\",\"payload\":{\
         \"text\":\"t-1001\",\"currency_pair\":\"BTC_USDT\",\"type\":\"limit\",\"side\":\"sell\",\
         \"price\":\"50000.00000000\",\"amount\":\"0.01000000\",\"time_in_force\":\"poc\",\
         \"account\":\"spot\"},\"auth\":{\"method\":\"api_key\",\"KEY\":\"key\",\"SIGN\":\"sig\"}}"
    );
}

#[test]
fn strings_are_escaped() {
    let json = place("a\"b\\c\nd\u{1}\u{1f}é\u{7f}", Side::Bid);
    assert!(json.contains("\"currency_pair\":\"a\\\"b\\\\c\\nd\\u0001\\u001fé\u{7f}\","));
    let v: serde_json::Value = serde_json::from_str(&json).unwrap();
    assert_eq!(v["payload"]["currency_pair"], "a\"b\\c\nd\u{1}\u{1f}é\u{7f}");
    assert!(place("\u{8}\t\u{c}\r", Side::Bid).contains("\"\\b\\t\\f\\r\""));
}

#[test]
fn encode_cancel_order_fields() {
    let json = encode_cancel_order(
        "spot.orders",
        "ex-abc123",
        "BTC_USDT",
        "sig",
        "key",
        1_700_000_000u64,
    );
    assert!(json.contains("\"order_id\":\"ex-abc123\""));
    assert!(json.contains("\"currency_pair\":\"BTC_USDT\""));
    assert_eq!(
        json,
        "{\"time\":1700000000,\"channel\":\"spot.orders\",\"event\":\"cancel\",\"payload\":{\
         \"order_id\":\"ex-abc123\",\"currency_pair\":\"BTC_USDT\",\"account\":\"spot\"},\
         \"auth\":{\"method\":\"api_key\",\"KEY\":\"key\",\"SIGN\":\"sig\"}}"
    );
}

#[test]
fn decode_order_update_filled() {
    let raw = r#"{
        "channel": "spot.orders",
        "event": "update",
        "result": [{
            "id": "ex-999",
            "text": "t-42",
            "status": "closed",
            "finish_as": "filled",
            "currency_pair": "BTC_USDT",
            "side": "buy",
            "price": "50000",
            "amount": "0.01",
            "left": "0"
        }]
    }"#;
    let update = decode_order_update(raw).unwrap();
    assert_eq!(update.client_id, 42);
    assert_eq!(update.exchange_id, "ex-999");
    assert_eq!(update.status, OrderStatus::Filled);
}

#[test]
fn decode_order_update_cancelled() {
    let raw = r#"{
        "channel": "spot.orders",
        "event": "update",
        "result": [{
            "id": "ex-7",
            "text": "t-7",
            "status": "closed",
            "finish_as": "cancelled",
            "currency_pair": "BTC_USDT",
            "side": "sell",
            "price": "50000",
            "amount": "0.01",
            "left": "0.01"
        }]
    }"#;
    let update = decode_order_update(raw).unwrap();
    assert_eq!(update.status, OrderStatus::Cancelled);
}

fn update_text(entry: &str) -> String {
    format!("{{\"channel\":\"spot.orders\",\"event\":\"update\",\"result\":[{}]}}", entry)
}

#[test]
fn a_text_that_is_no_order_event_is_refused() {
    let good = r#"{"id":"a","text":"t-1","status":"open","left":"1"}"#;
    assert_eq!(decode_order_update(&update_text(good)).unwrap().status, OrderStatus::Open);
    let refused = [
        "".to_string(),
        "not json".to_string(),
        "[]".to_string(),
        "{\"channel\":\"c\",\"event\":\"e\"}".to_string(),
        "{\"channel\":\"c\",\"event\":1,\"result\":[]}".to_string(),
        "{\"event\":\"e\",\"result\":[]}".to_string(),
        "{\"channel\":\"c\",\"event\":\"e\",\"result\":{}}".to_string(),
        update_text("1"),
        update_text(r#"{"id":1,"text":"t-1","status":"open","left":"1"}"#),
        update_text(r#"{"text":"t-1","status":"open","left":"1"}"#),
        update_text(r#"{"id":"a","text":"t-1","status":"open"}"#),
        update_text(r#"{"id":"a","text":"t-1","status":"open","left":"1","finish_as":2}"#),
        // a broken order further back spoils the event
        update_text(&format!("{},{}", good, "null")),
    ];
    for raw in refused {
        assert_eq!(decode_order_update(&raw).unwrap_err(), DecodeError::Parse, "{}", raw);
    }
    assert_eq!(DecodeError::Parse.message(), "parse order event");
}

#[test]
fn records_may_be_written_as_arrays() {
    let entry = r#"["ex-1","t-5","closed","filled","0"]"#;
    for raw in [
        update_text(entry),
        format!("[\"spot.orders\",\"update\",[{}]]", entry),
        format!(" [ \"c\" , \"e\" , [ {} ] ] ", entry),
    ] {
        let ack = decode_order_update(&raw).unwrap();
        assert_eq!(ack.client_id, 5);
        assert_eq!(ack.exchange_id, "ex-1");
        assert_eq!(ack.status, OrderStatus::Filled);
    }
    let open = update_text(r#"["ex-1","t-5","closed",null,"0"]"#);
    assert_eq!(decode_order_update(&open).unwrap().status, OrderStatus::Cancelled);
    for raw in [
        update_text(r#"["ex-1","t-5","closed","filled"]"#),
        update_text(r#"["ex-1","t-5","closed","filled","0","more"]"#),
        update_text(r#"["ex-1","t-5","closed",1,"0"]"#),
        format!("[\"c\",\"e\",[{}],1]", entry),
        format!("[\"c\",\"e\"]"),
        format!("[\"c\",2,[{}]]", entry),
    ] {
        assert_eq!(decode_order_update(&raw).unwrap_err(), DecodeError::Parse, "{}", raw);
    }
}

#[test]
fn what_stands_in_other_members_does_not_matter() {
    let entry = r#"{"id":"\u0061","text":"t-5","status":"open","left":"1","finish_as":null,
        "big":1e999,"odd":"\ud800","deep":[[{"x":[]}]],"big":2}"#;
    let raw = format!(
        "{{\"time\":-1e400,\"channel\":\"c\",\"event\":\"e\",\"note\":\"\\udfff\",\"result\":[{}]}}",
        entry
    );
    let ack = decode_order_update(&raw).unwrap();
    assert_eq!((ack.client_id, ack.exchange_id.as_str()), (5, "a"));
    assert_eq!(ack.status, OrderStatus::Open);
    // a member that is read has to be right
    for entry in [
        r#"{"id":"\ud800","text":"t-5","status":"open","left":"1"}"#,
        r#"{"id":null,"text":"t-5","status":"open","left":"1"}"#,
        r#"{"id":"a","text":"t-5","status":"open","left":1}"#,
        r#"{"id":"a","text":"t-5","status":"open","left":"1",}"#,
        r#"{"id":"a","text":"t-5","status":"open","left":"1","x":tru}"#,
    ] {
        let err = decode_order_update(&update_text(entry)).unwrap_err();
        assert_eq!(err, DecodeError::Parse, "{}", entry);
    }
}

#[test]
fn a_field_that_occurs_twice_is_refused() {
    let orders = r#"[{"id":"a","text":"t-5","status":"open","left":"1"}]"#;
    for raw in [
        update_text(r#"{"id":"a","id":"a","text":"t-5","status":"open","left":"1"}"#),
        update_text(r#"{"id":"a","text":"t-5","status":"open","left":"1","\u0069d":"a"}"#),
        update_text(r#"{"finish_as":null,"id":"a","text":"t-5","status":"open","left":"1","finish_as":"x"}"#),
        update_text(r#"{"text":"t-5","id":"a","x":{},"text":"t-5","status":"open","left":"1"}"#),
        format!("{{\"channel\":\"c\",\"channel\":\"c\",\"event\":\"e\",\"result\":{}}}", orders),
        format!("{{\"channel\":\"c\",\"event\":\"e\",\"result\":{0},\"result\":{0}}}", orders),
    ] {
        assert_eq!(decode_order_update(&raw).unwrap_err(), DecodeError::Parse, "{}", raw);
    }
    // what is not read may occur twice, and so may names elsewhere than in the record itself
    for raw in [
        update_text(r#"{"id":"a","text":"t-5","status":"open","left":"1","x":1,"x":2}"#),
        update_text(r#"{"id":"a","text":"t-5","status":"open","left":"1","x":{"id":1,"left":2}}"#),
        update_text(r#"{"id":"a","text":"t-5","status":"open","left":"1","x":["id","id",{"a":0}]}"#),
        update_text(r#"{"id":"a","text":"t-5","status":"open","left":"1","x":"id\\","y":"id"}"#),
        update_text(r#"{"id":"a","text":"t-5","status":"open","left":"1","x":"\",\"id\":"}"#),
        update_text(r#"{"id":"a","text":"t-5","status":"open","left":"1","x":"{,","y":"],id"}"#),
        update_text(r#"{"id":"a","text":"t-5","status":"open","left":"1","ID":"b","i d":"c"}"#),
        format!("{{\"id\":1,\"id\":2,\"channel\":\"c\",\"event\":\"e\",\"result\":{}}}", orders),
    ] {
        assert_eq!(decode_order_update(&raw).unwrap().exchange_id, "a", "{}", raw);
    }
}

#[test]
fn fields_are_read_by_name_or_in_order() {
    let fields = read_record(r#" {"a":"1", "b" : 2,"c":["x", [3] ],"d":"1","d":"2"} "#, 9).unwrap();
    assert_eq!(fields.text(0, "b"), Some("2"));
    assert_eq!(fields.string(0, "a"), Some("1".to_string()));
    assert_eq!(fields.string(0, "b"), None);
    assert_eq!(fields.text(0, "e"), None);
    assert_eq!(fields.list(0, "c"), Some(vec!["\"x\"".to_string(), "[3]".to_string()]));
    assert_eq!(fields.list(0, "a"), None);
    assert_eq!(fields.optional_string(0, "a"), Some(Some("1".to_string())));
    assert_eq!(fields.optional_string(0, "b"), None);
    assert_eq!(fields.optional_string(0, "e"), Some(None));
    assert!(fields.repeated("d") && !fields.repeated("a") && !fields.repeated("e"));
    assert_eq!(fields.text(0, "d"), Some("\"2\""));
    assert_eq!((fields.string(0, "d"), fields.optional_string(0, "d")), (None, None));

    let fields = read_record("[null, \"x\"]", 2).unwrap();
    assert_eq!(fields.optional_string(0, "a"), Some(None));
    assert_eq!(fields.optional_string(1, "a"), Some(Some("x".to_string())));
    assert!(!fields.repeated("a"));
    assert!(read_record("[null, \"x\"]", 3).is_none());
    assert!(read_record("7", 1).is_none());

    let pair = |k: &str, v: &str| (k.to_string(), v.to_string());
    let name = |k: &str| Some(k.to_string());
    let fields = JsonFields::ByName(
        vec![name("b"), None, name("a"), name("b")],
        vec![pair("a", "1"), pair("b", "2"), pair("a", "3")],
    );
    assert_eq!(fields.text(0, "a"), Some("3"));
    assert!(fields.repeated("b") && !fields.repeated("a"));
}

#[test]
fn an_event_without_orders_is_refused() {
    assert_eq!(decode_order_update(&update_text("")).unwrap_err(), DecodeError::EmptyResult);
    assert_eq!(decode_order_event(&vec![]).unwrap_err(), DecodeError::EmptyResult);
    assert_eq!(DecodeError::EmptyResult.message(), "empty result array");
}

#[test]
fn a_foreign_identifier_is_refused() {
    for text in ["", "t-", "t-x", "42", "T-42", "t-18446744073709551616", "t-1 ", "x-1"] {
        let entry = format!(
            "{{\"id\":\"a\",\"text\":\"{}\",\"status\":\"open\",\"left\":\"1\"}}",
            text
        );
        let err = decode_order_update(&update_text(&entry)).unwrap_err();
        assert_eq!(err, DecodeError::ClientId, "{}", text);
    }
    assert_eq!(DecodeError::ClientId.message(), "parse client_id from text field");
    assert_eq!(parse_client_id("t-18446744073709551615"), Some(u64::MAX));
    assert_eq!(parse_client_id("t-+7"), Some(7));
}

#[test]
fn statuses_are_read() {
    let status = |status: &str, finish_as: Option<&str>, left: &str| {
        decode_order_event(&vec![OrderResult {
            id: "ex".to_string(),
            text: "t-9".to_string(),
            status: status.to_string(),
            finish_as: finish_as.map(|s| s.to_string()),
            left: left.to_string(),
        }])
        .unwrap()
        .status
    };
    assert_eq!(status("open", None, "0"), OrderStatus::Filled);
    assert_eq!(status("open", Some("filled"), "0.5"), OrderStatus::Open);
    assert_eq!(status("closed", Some("filled"), "0.5"), OrderStatus::Filled);
    assert_eq!(status("closed", Some("poc"), "0"), OrderStatus::Cancelled);
    assert_eq!(status("closed", Some("ioc"), "0"), OrderStatus::Cancelled);
    assert_eq!(status("closed", None, "0"), OrderStatus::Cancelled);
    assert_eq!(status("new", Some("filled"), "0"), OrderStatus::Open);
}

fn make_order(client_id: u64) -> InFlightOrder {
    InFlightOrder {
        client_id,
        exchange_id: String::new(),
        symbol: "BTC_USDT",
        side: Side::Bid,
        price: Fixed64::from_raw(5_000_000_000_000),
        qty: 1_000_000,
        status: OrderStatus::Open,
    }
}

#[test]
fn ring_insert_and_find() {
    let mut ring = OrderRing::<8>::new();
    ring.insert(make_order(1));
    ring.insert(make_order(2));
    assert!(ring.find_by_client_id(1).is_some());
    assert!(ring.find_by_client_id(2).is_some());
    assert!(ring.find_by_client_id(99).is_none());
}

#[test]
fn ring_update_status() {
    let mut ring = OrderRing::<8>::new();
    ring.insert(make_order(10));
    ring.update_status(10, "ex-abc".to_string(), OrderStatus::Filled);
    let order = ring.find_by_client_id(10).unwrap();
    assert_eq!(order.status, OrderStatus::Filled);
    assert_eq!(order.exchange_id, "ex-abc");
}

#[test]
fn ring_wraps_at_capacity() {
    let mut ring = OrderRing::<4>::new();
    for i in 0..6u64 {
        ring.insert(make_order(i));
    }
    assert!(ring.find_by_client_id(0).is_none());
    assert!(ring.find_by_client_id(1).is_none());
    assert!(ring.find_by_client_id(2).is_some());
    assert!(ring.find_by_client_id(5).is_some());
}

#[test]
fn ring_remove() {
    let mut ring = OrderRing::<8>::new();
    ring.insert(make_order(7));
    ring.remove(7);
    assert!(ring.find_by_client_id(7).is_none());
}

#[test]
fn ring_capacity_32_no_alloc() {
    let mut ring = OrderRing::<32>::new();
    for i in 0u64..32 {
        assert!(ring.insert(make_order(i)).is_none());
    }
    for i in 0u64..32 {
        assert!(ring.find_by_client_id(i).is_some());
    }
    assert_eq!(ring.insert(make_order(32)), Some(0));
    assert!(ring.find_by_client_id(0).is_none());
    assert!(ring.find_by_client_id(32).is_some());
}

#[test]
fn ring_finds_the_lowest_slot() {
    let numbered = |client_id: u64, qty: u64| InFlightOrder { qty, ..make_order(client_id) };
    let mut ring = OrderRing::<3>::new();
    assert!(ring.insert(numbered(9, 1)).is_none());
    assert!(ring.insert(numbered(1, 2)).is_none());
    assert!(ring.insert(numbered(1, 3)).is_none());
    assert_eq!(ring.insert(numbered(1, 4)), Some(9));
    // the last one took the first slot
    assert_eq!(ring.find_by_client_id(1).unwrap().qty, 4);
    ring.update_status(1, "x".to_string(), OrderStatus::Filled);
    assert_eq!(ring.find_by_client_id(1).unwrap().exchange_id, "x");
    ring.remove(1);
    assert_eq!(ring.find_by_client_id(1).unwrap().qty, 2);
    ring.remove(1);
    assert_eq!(ring.find_by_client_id(1).unwrap().qty, 3);
    ring.remove(1);
    assert!(ring.find_by_client_id(1).is_none());

    let mut ring = OrderRing::<4>::new();
    for (i, id) in [1u64, 2, 3, 7, 7].iter().enumerate() {
        ring.insert(numbered(*id, i as u64));
    }
    assert_eq!(ring.find_by_client_id(7).unwrap().qty, 4);
}

#[test]
fn ring_goes_on_behind_the_slot_filled_last() {
    let numbered = |client_id: u64, qty: u64| InFlightOrder { qty, ..make_order(client_id) };
    let mut ring = OrderRing::<4>::new();
    ring.insert(numbered(5, 1));
    ring.insert(numbered(6, 2));
    ring.remove(5);
    // slot 0 is free, but slots 2 and 3 come first
    ring.insert(numbered(5, 3));
    ring.insert(numbered(5, 4));
    assert_eq!(ring.find_by_client_id(5).unwrap().qty, 3);
    ring.insert(numbered(5, 5));
    assert_eq!(ring.find_by_client_id(5).unwrap().qty, 5);
    // full: the oldest goes
    assert_eq!(ring.insert(numbered(8, 6)), Some(6));
    assert_eq!(OrderRing::<1>::default().insert(make_order(1)), None);
}

#[test]
fn ring_loses_nothing_while_there_is_room() {
    let mut ring = OrderRing::<4>::new();
    for i in 0..4u64 {
        ring.insert(make_order(i));
    }
    ring.remove(2);
    assert!(ring.insert(make_order(4)).is_none());
    assert!(ring.find_by_client_id(0).is_some());
    assert_eq!(ring.insert(make_order(5)), Some(0));
    // unknown identifiers change nothing
    ring.remove(77);
    ring.update_status(77, "x".to_string(), OrderStatus::Filled);
    assert_eq!(ring.find_by_client_id(1).unwrap().status, OrderStatus::Open);
}

fn manager() -> OrderManager {
    OrderManager::new("key".to_string(), "secret".to_string())
}

fn place_cmd(client_id: u64) -> OrderCmd {
    OrderCmd::Place {
        client_id,
        symbol: "BTC_USDT",
        side: Side::Ask,
        price: Fixed64::from_raw(5_001_000_000_000),
        qty: 1_000_000,
        post_only: true,
    }
}

#[test]
fn session_messages_are_complete() {
    let m = manager();
    assert_eq!(m.ws_url(), "wss://api.gateio.ws/ws/v4/");
    let sig = hmac_sign("secret", "channel=\nevent=\nts=12");
    assert_eq!(
        m.login_message(12),
        format!(
            "{{\"auth\":{{\"KEY\":\"key\",\"SIGN\":\"{}\",\"Timestamp\":\"12\",\
             \"method\":\"api_key\"}},\"channel\":\"spot.login\",\"event\":\"api\",\
             \"payload\":{{}},\"time\":12}}",
            sig
        )
    );
    assert_eq!(
        OrderManager::subscribe_message(13),
        "{\"channel\":\"spot.orders\",\"event\":\"subscribe\",\"payload\":[\"BTC_USDT\"],\"time\":13}"
    );
    assert_eq!(
        OrderManager::ping_message(14),
        "{\"channel\":\"spot.ping\",\"event\":\"\",\"time\":14}"
    );
}

#[test]
fn a_session_opens_with_login_then_subscription() {
    let m = manager();
    assert_eq!(
        m.opening_messages(12, 13),
        vec![m.login_message(12), OrderManager::subscribe_message(13)]
    );
}

#[test]
fn a_placed_order_is_signed_and_tracked() {
    let m = manager();
    let mut ring = OrderRing::<32>::new();
    let text = m.handle_cmd(place_cmd(6), 99, &mut ring);
    let sig = hmac_sign("secret", "channel=spot.orders\nevent=api\nts=99");
    assert!(text.contains(&format!("\"KEY\":\"key\",\"SIGN\":\"{}\"", sig)));
    assert!(text.contains("\"text\":\"t-6\""));
    let o = ring.find_by_client_id(6).unwrap();
    assert_eq!((o.exchange_id.as_str(), o.side, o.status), ("", Side::Ask, OrderStatus::Open));
}

#[test]
fn a_cancellation_is_signed_and_not_tracked() {
    let m = manager();
    let mut ring = OrderRing::<32>::new();
    let cmd = OrderCmd::Cancel {
        client_id: 6,
        exchange_id: "ex".to_string(),
        symbol: "BTC_USDT",
    };
    let text = m.handle_cmd(cmd, 99, &mut ring);
    let sig = hmac_sign("secret", "channel=spot.orders\nevent=cancel\nts=99");
    assert!(text.contains(&sig));
    assert!(text.contains("\"order_id\":\"ex\""));
    assert!(ring.find_by_client_id(6).is_none());
}

#[test]
fn an_update_is_tracked_until_it_settles() {
    let m = manager();
    let mut ring = OrderRing::<32>::new();
    m.handle_cmd(place_cmd(6), 99, &mut ring);
    let entry = |status: &str, finish: &str| {
        update_text(&format!(
            "{{\"id\":\"ex\",\"text\":\"t-6\",\"status\":\"{}\",\"finish_as\":\"{}\",\"left\":\"1\"}}",
            status, finish
        ))
    };
    let ack = m.handle_inbound(&entry("open", "open"), &mut ring).unwrap();
    assert_eq!((ack.client_id, ack.status), (6, OrderStatus::Open));
    assert_eq!(ring.find_by_client_id(6).unwrap().exchange_id, "ex");
    let ack = m.handle_inbound(&entry("closed", "filled"), &mut ring).unwrap();
    assert_eq!(ack.status, OrderStatus::Filled);
    assert!(ring.find_by_client_id(6).is_none());
    assert!(m.handle_inbound("{\"event\":\"pong\"}", &mut ring).is_none());
}

#[test]
fn session_events_lead_to_actions() {
    let m = manager();
    let mut ring = OrderRing::<32>::new();
    match m.step(SessionEvent::Ping(vec![1, 2, 3]), 1, &mut ring) {
        SessionAction::Pong(data) => assert_eq!(data, vec![1, 2, 3]),
        other => panic!("{:?}", other),
    }
    assert!(matches!(m.step(SessionEvent::OtherFrame, 1, &mut ring), SessionAction::Wait));
    assert!(matches!(m.step(SessionEvent::Failed, 1, &mut ring), SessionAction::Stop));
    assert!(matches!(m.step(SessionEvent::Closed, 1, &mut ring), SessionAction::Stop));
    assert!(matches!(m.step(SessionEvent::CommandsClosed, 1, &mut ring), SessionAction::Stop));
    let junk = SessionEvent::Text("junk".to_string());
    assert!(matches!(m.step(junk, 1, &mut ring), SessionAction::Wait));
    match m.step(SessionEvent::PingDue, 5, &mut ring) {
        SessionAction::Send(text) => assert_eq!(text, OrderManager::ping_message(5)),
        other => panic!("{:?}", other),
    }
    match m.step(SessionEvent::Command(place_cmd(8)), 5, &mut ring) {
        SessionAction::Send(text) => assert!(text.contains("t-8")),
        other => panic!("{:?}", other),
    }
    let entry = r#"{"id":"e","text":"t-8","status":"closed","left":"1"}"#;
    match m.step(SessionEvent::Text(update_text(entry)), 5, &mut ring) {
        SessionAction::Deliver(ack) => assert_eq!(ack.status, OrderStatus::Cancelled),
        other => panic!("{:?}", other),
    }
    assert!(ring.find_by_client_id(8).is_none());
}
