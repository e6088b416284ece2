use hypercopy::config::{Hyperliquid, Target};
use hypercopy::execute::exchange::{
    approve_agent_action, exchange_request, exchange_url, order_action, parse_receipt, response_ok,
    signature_json, tif_to_json,
};
use hypercopy::execute::signer::SignatureRsv;
use hypercopy::ingest::info::{clearinghouse_state_request, info_url, meta_request};
use hypercopy::ingest::ws::{
    handle_frame, next_backoff, parse_fill, subscription_message, INITIAL_BACKOFF_MS, MAX_BACKOFF_MS,
};
use hypercopy::json::{Json, JsonNumber};
use hypercopy::text::{concat_str, float_literal, hex_encode, hex_u64, starts_with};
use hypercopy::types::{OrderIntent, Side, TimeInForce};

fn s(t: &str) -> Json {
    Json::Str(t.to_string())
}

fn u(n: u64) -> Json {
    Json::Number(JsonNumber::PosInt(n))
}

fn obj(fields: Vec<(&str, Json)>) -> Json {
    Json::Object(fields.into_iter().map(|(k, v)| (k.to_string(), v)).collect())
}

fn text_of(j: &Json) -> &str {
    match j {
        Json::Str(s) => s.as_str(),
        other => panic!("not a string: {:?}", other),
    }
}

fn target() -> Target {
    Target { address: "0xfeed".to_string(), label: "whale".to_string(), enabled: true }
}

#[test]
fn float_literal_agrees_with_f64_parse() {
    let cases = [
        "0", "1", "-1", "+1", "1.", ".5", "1.5", "-0.0012", "1e5", "1E5", "1e+5", "1e-5", "1.5e3",
        ".5e1", "inf", "-inf", "+Infinity", "INF", "NaN", "nan", "-nan", "infinity", "infinit",
        "", ".", "-", "+", "e5", "1e", "1e+", "1.2.3", "1..2", " 1", "1 ", "abc", "0x10", "1_000",
        "12a", "--1", "+-1", "1e5.5", "..", "-.", "-.5", "5.e2", "١",
    ];
    for c in cases.iter() {
        assert_eq!(float_literal(c), c.parse::<f64>().is_ok(), "case {:?}", c);
    }
}

#[test]
fn hex_encode_is_lowercase_two_digits_per_byte() {
    assert_eq!(hex_encode(&[0x00, 0x0f, 0xa0, 0xff]), "000fa0ff");
    assert_eq!(hex_encode(&[]), "");
    let bytes: Vec<u8> = (0u8..=255).collect();
    let h = hex_encode(&bytes);
    assert_eq!(h.len(), 512);
    let back: Vec<u8> = (0..256).map(|i| u8::from_str_radix(&h[2 * i..2 * i + 2], 16).unwrap()).collect();
    assert_eq!(back, bytes);
}

#[test]
fn hex_u64_has_no_leading_zeros() {
    assert_eq!(hex_u64(0), "0");
    assert_eq!(hex_u64(15), "f");
    assert_eq!(hex_u64(16), "10");
    assert_eq!(hex_u64(42161), "a4b1");
    assert_eq!(hex_u64(421614), "66eee");
    assert_eq!(hex_u64(u64::MAX), "ffffffffffffffff");
}

#[test]
fn starts_with_and_concat() {
    assert!(starts_with("Close Long", "Close"));
    assert!(!starts_with("Open Long", "Close"));
    assert!(!starts_with("Clo", "Close"));
    assert!(starts_with("Close", "Close"));
    assert_eq!(concat_str("https://api.example", "/exchange"), "https://api.example/exchange");
}

#[test]
fn json_get_finds_first_field() {
    let j = obj(vec![("a", u(1)), ("b", s("x")), ("a", u(2))]);
    assert!(matches!(j.get("a"), Some(Json::Number(JsonNumber::PosInt(1)))));
    assert_eq!(j.get("b").and_then(|v| v.as_str()).map(|t| t.as_str()), Some("x"));
    assert!(j.get("c").is_none());
    assert!(s("a").get("a").is_none());
    assert_eq!(u(5).as_u64(), Some(5));
    assert_eq!(Json::Number(JsonNumber::NegInt(-5)).as_u64(), None);
    assert_eq!(Json::Bool(true).as_bool(), Some(true));
}

#[test]
fn tif_json_shape() {
    let j = tif_to_json(TimeInForce::Alo);
    assert_eq!(text_of(j.get("limit").unwrap().get("tif").unwrap()), "Alo");
    assert_eq!(text_of(tif_to_json(TimeInForce::Gtc).get("limit").unwrap().get("tif").unwrap()), "Gtc");
    assert_eq!(text_of(tif_to_json(TimeInForce::Ioc).get("limit").unwrap().get("tif").unwrap()), "Ioc");
}

#[test]
fn order_action_shape() {
    let intent = OrderIntent {
        coin: "BTC".to_string(),
        asset_index: 3,
        side: Side::Buy,
        px: "65000.5".to_string(),
        sz: "0.01".to_string(),
        reduce_only: true,
        tif: TimeInForce::Ioc,
        source_target: "0xfeed".to_string(),
    };
    let a = order_action(&intent);
    assert_eq!(text_of(a.get("type").unwrap()), "order");
    assert_eq!(text_of(a.get("grouping").unwrap()), "na");
    let orders = a.get("orders").unwrap().as_array().unwrap();
    assert_eq!(orders.len(), 1);
    let o = &orders[0];
    assert_eq!(o.get("a").unwrap().as_u64(), Some(3));
    assert_eq!(o.get("b").unwrap().as_bool(), Some(true));
    assert_eq!(text_of(o.get("p").unwrap()), "65000.5");
    assert_eq!(text_of(o.get("s").unwrap()), "0.01");
    assert_eq!(o.get("r").unwrap().as_bool(), Some(true));
    assert_eq!(text_of(o.get("t").unwrap().get("limit").unwrap().get("tif").unwrap()), "Ioc");
}

#[test]
fn signed_request_shape() {
    let mut r = [0u8; 32];
    r[31] = 1;
    let mut sg = [0u8; 32];
    sg[0] = 0xab;
    let sig = SignatureRsv { r, s: sg, v: 28 };
    let sj = signature_json(&sig);
    assert_eq!(text_of(sj.get("r").unwrap()), format!("0x{}1", "0".repeat(63)));
    assert_eq!(text_of(sj.get("s").unwrap()), format!("0xab{}", "0".repeat(62)));
    assert_eq!(sj.get("v").unwrap().as_u64(), Some(28));
    let body = exchange_request(s("the action"), 1234, &sig);
    assert_eq!(text_of(body.get("action").unwrap()), "the action");
    assert_eq!(body.get("nonce").unwrap().as_u64(), Some(1234));
    assert_eq!(body.get("signature").unwrap().get("v").unwrap().as_u64(), Some(28));
    assert_eq!(exchange_url("https://api.hyperliquid.xyz"), "https://api.hyperliquid.xyz/exchange");
}

#[test]
fn approve_agent_action_shape() {
    let mut agent = [0u8; 20];
    agent[19] = 0x42;
    let a = approve_agent_action(true, agent, "hypercopy", 77);
    assert_eq!(text_of(a.get("type").unwrap()), "approveAgent");
    assert_eq!(text_of(a.get("hyperliquidChain").unwrap()), "Mainnet");
    assert_eq!(text_of(a.get("signatureChainId").unwrap()), "0xa4b1");
    assert_eq!(text_of(a.get("agentAddress").unwrap()), format!("0x{}42", "0".repeat(38)));
    assert_eq!(text_of(a.get("agentName").unwrap()), "hypercopy");
    assert_eq!(a.get("nonce").unwrap().as_u64(), Some(77));
    let t = approve_agent_action(false, agent, "x", 1);
    assert_eq!(text_of(t.get("hyperliquidChain").unwrap()), "Testnet");
    assert_eq!(text_of(t.get("signatureChainId").unwrap()), "0x66eee");
}

#[test]
fn response_ok_reads_status() {
    assert!(response_ok(&obj(vec![("status", s("ok"))])));
    assert!(!response_ok(&obj(vec![("status", s("err"))])));
    assert!(!response_ok(&obj(vec![])));
}

fn answer(status0: Json) -> Json {
    obj(vec![
        ("status", s("ok")),
        ("response", obj(vec![("type", s("order")), ("data", obj(vec![("statuses", Json::Array(vec![status0]))]))])),
    ])
}

#[test]
fn receipt_of_filled_order() {
    let v = answer(obj(vec![("filled", obj(vec![("oid", u(77)), ("avgPx", s("1891.4")), ("totalSz", s("0.02"))]))]));
    let r = parse_receipt(&v);
    assert_eq!(r.status, "ok");
    assert_eq!(r.oid, Some(77));
    assert_eq!(r.avg_px.as_deref(), Some("1891.4"));
    assert_eq!(r.filled_sz.as_deref(), Some("0.02"));
}

#[test]
fn receipt_of_resting_order() {
    let v = answer(obj(vec![("resting", obj(vec![("oid", u(5))]))]));
    let r = parse_receipt(&v);
    assert_eq!(r.oid, Some(5));
    assert_eq!(r.avg_px, None);
    assert_eq!(r.filled_sz, None);
}

#[test]
fn receipt_of_error_and_garbage() {
    let r = parse_receipt(&answer(obj(vec![("error", s("Order must have minimum value of $10."))])));
    assert_eq!(r.status, "ok");
    assert_eq!(r.oid, None);
    let r = parse_receipt(&obj(vec![]));
    assert_eq!(r.status, "unknown");
    assert_eq!(r.oid, None);
    let r = parse_receipt(&answer(obj(vec![("filled", obj(vec![("oid", u(1)), ("avgPx", s("n/a")), ("totalSz", u(3))]))])));
    assert_eq!(r.oid, Some(1));
    assert_eq!(r.avg_px, None);
    assert_eq!(r.filled_sz, None);
}

#[test]
fn receipt_pointer_reads_object_key_zero() {
    let v = obj(vec![(
        "response",
        obj(vec![("data", obj(vec![("statuses", obj(vec![("0", obj(vec![("resting", obj(vec![("oid", u(9))]))]))]))]))]),
    )]);
    assert_eq!(parse_receipt(&v).oid, Some(9));
}

fn fill_json(side: &str, px: &str, dir: Option<&str>) -> Json {
    let mut f = vec![("coin", s("ETH")), ("side", s(side)), ("px", s(px)), ("sz", s("1.5")), ("time", u(1700))];
    if let Some(d) = dir {
        f.push(("dir", s(d)));
    }
    obj(f)
}

#[test]
fn parse_fill_reads_entry() {
    let e = parse_fill(&target(), &fill_json("B", "3012.5", Some("Open Long")), false).unwrap();
    assert_eq!(e.target_address, "0xfeed");
    assert_eq!(e.target_label, "whale");
    assert_eq!(e.coin, "ETH");
    assert_eq!(e.side, Side::Buy);
    assert_eq!(e.px, "3012.5");
    assert_eq!(e.sz, "1.5");
    assert_eq!(e.time_ms, 1700);
    assert!(!e.is_close);
    assert!(!e.is_snapshot);
    let e = parse_fill(&target(), &fill_json("A", "3012.5", Some("Close Long")), true).unwrap();
    assert_eq!(e.side, Side::Sell);
    assert!(e.is_close);
    assert!(e.is_snapshot);
    let e = parse_fill(&target(), &fill_json("A", "1", None), false).unwrap();
    assert!(!e.is_close);
}

#[test]
fn parse_fill_rejects_bad_entries() {
    assert!(parse_fill(&target(), &fill_json("X", "1", None), false).is_none());
    assert!(parse_fill(&target(), &fill_json("B", "abc", None), false).is_none());
    assert!(parse_fill(&target(), &obj(vec![("coin", s("ETH"))]), false).is_none());
    let no_time = obj(vec![("coin", s("ETH")), ("side", s("B")), ("px", s("1")), ("sz", s("1"))]);
    assert!(parse_fill(&target(), &no_time, false).is_none());
}

fn frame(channel: &str, snapshot: Option<bool>, fills: Vec<Json>) -> Json {
    let mut data = vec![("fills", Json::Array(fills))];
    if let Some(b) = snapshot {
        data.push(("isSnapshot", Json::Bool(b)));
    }
    obj(vec![("channel", s(channel)), ("data", obj(data))])
}

#[test]
fn frames_forward_live_fills() {
    let f = frame("userFills", None, vec![fill_json("B", "1", None), fill_json("Z", "1", None), fill_json("A", "2", None)]);
    let (got, events) = handle_frame(&target(), &f, false);
    assert!(!got);
    assert_eq!(events.len(), 2);
    assert_eq!(events[0].side, Side::Buy);
    assert_eq!(events[1].side, Side::Sell);
}

#[test]
fn only_first_snapshot_frame_is_read() {
    let snap = frame("userFills", Some(true), vec![fill_json("B", "1", None)]);
    let (got, events) = handle_frame(&target(), &snap, false);
    assert!(got);
    assert_eq!(events.len(), 1);
    assert!(events[0].is_snapshot);
    let (got2, events2) = handle_frame(&target(), &snap, got);
    assert!(got2);
    assert!(events2.is_empty());
    let live = frame("userFills", Some(false), vec![fill_json("B", "1", None)]);
    let (got3, events3) = handle_frame(&target(), &live, got2);
    assert!(got3);
    assert_eq!(events3.len(), 1);
    assert!(!events3[0].is_snapshot);
}

#[test]
fn other_frames_are_ignored() {
    let (got, events) = handle_frame(&target(), &frame("subscriptionResponse", Some(true), vec![fill_json("B", "1", None)]), false);
    assert!(!got);
    assert!(events.is_empty());
    let (got, events) = handle_frame(&target(), &obj(vec![("channel", s("userFills"))]), false);
    assert!(!got);
    assert!(events.is_empty());
    let no_fills = obj(vec![("channel", s("userFills")), ("data", obj(vec![("isSnapshot", Json::Bool(true))]))]);
    let (got, events) = handle_frame(&target(), &no_fills, false);
    assert!(got);
    assert!(events.is_empty());
}

#[test]
fn subscription_shape() {
    let m = subscription_message(&target());
    assert_eq!(text_of(m.get("method").unwrap()), "subscribe");
    let sub = m.get("subscription").unwrap();
    assert_eq!(text_of(sub.get("type").unwrap()), "userFills");
    assert_eq!(text_of(sub.get("user").unwrap()), "0xfeed");
}

#[test]
fn backoff_doubles_up_to_cap() {
    let mut ms = INITIAL_BACKOFF_MS;
    let mut seen = vec![ms];
    for _ in 0..10 {
        ms = next_backoff(ms);
        seen.push(ms);
    }
    assert_eq!(&seen[..8], &[500, 1000, 2000, 4000, 8000, 16000, 30000, 30000]);
    assert!(seen.iter().all(|&m| m >= INITIAL_BACKOFF_MS && m <= MAX_BACKOFF_MS));
}

#[test]
fn info_requests() {
    let c = clearinghouse_state_request("0xfeed");
    assert_eq!(text_of(c.get("type").unwrap()), "clearinghouseState");
    assert_eq!(text_of(c.get("user").unwrap()), "0xfeed");
    assert_eq!(text_of(meta_request().get("type").unwrap()), "meta");
    assert_eq!(info_url("https://api.hyperliquid.xyz"), "https://api.hyperliquid.xyz/info");
}

#[test]
fn network_names_mainnet() {
    let h = Hyperliquid { api_url: "a".to_string(), ws_url: "b".to_string(), network: "mainnet".to_string() };
    assert!(h.is_mainnet());
    let t = Hyperliquid { api_url: "a".to_string(), ws_url: "b".to_string(), network: "testnet".to_string() };
    assert!(!t.is_mainnet());
}
