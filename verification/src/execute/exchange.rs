//! POST /exchange: the order action, the signed request around it, and the
//! reading of the exchange's answer.
//!
//! The wire payload uses compact 1-letter keys (a/b/p/s/r/t) to keep the
//! signed message small.
use vstd::prelude::*;
use crate::json::{
    lemma_field_lookup_first, items_view, lemma_items_view, push_field, push_item, Json, JsonNum, JsonValue,
};
use crate::crypto::ecdsa_sign;
use crate::execute::signer::{l1_digest, rsv_of, user_signed_chain_id, AgentSigner, SignError, SignatureRsv, SignatureView};
use crate::msgpack::msgpack_named;
use crate::text::{concat_str, float_literal, hex_encode, hex_of_bytes, hex_of_u64, hex_u64, is_float_literal, str_to_string};
use crate::types::{ExecReceipt, ExecReceiptView, OrderIntent, OrderIntentView, Side, TimeInForce};

verus! {

pub open spec fn tif_name(t: TimeInForce) -> Seq<char> {
    match t {
        TimeInForce::Ioc => "Ioc"@,
        TimeInForce::Gtc => "Gtc"@,
        TimeInForce::Alo => "Alo"@,
    }
}

/// `{"limit": {"tif": <name>}}`
pub open spec fn tif_value(t: TimeInForce) -> JsonValue {
    JsonValue::Object(seq![("limit"@, JsonValue::Object(seq![("tif"@, JsonValue::Str(tif_name(t)))]))])
}

/// The order type of a time in force.
pub fn tif_to_json(t: TimeInForce) -> (j: Json)
    ensures
        j@ == tif_value(t),
{
    let name = match t {
        TimeInForce::Ioc => "Ioc",
        TimeInForce::Gtc => "Gtc",
        TimeInForce::Alo => "Alo",
    };
    let mut inner: Vec<(String, Json)> = Vec::new();
    push_field(&mut inner, "tif", Json::text(name));
    let mut outer: Vec<(String, Json)> = Vec::new();
    push_field(&mut outer, "limit", Json::Object(inner));
    Json::Object(outer)
}

/// The order action for one intent:
/// `{"type": "order", "orders": [{"a", "b", "p", "s", "r", "t"}], "grouping": "na"}`.
pub open spec fn order_value(i: OrderIntentView) -> JsonValue {
    JsonValue::Object(
        seq![
            ("type"@, JsonValue::Str("order"@)),
            ("orders"@, JsonValue::Array(seq![JsonValue::Object(order_fields(i))])),
            ("grouping"@, JsonValue::Str("na"@)),
        ],
    )
}

/// The fields of the one order: `a`sset, `b`uy, `p`rice, `s`ize, `r`educe-only, `t`ype.
pub open spec fn order_fields(i: OrderIntentView) -> Seq<(Seq<char>, JsonValue)> {
    seq![
        ("a"@, JsonValue::Number(JsonNum::PosInt(i.asset_index as u64))),
        ("b"@, JsonValue::Bool(i.side == Side::Buy)),
        ("p"@, JsonValue::Str(i.px)),
        ("s"@, JsonValue::Str(i.sz)),
        ("r"@, JsonValue::Bool(i.reduce_only)),
        ("t"@, tif_value(i.tif)),
    ]
}

/// The order action that places `intent`.
pub fn order_action(intent: &OrderIntent) -> (j: Json)
    ensures
        j@ == order_value(intent@),
{
    let mut order: Vec<(String, Json)> = Vec::new();
    push_field(&mut order, "a", Json::uint(intent.asset_index as u64));
    push_field(&mut order, "b", Json::Bool(intent.side == Side::Buy));
    push_field(&mut order, "p", Json::Str(intent.px.clone()));
    push_field(&mut order, "s", Json::Str(intent.sz.clone()));
    push_field(&mut order, "r", Json::Bool(intent.reduce_only));
    push_field(&mut order, "t", tif_to_json(intent.tif));
    let ghost i = intent@;
    assert(crate::json::fields_view(order@) =~= order_fields(i));
    let mut orders: Vec<Json> = Vec::new();
    push_item(&mut orders, Json::Object(order));
    assert(items_view(orders@) =~= seq![JsonValue::Object(order_fields(i))]);
    let mut action: Vec<(String, Json)> = Vec::new();
    push_field(&mut action, "type", Json::text("order"));
    push_field(&mut action, "orders", Json::Array(orders));
    push_field(&mut action, "grouping", Json::text("na"));
    assert(crate::json::fields_view(action@) =~= seq![
        ("type"@, JsonValue::Str("order"@)),
        ("orders"@, JsonValue::Array(seq![JsonValue::Object(order_fields(i))])),
        ("grouping"@, JsonValue::Str("na"@)),
    ]);
    Json::Object(action)
}

/// `0x` and the lowercase hex digits of a byte string (`format!("0x{:x}", ..)` of fixed bytes).
pub open spec fn hex_text(b: Seq<u8>) -> Seq<char> {
    "0x"@ + hex_of_bytes(b)
}

fn hex_text_of(b: &[u8]) -> (r: String)
    requires
        b@.len() <= 64,
    ensures
        r@ == hex_text(b@),
{
    let h = hex_encode(b);
    concat_str("0x", h.as_str())
}

/// `{"r": "0x..", "s": "0x..", "v": v}`
pub open spec fn signature_value(sig: SignatureView) -> JsonValue {
    JsonValue::Object(
        seq![
            ("r"@, JsonValue::Str(hex_text(sig.r))),
            ("s"@, JsonValue::Str(hex_text(sig.s))),
            ("v"@, JsonValue::Number(JsonNum::PosInt(sig.v as u64))),
        ],
    )
}

/// The signature as the exchange takes it.
pub fn signature_json(sig: &SignatureRsv) -> (j: Json)
    ensures
        j@ == signature_value(sig@),
{
    let mut fields: Vec<(String, Json)> = Vec::new();
    push_field(&mut fields, "r", Json::Str(hex_text_of(sig.r.as_slice())));
    push_field(&mut fields, "s", Json::Str(hex_text_of(sig.s.as_slice())));
    push_field(&mut fields, "v", Json::uint(sig.v as u64));
    let j = Json::Object(fields);
    assert(j@ == JsonValue::Object(crate::json::fields_view(fields@)));
    assert(crate::json::fields_view(fields@) =~= seq![
            ("r"@, JsonValue::Str(hex_text(sig.r@))),
            ("s"@, JsonValue::Str(hex_text(sig.s@))),
            ("v"@, JsonValue::Number(JsonNum::PosInt(sig.v as u64))),
        ]);
    j
}

/// `{"action": .., "nonce": .., "signature": ..}`
pub open spec fn request_value(action: JsonValue, nonce: u64, sig: SignatureView) -> JsonValue {
    JsonValue::Object(
        seq![
            ("action"@, action),
            ("nonce"@, JsonValue::Number(JsonNum::PosInt(nonce))),
            ("signature"@, signature_value(sig)),
        ],
    )
}

/// The body of a POST to /exchange: a signed action and its nonce.
pub fn exchange_request(action: Json, nonce: u64, sig: &SignatureRsv) -> (j: Json)
    ensures
        j@ == request_value(action@, nonce, sig@),
{
    let mut fields: Vec<(String, Json)> = Vec::new();
    push_field(&mut fields, "action", action);
    push_field(&mut fields, "nonce", Json::uint(nonce));
    push_field(&mut fields, "signature", signature_json(sig));
    assert(crate::json::fields_view(fields@) =~= seq![
        ("action"@, action@),
        ("nonce"@, JsonValue::Number(JsonNum::PosInt(nonce))),
        ("signature"@, signature_value(sig@)),
    ]);
    Json::Object(fields)
}

/// The signed request that places `intent`: the order action, the nonce,
/// and the agent's signature over that same action and nonce (no vault).
pub fn signed_order_request(signer: &AgentSigner, intent: &OrderIntent, nonce: u64, is_mainnet: bool) -> (r: Result<Json, SignError>)
    ensures
        match r {
            Ok(body) => match rsv_of(ecdsa_sign(signer.key(), l1_digest(msgpack_named(order_value(intent@)), nonce, None, is_mainnet))) {
                Some(sig) => body@ == request_value(order_value(intent@), nonce, sig),
                None => false,
            },
            Err(e) => e == SignError::SigningFailed && rsv_of(ecdsa_sign(signer.key(), l1_digest(msgpack_named(order_value(intent@)), nonce, None, is_mainnet))) is None,
        },
{
    let action = order_action(intent);
    let sig = signer.sign_l1_action(&action, nonce, None, is_mainnet)?;
    Ok(exchange_request(action, nonce, &sig))
}

/// The exchange endpoint under an API base URL.
pub fn exchange_url(base: &str) -> (u: String)
    ensures
        u@ == base@ + "/exchange"@,
{
    concat_str(base, "/exchange")
}

/// The approveAgent action that lets `agent_address` trade for the main wallet.
pub open spec fn approve_agent_value(is_mainnet: bool, agent: Seq<u8>, agent_name: Seq<char>, nonce: u64) -> JsonValue {
    JsonValue::Object(
        seq![
            ("type"@, JsonValue::Str("approveAgent"@)),
            ("hyperliquidChain"@, JsonValue::Str(if is_mainnet { "Mainnet"@ } else { "Testnet"@ })),
            ("signatureChainId"@, JsonValue::Str("0x"@ + hex_of_u64((if is_mainnet { 42161u64 } else { 421614u64 }) as nat))),
            ("agentAddress"@, JsonValue::Str(hex_text(agent))),
            ("agentName"@, JsonValue::Str(agent_name)),
            ("nonce"@, JsonValue::Number(JsonNum::PosInt(nonce))),
        ],
    )
}

/// The approveAgent action.
pub fn approve_agent_action(is_mainnet: bool, agent_address: [u8; 20], agent_name: &str, nonce: u64) -> (j: Json)
    ensures
        j@ == approve_agent_value(is_mainnet, agent_address@, agent_name@, nonce),
{
    let mut fields: Vec<(String, Json)> = Vec::new();
    push_field(&mut fields, "type", Json::text("approveAgent"));
    push_field(&mut fields, "hyperliquidChain", Json::text(if is_mainnet { "Mainnet" } else { "Testnet" }));
    let chain_hex = hex_u64(user_signed_chain_id(is_mainnet));
    push_field(&mut fields, "signatureChainId", Json::Str(concat_str("0x", chain_hex.as_str())));
    push_field(&mut fields, "agentAddress", Json::Str(hex_text_of(agent_address.as_slice())));
    push_field(&mut fields, "agentName", Json::text(agent_name));
    push_field(&mut fields, "nonce", Json::uint(nonce));
    assert(crate::json::fields_view(fields@) =~= seq![
        ("type"@, JsonValue::Str("approveAgent"@)),
        ("hyperliquidChain"@, JsonValue::Str(if is_mainnet { "Mainnet"@ } else { "Testnet"@ })),
        ("signatureChainId"@, JsonValue::Str("0x"@ + hex_of_u64((if is_mainnet { 42161u64 } else { 421614u64 }) as nat))),
        ("agentAddress"@, JsonValue::Str(hex_text(agent_address@))),
        ("agentName"@, JsonValue::Str(agent_name@)),
        ("nonce"@, JsonValue::Number(JsonNum::PosInt(nonce))),
    ]);
    Json::Object(fields)
}

/// Whether the exchange answered `{"status": "ok", ..}`.
pub fn response_ok(v: &Json) -> (r: bool)
    ensures
        r == (v@.get_str("status"@) == Some("ok"@)),
{
    match v.get("status") {
        Some(s) => match s.as_str() {
            Some(t) => *t == str_to_string("ok"),
            None => false,
        },
        None => false,
    }
}

/// A field that is a non-negative integer.
pub open spec fn get_u64(v: JsonValue, key: Seq<char>) -> Option<u64> {
    match v.get(key) {
        Some(x) => x.as_u64(),
        None => None,
    }
}

/// A string field whose text `str::parse::<f64>` accepts.
pub open spec fn get_float_text(v: JsonValue, key: Seq<char>) -> Option<Seq<char>> {
    match v.get_str(key) {
        Some(t) => if is_float_literal(t) {
            Some(t)
        } else {
            None
        },
        None => None,
    }
}

/// The JSON pointer step "0": the first item of an array, the field "0" of an object.
pub open spec fn pointer_zero(v: JsonValue) -> Option<JsonValue> {
    match v {
        JsonValue::Array(items) => if items.len() > 0 {
            Some(items[0])
        } else {
            None
        },
        JsonValue::Object(_) => v.get("0"@),
        _ => None,
    }
}

/// What `pointer("/response/data/statuses/0")` finds.
pub open spec fn first_status(v: JsonValue) -> Option<JsonValue> {
    match v.get("response"@) {
        Some(r) => match r.get("data"@) {
            Some(d) => match d.get("statuses"@) {
                Some(st) => pointer_zero(st),
                None => None,
            },
            None => None,
        },
        None => None,
    }
}

/// The receipt that an answer of the exchange to an order gives.
pub open spec fn receipt_of(v: JsonValue) -> ExecReceiptView {
    let status = match v.get_str("status"@) {
        Some(s) => s,
        None => "unknown"@,
    };
    match first_status(v) {
        Some(s) => match s.get("filled"@) {
            Some(f) => ExecReceiptView {
                oid: get_u64(f, "oid"@),
                status,
                avg_px: get_float_text(f, "avgPx"@),
                filled_sz: get_float_text(f, "totalSz"@),
            },
            None => match s.get("resting"@) {
                Some(r) => ExecReceiptView { oid: get_u64(r, "oid"@), status, avg_px: None, filled_sz: None },
                None => ExecReceiptView { oid: None, status, avg_px: None, filled_sz: None },
            },
        },
        None => ExecReceiptView { oid: None, status, avg_px: None, filled_sz: None },
    }
}

fn field_u64(v: &Json, key: &str) -> (r: Option<u64>)
    ensures
        r == get_u64(v@, key@),
{
    match v.get(key) {
        Some(x) => x.as_u64(),
        None => None,
    }
}

fn field_float_text(v: &Json, key: &str) -> (r: Option<String>)
    ensures
        crate::types::opt_string_view(r) == get_float_text(v@, key@),
{
    match v.get(key) {
        Some(x) => match x.as_str() {
            Some(t) => if float_literal(t.as_str()) {
                Some(t.clone())
            } else {
                None
            },
            None => None,
        },
        None => None,
    }
}

fn step_zero(v: &Json) -> (r: Option<&Json>)
    ensures
        match r {
            Some(x) => pointer_zero(v@) == Some(x@),
            None => pointer_zero(v@) is None,
        },
{
    match v {
        Json::Array(items) => {
            proof {
                lemma_items_view(items@);
            }
            if items.len() > 0 {
                Some(&items[0])
            } else {
                None
            }
        },
        Json::Object(_) => v.get("0"),
        _ => None,
    }
}

fn status_entry(v: &Json) -> (r: Option<&Json>)
    ensures
        match r {
            Some(x) => first_status(v@) == Some(x@),
            None => first_status(v@) is None,
        },
{
    let r = v.get("response")?;
    let d = r.get("data")?;
    let st = d.get("statuses")?;
    step_zero(st)
}

/// Reads the exchange's answer to an order: its status, and the order id,
/// average price and filled size of the first order status where it
/// reports a fill, or the order id where the order rests on the book.
pub fn parse_receipt(v: &Json) -> (r: ExecReceipt)
    ensures
        r@ == receipt_of(v@),
{
    let status = match v.get("status") {
        Some(s) => match s.as_str() {
            Some(t) => t.clone(),
            None => str_to_string("unknown"),
        },
        None => str_to_string("unknown"),
    };
    match status_entry(v) {
        Some(s) => match s.get("filled") {
            Some(f) => ExecReceipt {
                oid: field_u64(f, "oid"),
                status,
                avg_px: field_float_text(f, "avgPx"),
                filled_sz: field_float_text(f, "totalSz"),
            },
            None => match s.get("resting") {
                Some(rest) => ExecReceipt { oid: field_u64(rest, "oid"), status, avg_px: None, filled_sz: None },
                None => ExecReceipt { oid: None, status, avg_px: None, filled_sz: None },
            },
        },
        None => ExecReceipt { oid: None, status, avg_px: None, filled_sz: None },
    }
}

/// The order action says what the intent says: type "order", grouping
/// "na", and one order whose asset is the intent's asset index, whose "b"
/// is true exactly for a buy (whatever `reduce_only` is), whose price and
/// size are the intent's texts, whose "r" is the intent's reduce-only flag
/// and whose time in force is the intent's.
pub proof fn law_order_fields(i: OrderIntentView)
    ensures
        order_value(i).get("type"@) == Some(JsonValue::Str("order"@)),
        order_value(i).get("grouping"@) == Some(JsonValue::Str("na"@)),
        order_value(i).get("orders"@) matches Some(JsonValue::Array(os)) && os.len() == 1 && {
            let o = os[0];
            &&& o.get("a"@) == Some(JsonValue::Number(JsonNum::PosInt(i.asset_index as u64)))
            &&& (o.get("b"@) == Some(JsonValue::Bool(true))) == (i.side == Side::Buy)
            &&& (o.get("b"@) == Some(JsonValue::Bool(false))) == (i.side == Side::Sell)
            &&& o.get("p"@) == Some(JsonValue::Str(i.px))
            &&& o.get("s"@) == Some(JsonValue::Str(i.sz))
            &&& o.get("r"@) == Some(JsonValue::Bool(i.reduce_only))
            &&& o.get("t"@) matches Some(t) && t.get("limit"@) matches Some(l) && l.get("tif"@) == Some(
                JsonValue::Str(
                    match i.tif {
                        TimeInForce::Ioc => "Ioc"@,
                        TimeInForce::Gtc => "Gtc"@,
                        TimeInForce::Alo => "Alo"@,
                    },
                ),
            )
        },
{
    reveal_strlit("type");
    reveal_strlit("orders");
    reveal_strlit("grouping");
    reveal_strlit("a");
    reveal_strlit("b");
    reveal_strlit("p");
    reveal_strlit("s");
    reveal_strlit("r");
    reveal_strlit("t");
    reveal_strlit("limit");
    reveal_strlit("tif");
    let top = seq![
        ("type"@, JsonValue::Str("order"@)),
        ("orders"@, JsonValue::Array(seq![JsonValue::Object(order_fields(i))])),
        ("grouping"@, JsonValue::Str("na"@)),
    ];
    assert(order_value(i) == JsonValue::Object(top));
    lemma_field_lookup_first(top, "type"@, 0);
    assert("type"@.len() == 4 && "orders"@.len() == 6 && "grouping"@.len() == 8);
    assert(top[0].0 != "orders"@);
    assert(top[0].0 != "grouping"@ && top[1].0 != "grouping"@);
    lemma_field_lookup_first(top, "orders"@, 1);
    lemma_field_lookup_first(top, "grouping"@, 2);
    let f = order_fields(i);
    assert(f[0].0[0] != "b"@[0]);
    assert(f[0].0[0] != "p"@[0]);
    assert(f[1].0[0] != "p"@[0]);
    assert(f[0].0[0] != "s"@[0]);
    assert(f[1].0[0] != "s"@[0]);
    assert(f[2].0[0] != "s"@[0]);
    assert(f[0].0[0] != "r"@[0]);
    assert(f[1].0[0] != "r"@[0]);
    assert(f[2].0[0] != "r"@[0]);
    assert(f[3].0[0] != "r"@[0]);
    assert(f[0].0[0] != "t"@[0]);
    assert(f[1].0[0] != "t"@[0]);
    assert(f[2].0[0] != "t"@[0]);
    assert(f[3].0[0] != "t"@[0]);
    assert(f[4].0[0] != "t"@[0]);
    lemma_field_lookup_first(f, "a"@, 0);
    lemma_field_lookup_first(f, "b"@, 1);
    lemma_field_lookup_first(f, "p"@, 2);
    lemma_field_lookup_first(f, "s"@, 3);
    lemma_field_lookup_first(f, "r"@, 4);
    lemma_field_lookup_first(f, "t"@, 5);
    let lim = seq![("limit"@, JsonValue::Object(seq![("tif"@, JsonValue::Str(tif_name(i.tif)))]))];
    lemma_field_lookup_first(lim, "limit"@, 0);
    lemma_field_lookup_first(seq![("tif"@, JsonValue::Str(tif_name(i.tif)))], "tif"@, 0);
}

/// The receipt's status is the answer's own "status" text where it has
/// one, and "unknown" where it has none; fill data (average price, filled
/// size) is reported only from a first order status that says "filled".
pub proof fn law_receipt_status(v: JsonValue)
    ensures
        v.get_str("status"@) matches Some(t) ==> receipt_of(v).status == t,
        v.get_str("status"@) is None ==> receipt_of(v).status == "unknown"@,
        (receipt_of(v).avg_px is Some || receipt_of(v).filled_sz is Some) ==> (first_status(v) matches Some(s)
            && s.get("filled"@) is Some),
        first_status(v) matches Some(s) ==> (s.get("filled"@) matches Some(f) ==> (receipt_of(v).oid == get_u64(f, "oid"@)
            && receipt_of(v).avg_px == get_float_text(f, "avgPx"@) && receipt_of(v).filled_sz == get_float_text(
            f,
            "totalSz"@,
        ))),
{
}

} // verus!
