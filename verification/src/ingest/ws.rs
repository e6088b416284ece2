//! Hyperliquid WebSocket subscriber: the subscription request, the reading
//! of `userFills` frames into fill events, and the reconnect backoff.
//!
//! After a reconnect the exchange first sends a snapshot frame; fills in it
//! are marked `is_snapshot` so the decision engine does not re-mirror
//! historical trades, and only the first snapshot frame of a connection
//! is read at all.
use vstd::prelude::*;
use crate::config::Target;
use crate::execute::exchange::get_u64;
use crate::json::{items_view, lemma_items_view, push_field, Json, JsonValue};
use crate::text::{float_literal, has_prefix, is_float_literal, starts_with, str_to_string};
use crate::types::{FillEvent, FillEventView, Side};
use crate::decision::{decision, snapshot_reason, ActionView};
use crate::positions::OpenMirrorView;

verus! {

/// The first pause before reconnecting, in milliseconds.
pub const INITIAL_BACKOFF_MS: u64 = 500;

/// The longest pause before reconnecting, in milliseconds.
pub const MAX_BACKOFF_MS: u64 = 30_000;

/// The pause after `ms`: doubled, at most `MAX_BACKOFF_MS`.
pub open spec fn backoff_after(ms: u64) -> u64 {
    if 2 * ms <= MAX_BACKOFF_MS {
        (2 * ms) as u64
    } else {
        MAX_BACKOFF_MS
    }
}

/// The pause before the next reconnect, after one of `ms`.
pub fn next_backoff(ms: u64) -> (r: u64)
    requires
        ms <= u64::MAX / 2,
    ensures
        r == backoff_after(ms),
{
    let doubled = ms * 2;
    if doubled <= MAX_BACKOFF_MS {
        doubled
    } else {
        MAX_BACKOFF_MS
    }
}

/// `{"method": "subscribe", "subscription": {"type": "userFills", "user": <address>}}`
pub open spec fn subscription_value(address: Seq<char>) -> JsonValue {
    JsonValue::Object(
        seq![
            ("method"@, JsonValue::Str("subscribe"@)),
            (
                "subscription"@,
                JsonValue::Object(
                    seq![("type"@, JsonValue::Str("userFills"@)), ("user"@, JsonValue::Str(address))],
                ),
            ),
        ],
    )
}

/// The request that subscribes to a target's fills.
pub fn subscription_message(target: &Target) -> (j: Json)
    ensures
        j@ == subscription_value(target.address@),
{
    let mut sub: Vec<(String, Json)> = Vec::new();
    push_field(&mut sub, "type", Json::text("userFills"));
    push_field(&mut sub, "user", Json::Str(target.address.clone()));
    let ghost sub_fields = seq![("type"@, JsonValue::Str("userFills"@)), ("user"@, JsonValue::Str(target.address@))];
    assert(crate::json::fields_view(sub@) =~= sub_fields);
    let mut fields: Vec<(String, Json)> = Vec::new();
    push_field(&mut fields, "method", Json::text("subscribe"));
    push_field(&mut fields, "subscription", Json::Object(sub));
    assert(crate::json::fields_view(fields@) =~= seq![
        ("method"@, JsonValue::Str("subscribe"@)),
        ("subscription"@, JsonValue::Object(sub_fields)),
    ]);
    Json::Object(fields)
}

/// The fill event that a `userFills` entry of a target describes: it needs
/// a coin, a side "B" (buy) or "A" (sell), price and size texts that parse
/// as floats, and a time; its `dir` tells whether it closes a position.
pub open spec fn fill_of(address: Seq<char>, label: Seq<char>, f: JsonValue, is_snapshot: bool) -> Option<FillEventView> {
    let dir = match f.get_str("dir"@) {
        Some(d) => d,
        None => ""@,
    };
    match (f.get_str("coin"@), f.get_str("side"@), f.get_str("px"@), f.get_str("sz"@), get_u64(f, "time"@)) {
        (Some(coin), Some(side), Some(px), Some(sz), Some(time_ms)) => {
            if (side == "B"@ || side == "A"@) && is_float_literal(px) && is_float_literal(sz) {
                Some(
                    FillEventView {
                        target_address: address,
                        target_label: label,
                        coin,
                        side: if side == "B"@ {
                            Side::Buy
                        } else {
                            Side::Sell
                        },
                        px,
                        sz,
                        time_ms,
                        is_close: has_prefix(dir, "Close"@),
                        is_snapshot,
                    },
                )
            } else {
                None
            }
        },
        _ => None,
    }
}

fn field_text<'a>(f: &'a Json, key: &str) -> (r: Option<&'a String>)
    ensures
        match r {
            Some(s) => f@.get_str(key@) == Some(s@),
            None => f@.get_str(key@) is None,
        },
{
    match f.get(key) {
        Some(v) => v.as_str(),
        None => None,
    }
}

/// Reads one entry of a `userFills` frame.
pub fn parse_fill(target: &Target, f: &Json, is_snapshot: bool) -> (r: Option<FillEvent>)
    ensures
        match r {
            Some(e) => fill_of(target.address@, target.label@, f@, is_snapshot) == Some(e@),
            None => fill_of(target.address@, target.label@, f@, is_snapshot) is None,
        },
{
    let coin = field_text(f, "coin")?;
    let side_s = field_text(f, "side")?;
    let side = if *side_s == str_to_string("B") {
        Side::Buy
    } else if *side_s == str_to_string("A") {
        Side::Sell
    } else {
        return None;
    };
    let px = field_text(f, "px")?;
    if !float_literal(px.as_str()) {
        return None;
    }
    let sz = field_text(f, "sz")?;
    if !float_literal(sz.as_str()) {
        return None;
    }
    let time_ms = match f.get("time") {
        Some(t) => t.as_u64()?,
        None => return None,
    };
    // `dir` describes intent: "Open Long" / "Close Long" / "Open Short" / "Close Short".
    let is_close = match field_text(f, "dir") {
        Some(d) => starts_with(d.as_str(), "Close"),
        None => starts_with("", "Close"),
    };
    Some(
        FillEvent {
            target_address: target.address.clone(),
            target_label: target.label.clone(),
            coin: coin.clone(),
            side,
            px: px.clone(),
            sz: sz.clone(),
            time_ms,
            is_close,
            is_snapshot,
        },
    )
}

/// The fill events of a frame's entries, in order, skipping entries that do not read.
pub open spec fn fills_of(address: Seq<char>, label: Seq<char>, items: Seq<JsonValue>, is_snapshot: bool) -> Seq<FillEventView>
    decreases items.len(),
{
    if items.len() == 0 {
        Seq::empty()
    } else {
        fills_of(address, label, items.drop_last(), is_snapshot) + match fill_of(address, label, items.last(), is_snapshot) {
            Some(e) => seq![e],
            None => Seq::empty(),
        }
    }
}

/// What a frame does, given whether the connection has had its snapshot:
/// whether it has had one afterwards, and the fill events to forward.
/// Frames of other channels, without data, or a second snapshot give nothing.
pub open spec fn frame_outcome(address: Seq<char>, label: Seq<char>, frame: JsonValue, got_snapshot: bool) -> (bool, Seq<FillEventView>) {
    let channel = match frame.get_str("channel"@) {
        Some(c) => c,
        None => ""@,
    };
    if channel != "userFills"@ {
        (got_snapshot, Seq::empty())
    } else {
        match frame.get("data"@) {
            None => (got_snapshot, Seq::empty()),
            Some(data) => {
                let is_snapshot = match data.get("isSnapshot"@) {
                    Some(b) => match b.as_bool() {
                        Some(x) => x,
                        None => false,
                    },
                    None => false,
                };
                if is_snapshot && got_snapshot {
                    (got_snapshot, Seq::empty())
                } else {
                    let got = got_snapshot || is_snapshot;
                    match data.get("fills"@) {
                        Some(fills) => match fills.as_array() {
                            Some(items) => (got, fills_of(address, label, items, is_snapshot)),
                            None => (got, Seq::empty()),
                        },
                        None => (got, Seq::empty()),
                    }
                }
            },
        }
    }
}

/// The views of a list of fill events.
pub open spec fn events_view(events: Seq<FillEvent>) -> Seq<FillEventView> {
    events.map_values(|e: FillEvent| e@)
}

fn read_fills(target: &Target, items: &Vec<Json>, is_snapshot: bool) -> (events: Vec<FillEvent>)
    ensures
        events_view(events@) == fills_of(target.address@, target.label@, items_view(items@), is_snapshot),
{
    let ghost iv = items_view(items@);
    proof {
        lemma_items_view(items@);
    }
    let mut events: Vec<FillEvent> = Vec::new();
    let mut i: usize = 0;
    while i < items.len()
        invariant
            0 <= i <= items@.len(),
            iv == items_view(items@),
            iv.len() == items@.len(),
            forall|k: int| 0 <= k < items@.len() ==> #[trigger] iv[k] == items@[k]@,
            events_view(events@) == fills_of(target.address@, target.label@, iv.take(i as int), is_snapshot),
        decreases items@.len() - i,
    {
        let ghost before = events@;
        assert(iv.take(i + 1).drop_last() =~= iv.take(i as int));
        assert(iv.take(i + 1).last() == items@[i as int]@);
        match parse_fill(target, &items[i], is_snapshot) {
            Some(e) => {
                events.push(e);
                assert(events_view(events@) =~= events_view(before).push(e@));
            },
            None => {},
        }
        assert(events_view(events@) =~= fills_of(target.address@, target.label@, iv.take(i + 1), is_snapshot));
        i = i + 1;
    }
    assert(iv.take(items@.len() as int) =~= iv);
    events
}

/// Reads one `userFills` frame of a connection that has (`got_snapshot`)
/// or has not yet had its snapshot frame.
pub fn handle_frame(target: &Target, frame: &Json, got_snapshot: bool) -> (r: (bool, Vec<FillEvent>))
    ensures
        frame_outcome(target.address@, target.label@, frame@, got_snapshot) == (r.0, events_view(r.1@)),
{
    let channel_ok = match field_text(frame, "channel") {
        Some(c) => *c == str_to_string("userFills"),
        None => false,
    };
    proof {
        reveal_strlit("userFills");
        reveal_strlit("");
    }
    if !channel_ok {
        let none: Vec<FillEvent> = Vec::new();
        assert(events_view(none@) =~= Seq::<FillEventView>::empty());
        assert(""@.len() == 0 && "userFills"@.len() == 9);
        return (got_snapshot, none);
    }
    let data = match frame.get("data") {
        Some(d) => d,
        None => return (got_snapshot, Vec::new()),
    };
    let is_snapshot = match data.get("isSnapshot") {
        Some(b) => match b.as_bool() {
            Some(x) => x,
            None => false,
        },
        None => false,
    };
    if is_snapshot && got_snapshot {
        return (got_snapshot, Vec::new());
    }
    let got = got_snapshot || is_snapshot;
    let fills = match data.get("fills") {
        Some(f) => match f.as_array() {
            Some(items) => items,
            None => return (got, Vec::new()),
        },
        None => return (got, Vec::new()),
    };
    (got, read_fills(target, fills, is_snapshot))
}

/// The reconnect pause never leaves [INITIAL_BACKOFF_MS, MAX_BACKOFF_MS]
/// once it starts there, never shrinks, and stays at the cap once it gets there.
pub proof fn law_backoff_bounded(ms: u64)
    requires
        INITIAL_BACKOFF_MS <= ms <= MAX_BACKOFF_MS,
    ensures
        INITIAL_BACKOFF_MS <= backoff_after(ms) <= MAX_BACKOFF_MS,
        ms <= backoff_after(ms),
        ms == MAX_BACKOFF_MS ==> backoff_after(ms) == MAX_BACKOFF_MS,
{
}

/// Every event read from a frame belongs to the subscribed target, and is
/// marked a snapshot fill exactly where its frame is a snapshot.
pub proof fn law_fills_belong_to_target(address: Seq<char>, label: Seq<char>, items: Seq<JsonValue>, is_snapshot: bool)
    ensures
        forall|i: int| 0 <= i < fills_of(address, label, items, is_snapshot).len() ==> {
            let e = #[trigger] fills_of(address, label, items, is_snapshot)[i];
            e.target_address == address && e.target_label == label && e.is_snapshot == is_snapshot
        },
    decreases items.len(),
{
    if items.len() > 0 {
        law_fills_belong_to_target(address, label, items.drop_last(), is_snapshot);
    }
}

/// Once a connection has had its snapshot it keeps having had it, and a
/// further snapshot frame yields no events: snapshot fills are forwarded
/// from one frame per connection at most.
pub proof fn law_one_snapshot_per_connection(address: Seq<char>, label: Seq<char>, frame: JsonValue, got_snapshot: bool)
    ensures
        got_snapshot ==> frame_outcome(address, label, frame, got_snapshot).0,
        (got_snapshot && frame_outcome(address, label, frame, got_snapshot).1.len() > 0) ==> forall|i: int|
            0 <= i < frame_outcome(address, label, frame, got_snapshot).1.len() ==> !(#[trigger] frame_outcome(address, label, frame, got_snapshot).1[i]).is_snapshot,
        (frame_outcome(address, label, frame, got_snapshot).1.len() > 0 && exists|i: int|
            0 <= i < frame_outcome(address, label, frame, got_snapshot).1.len() && (#[trigger] frame_outcome(address, label, frame, got_snapshot).1[i]).is_snapshot) ==> !got_snapshot && frame_outcome(address, label, frame, got_snapshot).0,
{
    match frame.get("data"@) {
        Some(data) => match data.get("fills"@) {
            Some(fills) => match fills.as_array() {
                Some(items) => {
                    law_fills_belong_to_target(address, label, items, true);
                    law_fills_belong_to_target(address, label, items, false);
                },
                None => {},
            },
            None => {},
        },
        None => {},
    }
}

/// Fills read from a snapshot frame are never mirrored, whatever the open
/// mirrors, the cap and the sizing.
pub proof fn law_snapshot_frames_never_mirrored(
    address: Seq<char>,
    label: Seq<char>,
    items: Seq<JsonValue>,
    i: int,
    max_positions: usize,
    open: Map<(Seq<char>, Seq<char>), OpenMirrorView>,
    open_size: Option<Seq<char>>,
)
    requires
        0 <= i < fills_of(address, label, items, true).len(),
    ensures
        decision(max_positions, fills_of(address, label, items, true)[i], open, open_size)
            == ActionView::Skip(snapshot_reason()),
{
    law_fills_belong_to_target(address, label, items, true);
}

/// Whether an entry's field is text that parses as a float.
pub open spec fn float_field(f: JsonValue, key: Seq<char>) -> bool {
    match f.get_str(key) {
        Some(t) => is_float_literal(t),
        None => false,
    }
}

/// A userFills entry reads exactly when it has a coin, a side "B" or "A",
/// float price and size texts and a time; the event then carries those
/// values, is a buy exactly for "B" and a sell exactly for "A", and is a
/// close exactly when the entry's "dir" begins with "Close" (both
/// "Close Long" and "Close Short"), never when there is no "dir".
pub proof fn law_fill_fields(address: Seq<char>, label: Seq<char>, f: JsonValue, is_snapshot: bool)
    ensures
        (fill_of(address, label, f, is_snapshot) is Some) == (f.get_str("coin"@) is Some && (f.get_str("side"@)
            == Some("B"@) || f.get_str("side"@) == Some("A"@)) && float_field(f, "px"@) && float_field(f, "sz"@)
            && get_u64(f, "time"@) is Some),
        fill_of(address, label, f, is_snapshot) matches Some(e) ==> {
            let dir = match f.get_str("dir"@) {
                Some(d) => d,
                None => Seq::<char>::empty(),
            };
            &&& e.is_close == (dir.len() >= 5 && dir.take(5) == seq!['C', 'l', 'o', 's', 'e'])
            &&& (e.side == Side::Buy) == (f.get_str("side"@) == Some(seq!['B']))
            &&& (e.side == Side::Sell) == (f.get_str("side"@) == Some(seq!['A']))
            &&& f.get_str("coin"@) == Some(e.coin)
            &&& f.get_str("px"@) == Some(e.px)
            &&& f.get_str("sz"@) == Some(e.sz)
            &&& get_u64(f, "time"@) == Some(e.time_ms)
            &&& e.target_address == address && e.target_label == label && e.is_snapshot == is_snapshot
        },
{
    reveal_strlit("B");
    reveal_strlit("A");
    reveal_strlit("Close");
    reveal_strlit("");
    assert("B"@ =~= seq!['B']);
    assert("A"@ =~= seq!['A']);
    assert("Close"@ =~= seq!['C', 'l', 'o', 's', 'e']);
    assert(""@ =~= Seq::<char>::empty());
    if let Some(e) = fill_of(address, label, f, is_snapshot) {
        let dir = match f.get_str("dir"@) {
            Some(d) => d,
            None => Seq::<char>::empty(),
        };
        assert(e.is_close == has_prefix(dir, "Close"@));
        assert(e.is_close == (dir.len() >= 5 && dir.take(5) == seq!['C', 'l', 'o', 's', 'e']));
        assert((e.side == Side::Buy) == (f.get_str("side"@) == Some(seq!['B'])));
        assert(seq!['A'][0] != seq!['B'][0]);
        assert(seq!['A'] != seq!['B']);
        assert((e.side == Side::Sell) == (f.get_str("side"@) == Some(seq!['A'])));
    }
}

} // verus!
