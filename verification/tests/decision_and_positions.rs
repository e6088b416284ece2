use hypercopy::config::Risk;
use hypercopy::decision::{invert, Action, Engine};
use hypercopy::positions::Manager;
use hypercopy::types::{ExecReceipt, FillEvent, OrderIntent, Side, TimeInForce};

fn fill(target: &str, coin: &str, side: Side, is_close: bool, is_snapshot: bool) -> FillEvent {
    FillEvent {
        target_address: target.to_string(),
        target_label: "whale".to_string(),
        coin: coin.to_string(),
        side,
        px: "101.5".to_string(),
        sz: "3".to_string(),
        time_ms: 1_700_000_000_000,
        is_close,
        is_snapshot,
    }
}

fn intent(target: &str, coin: &str, side: Side, px: &str, sz: &str) -> OrderIntent {
    OrderIntent {
        coin: coin.to_string(),
        asset_index: 0,
        side,
        px: px.to_string(),
        sz: sz.to_string(),
        reduce_only: false,
        tif: TimeInForce::Ioc,
        source_target: target.to_string(),
    }
}

fn receipt(oid: Option<u64>, avg_px: Option<&str>, filled_sz: Option<&str>) -> ExecReceipt {
    ExecReceipt {
        oid,
        status: "ok".to_string(),
        avg_px: avg_px.map(|s| s.to_string()),
        filled_sz: filled_sz.map(|s| s.to_string()),
    }
}

fn engine(max: usize) -> Engine {
    Engine::new(Risk { max_concurrent_positions: max })
}

#[test]
fn snapshot_fill_is_skipped() {
    let m = Manager::new();
    let a = engine(5).decide(&fill("0xabc", "BTC", Side::Buy, false, true), &m, Some("0.5".to_string()));
    match a {
        Action::Skip(r) => assert_eq!(r, "snapshot fill — not mirroring history"),
        other => panic!("unexpected {:?}", other),
    }
}

#[test]
fn snapshot_close_fill_is_skipped_even_with_open_mirror() {
    let mut m = Manager::new();
    m.record_open(&intent("0xabc", "BTC", Side::Buy, "100", "2"), &receipt(Some(7), None, None));
    let a = engine(5).decide(&fill("0xabc", "BTC", Side::Sell, true, true), &m, None);
    assert!(matches!(a, Action::Skip(ref r) if r == "snapshot fill — not mirroring history"));
}

#[test]
fn close_fill_closes_open_mirror() {
    let mut m = Manager::new();
    m.record_open(&intent("0xabc", "ETH", Side::Buy, "3000", "1.25"), &receipt(Some(9), None, None));
    let a = engine(5).decide(&fill("0xabc", "ETH", Side::Sell, true, false), &m, Some("9".to_string()));
    match a {
        Action::CloseMirror(i) => {
            assert_eq!(i.coin, "ETH");
            assert_eq!(i.side, Side::Sell);
            assert_eq!(i.px, "101.5");
            assert_eq!(i.sz, "1.25");
            assert!(i.reduce_only);
            assert!(matches!(i.tif, TimeInForce::Ioc));
            assert_eq!(i.source_target, "0xabc");
            assert_eq!(i.asset_index, 0);
        }
        other => panic!("unexpected {:?}", other),
    }
}

#[test]
fn close_of_short_mirror_buys() {
    let mut m = Manager::new();
    m.record_open(&intent("0xabc", "SOL", Side::Sell, "150", "10"), &receipt(None, None, None));
    let a = engine(5).decide(&fill("0xabc", "SOL", Side::Buy, true, false), &m, None);
    match a {
        Action::CloseMirror(i) => assert_eq!(i.side, Side::Buy),
        other => panic!("unexpected {:?}", other),
    }
}

#[test]
fn close_fill_without_mirror_is_skipped() {
    let mut m = Manager::new();
    m.record_open(&intent("0xother", "ETH", Side::Buy, "3000", "1"), &receipt(None, None, None));
    let a = engine(5).decide(&fill("0xabc", "ETH", Side::Sell, true, false), &m, Some("1".to_string()));
    assert!(matches!(a, Action::Skip(ref r) if r == "close fill but no matching mirror open"));
}

#[test]
fn open_fill_at_cap_is_skipped() {
    let mut m = Manager::new();
    m.record_open(&intent("0xabc", "ETH", Side::Buy, "3000", "1"), &receipt(None, None, None));
    let a = engine(1).decide(&fill("0xdef", "BTC", Side::Buy, false, false), &m, Some("0.1".to_string()));
    assert!(matches!(a, Action::Skip(ref r) if r == "max_concurrent_positions reached"));
}

#[test]
fn open_fill_with_zero_cap_is_skipped() {
    let m = Manager::new();
    let a = engine(0).decide(&fill("0xdef", "BTC", Side::Buy, false, false), &m, Some("0.1".to_string()));
    assert!(matches!(a, Action::Skip(ref r) if r == "max_concurrent_positions reached"));
}

#[test]
fn open_fill_is_mirrored() {
    let m = Manager::new();
    let a = engine(3).decide(&fill("0xdef", "BTC", Side::Sell, false, false), &m, Some("0.0042".to_string()));
    match a {
        Action::Mirror(i) => {
            assert_eq!(i.coin, "BTC");
            assert_eq!(i.side, Side::Sell);
            assert_eq!(i.px, "101.5");
            assert_eq!(i.sz, "0.0042");
            assert!(!i.reduce_only);
            assert!(matches!(i.tif, TimeInForce::Ioc));
            assert_eq!(i.source_target, "0xdef");
        }
        other => panic!("unexpected {:?}", other),
    }
}

#[test]
fn open_fill_without_positive_size_is_skipped() {
    let m = Manager::new();
    let a = engine(3).decide(&fill("0xdef", "BTC", Side::Buy, false, false), &m, None);
    assert!(matches!(a, Action::Skip(ref r) if r == "computed size <= 0"));
}

#[test]
fn invert_is_an_involution() {
    assert_eq!(invert(Side::Buy), Side::Sell);
    assert_eq!(invert(Side::Sell), Side::Buy);
    assert_eq!(invert(invert(Side::Buy)), Side::Buy);
    assert_eq!(invert(invert(Side::Sell)), Side::Sell);
}

#[test]
fn new_manager_is_empty() {
    let m = Manager::new();
    assert_eq!(m.open_count(), 0);
    assert!(m.find_open("0xabc", "BTC").is_none());
}

#[test]
fn record_open_then_find_uses_receipt_fill() {
    let mut m = Manager::new();
    m.record_open(&intent("0xabc", "BTC", Side::Buy, "100", "2"), &receipt(Some(11), Some("100.5"), Some("1.5")));
    let o = m.find_open("0xabc", "BTC").expect("mirror");
    assert_eq!(o.target, "0xabc");
    assert_eq!(o.coin, "BTC");
    assert_eq!(o.side, Side::Buy);
    assert_eq!(o.sz, "1.5");
    assert_eq!(o.entry_px, "100.5");
    assert_eq!(o.oid, Some(11));
    assert!(m.find_open("0xabc", "ETH").is_none());
    assert!(m.find_open("0xab", "BTC").is_none());
}

#[test]
fn record_open_without_fill_uses_intent() {
    let mut m = Manager::new();
    m.record_open(&intent("0xabc", "BTC", Side::Sell, "100", "2"), &receipt(None, None, None));
    let o = m.find_open("0xabc", "BTC").expect("mirror");
    assert_eq!(o.sz, "2");
    assert_eq!(o.entry_px, "100");
    assert_eq!(o.oid, None);
}

#[test]
fn record_open_replaces_same_key() {
    let mut m = Manager::new();
    m.record_open(&intent("0xabc", "BTC", Side::Buy, "100", "2"), &receipt(Some(1), None, None));
    m.record_open(&intent("0xabc", "BTC", Side::Sell, "90", "4"), &receipt(Some(2), None, None));
    assert_eq!(m.open_count(), 1);
    let o = m.find_open("0xabc", "BTC").unwrap();
    assert_eq!(o.side, Side::Sell);
    assert_eq!(o.oid, Some(2));
}

#[test]
fn open_count_counts_distinct_target_coin_pairs() {
    let mut m = Manager::new();
    m.record_open(&intent("0xa", "BTC", Side::Buy, "1", "1"), &receipt(None, None, None));
    m.record_open(&intent("0xa", "ETH", Side::Buy, "1", "1"), &receipt(None, None, None));
    m.record_open(&intent("0xb", "BTC", Side::Buy, "1", "1"), &receipt(None, None, None));
    assert_eq!(m.open_count(), 3);
    m.record_close(&intent("0xa", "ETH", Side::Sell, "1", "1"), &receipt(None, None, None));
    assert_eq!(m.open_count(), 2);
    m.record_close(&intent("0xa", "ETH", Side::Sell, "1", "1"), &receipt(None, None, None));
    assert_eq!(m.open_count(), 2);
    assert!(m.find_open("0xa", "BTC").is_some());
    assert!(m.find_open("0xb", "BTC").is_some());
    assert!(m.find_open("0xa", "ETH").is_none());
}

#[test]
fn close_undoes_open() {
    let mut m = Manager::new();
    m.record_open(&intent("0xa", "BTC", Side::Buy, "1", "1"), &receipt(None, None, None));
    m.record_open(&intent("0xb", "ETH", Side::Buy, "1", "1"), &receipt(None, None, None));
    m.record_close(&intent("0xb", "ETH", Side::Buy, "1", "1"), &receipt(None, None, None));
    assert_eq!(m.open_count(), 1);
    assert!(m.find_open("0xa", "BTC").is_some());
    assert!(m.find_open("0xb", "ETH").is_none());
}

#[test]
fn mirrored_open_is_closed_by_later_close_fill() {
    let mut m = Manager::new();
    let e = engine(2);
    let open = match e.decide(&fill("0xabc", "BTC", Side::Buy, false, false), &m, Some("0.25".to_string())) {
        Action::Mirror(i) => i,
        other => panic!("unexpected {:?}", other),
    };
    m.record_open(&open, &receipt(Some(3), Some("101.4"), Some("0.25")));
    let close = match e.decide(&fill("0xabc", "BTC", Side::Sell, true, false), &m, None) {
        Action::CloseMirror(i) => i,
        other => panic!("unexpected {:?}", other),
    };
    assert_eq!(close.side, Side::Sell);
    assert_eq!(close.sz, "0.25");
    assert!(close.reduce_only);
    m.record_close(&close, &receipt(Some(4), None, None));
    assert_eq!(m.open_count(), 0);
    let again = e.decide(&fill("0xabc", "BTC", Side::Sell, true, false), &m, None);
    assert!(matches!(again, Action::Skip(ref r) if r == "close fill but no matching mirror open"));
}
