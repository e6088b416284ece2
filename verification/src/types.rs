//! The events, intents and receipts that flow through the copier.
use vstd::prelude::*;

verus! {

/// Direction of a fill or an order.
#[derive(Debug, Clone, Copy, PartialEq, Eq, Structural)]
pub enum Side {
    Buy,
    Sell,
}

/// Time in force of an order.
#[derive(Debug, Clone, Copy, PartialEq, Eq, Structural)]
pub enum TimeInForce {
    Ioc,
    Gtc,
    Alo,
}

/// Fill event observed from a target wallet's userFills stream.
///
/// Prices and sizes are the decimal texts that the exchange sent, each one
/// a valid floating-point literal.
#[derive(Debug)]
pub struct FillEvent {
    pub target_address: String,
    pub target_label: String,
    pub coin: String,
    pub side: Side,
    pub px: String,
    pub sz: String,
    pub time_ms: u64,
    /// True if this fill reduces/closes the target's position.
    pub is_close: bool,
    /// True if this is part of the initial snapshot (not a live fill).
    pub is_snapshot: bool,
}

pub struct FillEventView {
    pub target_address: Seq<char>,
    pub target_label: Seq<char>,
    pub coin: Seq<char>,
    pub side: Side,
    pub px: Seq<char>,
    pub sz: Seq<char>,
    pub time_ms: u64,
    pub is_close: bool,
    pub is_snapshot: bool,
}

impl View for FillEvent {
    type V = FillEventView;

    open spec fn view(&self) -> FillEventView {
        FillEventView {
            target_address: self.target_address@,
            target_label: self.target_label@,
            coin: self.coin@,
            side: self.side,
            px: self.px@,
            sz: self.sz@,
            time_ms: self.time_ms,
            is_close: self.is_close,
            is_snapshot: self.is_snapshot,
        }
    }
}

/// Mirror order we want to submit on our own account.
#[derive(Debug)]
pub struct OrderIntent {
    pub coin: String,
    pub asset_index: u32,
    pub side: Side,
    pub px: String,
    pub sz: String,
    pub reduce_only: bool,
    pub tif: TimeInForce,
    pub source_target: String,
}

pub struct OrderIntentView {
    pub coin: Seq<char>,
    pub asset_index: u32,
    pub side: Side,
    pub px: Seq<char>,
    pub sz: Seq<char>,
    pub reduce_only: bool,
    pub tif: TimeInForce,
    pub source_target: Seq<char>,
}

impl View for OrderIntent {
    type V = OrderIntentView;

    open spec fn view(&self) -> OrderIntentView {
        OrderIntentView {
            coin: self.coin@,
            asset_index: self.asset_index,
            side: self.side,
            px: self.px@,
            sz: self.sz@,
            reduce_only: self.reduce_only,
            tif: self.tif,
            source_target: self.source_target@,
        }
    }
}

/// What the exchange answered to an order.
#[derive(Debug)]
pub struct ExecReceipt {
    pub oid: Option<u64>,
    pub status: String,
    pub avg_px: Option<String>,
    pub filled_sz: Option<String>,
}

pub struct ExecReceiptView {
    pub oid: Option<u64>,
    pub status: Seq<char>,
    pub avg_px: Option<Seq<char>>,
    pub filled_sz: Option<Seq<char>>,
}

pub open spec fn opt_string_view(s: Option<String>) -> Option<Seq<char>> {
    match s {
        Some(t) => Some(t@),
        None => None,
    }
}

impl View for ExecReceipt {
    type V = ExecReceiptView;

    open spec fn view(&self) -> ExecReceiptView {
        ExecReceiptView {
            oid: self.oid,
            status: self.status@,
            avg_px: opt_string_view(self.avg_px),
            filled_sz: opt_string_view(self.filled_sz),
        }
    }
}

} // verus!
