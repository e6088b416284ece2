//! Decision engine: takes an observed fill and either emits an order intent
//! (mirror open / mirror close) or skips with a reason.
//!
//!   - skip snapshot fills (we only mirror live activity)
//!   - on close-direction fill from target: emit reduce-only close of our mirror
//!   - skip if risk caps already hit
//!   - on open-direction fill: send IOC at the observed price, sized by the
//!     sizing rule
use vstd::prelude::*;
use crate::config::Risk;
use crate::positions::{Manager, OpenMirrorView};
use crate::text::str_to_string;
use crate::types::{FillEvent, FillEventView, OrderIntent, OrderIntentView, Side, TimeInForce};

verus! {

/// What to do about a fill.
#[derive(Debug)]
pub enum Action {
    Mirror(OrderIntent),
    CloseMirror(OrderIntent),
    Skip(String),
}

pub enum ActionView {
    Mirror(OrderIntentView),
    CloseMirror(OrderIntentView),
    Skip(Seq<char>),
}

impl View for Action {
    type V = ActionView;

    open spec fn view(&self) -> ActionView {
        match self {
            Action::Mirror(i) => ActionView::Mirror(i@),
            Action::CloseMirror(i) => ActionView::CloseMirror(i@),
            Action::Skip(r) => ActionView::Skip(r@),
        }
    }
}

/// The opposite direction.
pub open spec fn opposite(s: Side) -> Side {
    match s {
        Side::Buy => Side::Sell,
        Side::Sell => Side::Buy,
    }
}

/// The opposite direction.
pub fn invert(s: Side) -> (r: Side)
    ensures
        r == opposite(s),
{
    match s {
        Side::Buy => Side::Sell,
        Side::Sell => Side::Buy,
    }
}

pub open spec fn snapshot_reason() -> Seq<char> {
    "snapshot fill — not mirroring history"@
}

pub open spec fn no_mirror_reason() -> Seq<char> {
    "close fill but no matching mirror open"@
}

pub open spec fn cap_reason() -> Seq<char> {
    "max_concurrent_positions reached"@
}

pub open spec fn size_reason() -> Seq<char> {
    "computed size <= 0"@
}

/// The reduce-only order that closes our mirror `open` of a target's position.
pub open spec fn close_intent(fill: FillEventView, open: OpenMirrorView) -> OrderIntentView {
    OrderIntentView {
        coin: fill.coin,
        asset_index: 0,
        side: opposite(open.side),
        px: fill.px,
        sz: open.sz,
        reduce_only: true,
        tif: TimeInForce::Ioc,
        source_target: fill.target_address,
    }
}

/// The order that opens a mirror of a target's fill with size `sz`.
pub open spec fn open_intent(fill: FillEventView, sz: Seq<char>) -> OrderIntentView {
    OrderIntentView {
        coin: fill.coin,
        asset_index: 0,
        side: fill.side,
        px: fill.px,
        sz,
        reduce_only: false,
        tif: TimeInForce::Ioc,
        source_target: fill.target_address,
    }
}

/// The decision for a fill, given the open mirrors, the position cap and
/// the size that the sizing rule gives for an opening order when it is
/// positive.
pub open spec fn decision(
    max_positions: usize,
    fill: FillEventView,
    open: Map<(Seq<char>, Seq<char>), OpenMirrorView>,
    open_size: Option<Seq<char>>,
) -> ActionView {
    let key = (fill.target_address, fill.coin);
    if fill.is_snapshot {
        ActionView::Skip(snapshot_reason())
    } else if fill.is_close {
        if open.contains_key(key) {
            ActionView::CloseMirror(close_intent(fill, open[key]))
        } else {
            ActionView::Skip(no_mirror_reason())
        }
    } else if open.dom().len() >= max_positions {
        ActionView::Skip(cap_reason())
    } else {
        match open_size {
            Some(sz) => ActionView::Mirror(open_intent(fill, sz)),
            None => ActionView::Skip(size_reason()),
        }
    }
}

/// Turns fills into mirror decisions under the configured risk caps.
pub struct Engine {
    pub risk: Risk,
}

impl Engine {
    pub fn new(risk: Risk) -> (e: Self)
        ensures
            e.risk == risk,
    {
        Self { risk }
    }

    /// Decides what to do about `fill`. `open_size` is the size of a
    /// mirror opening, as the sizing rule computes it from the fill's
    /// price (`max_notional_usd * fixed_pct / 100 / px`), when that size
    /// is positive, and `None` when it is not.
    pub fn decide(&self, fill: &FillEvent, positions: &Manager, open_size: Option<String>) -> (a:
        Action)
        ensures
            a@ == decision(
                self.risk.max_concurrent_positions,
                fill@,
                positions@,
                crate::types::opt_string_view(open_size),
            ),
    {
        if fill.is_snapshot {
            return Action::Skip(str_to_string("snapshot fill — not mirroring history"));
        }
        if fill.is_close {
            // Mirror-close path: only if we actually have a mirror open for this coin/target.
            if let Some(open) = positions.find_open(fill.target_address.as_str(), fill.coin.as_str()) {
                let intent = OrderIntent {
                    coin: fill.coin.clone(),
                    asset_index: 0,
                    side: invert(open.side),
                    px: fill.px.clone(),
                    sz: open.sz.clone(),
                    reduce_only: true,
                    tif: TimeInForce::Ioc,
                    source_target: fill.target_address.clone(),
                };
                return Action::CloseMirror(intent);
            }
            return Action::Skip(str_to_string("close fill but no matching mirror open"));
        }
        // Open-direction fill. Apply risk caps.
        if positions.open_count() >= self.risk.max_concurrent_positions {
            return Action::Skip(str_to_string("max_concurrent_positions reached"));
        }
        match open_size {
            None => Action::Skip(str_to_string("computed size <= 0")),
            Some(sz) => Action::Mirror(
                OrderIntent {
                    coin: fill.coin.clone(),
                    asset_index: 0,
                    side: fill.side,
                    px: fill.px.clone(),
                    sz,
                    reduce_only: false,
                    tif: TimeInForce::Ioc,
                    source_target: fill.target_address.clone(),
                },
            ),
        }
    }
}

/// Inverting a side twice gives it back, and inverting always changes it.
pub proof fn law_invert_involution(s: Side)
    ensures
        opposite(opposite(s)) == s,
        opposite(s) != s,
{
}

/// Snapshot fills are never mirrored: the engine skips them, whatever the
/// open mirrors and the sizing.
pub proof fn law_snapshot_never_mirrored(
    max_positions: usize,
    fill: FillEventView,
    open: Map<(Seq<char>, Seq<char>), OpenMirrorView>,
    open_size: Option<Seq<char>>,
)
    requires
        fill.is_snapshot,
    ensures
        decision(max_positions, fill, open, open_size) == ActionView::Skip(snapshot_reason()),
{
}

/// A mirror is closed only where one is open for the fill's target and
/// coin; the closing order is reduce-only, immediate-or-cancel, opposite
/// to the mirror's side and of the mirror's size.
pub proof fn law_close_only_open_mirror(
    max_positions: usize,
    fill: FillEventView,
    open: Map<(Seq<char>, Seq<char>), OpenMirrorView>,
    open_size: Option<Seq<char>>,
)
    ensures
        decision(max_positions, fill, open, open_size) matches ActionView::CloseMirror(i) ==> {
            let key = (fill.target_address, fill.coin);
            &&& !fill.is_snapshot && fill.is_close
            &&& open.contains_key(key)
            &&& i.reduce_only && i.tif == TimeInForce::Ioc
            &&& i.side == opposite(open[key].side)
            &&& i.sz == open[key].sz
            &&& i.coin == fill.coin && i.source_target == fill.target_address
        },
{
}

/// A new mirror is opened only for a live opening fill, while fewer than
/// the cap of mirrors are open; it follows the target's side at its price,
/// is not reduce-only, and is immediate-or-cancel.
pub proof fn law_open_respects_cap(
    max_positions: usize,
    fill: FillEventView,
    open: Map<(Seq<char>, Seq<char>), OpenMirrorView>,
    open_size: Option<Seq<char>>,
)
    ensures
        decision(max_positions, fill, open, open_size) matches ActionView::Mirror(i) ==> {
            &&& !fill.is_snapshot && !fill.is_close
            &&& open.dom().len() < max_positions
            &&& open_size == Some(i.sz)
            &&& i.side == fill.side && i.px == fill.px
            &&& !i.reduce_only && i.tif == TimeInForce::Ioc
        },
{
}

/// A mirror opened for a live fill is keyed by the fill's target and coin,
/// so that a later live close fill of that target and coin closes it: the
/// closing order sells what a buy opened (and buys back what a sell
/// opened), for the recorded size.
pub proof fn law_open_then_close(
    max_positions: usize,
    f: FillEventView,
    open: Map<(Seq<char>, Seq<char>), OpenMirrorView>,
    sz: Seq<char>,
    recorded: OpenMirrorView,
    g: FillEventView,
    later_size: Option<Seq<char>>,
)
    requires
        !f.is_snapshot,
        !f.is_close,
        open.dom().len() < max_positions,
        recorded.side == f.side,
        !g.is_snapshot,
        g.is_close,
        g.target_address == f.target_address,
        g.coin == f.coin,
    ensures
        decision(max_positions, f, open, Some(sz)) == ActionView::Mirror(open_intent(f, sz)),
        ({
            let i = open_intent(f, sz);
            let after = open.insert((i.source_target, i.coin), recorded);
            &&& decision(max_positions, g, after, later_size) == ActionView::CloseMirror(close_intent(g, recorded))
            &&& close_intent(g, recorded).side == opposite(f.side)
            &&& close_intent(g, recorded).sz == recorded.sz
        }),
{
}

} // verus!
