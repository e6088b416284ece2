//! In-memory mirror-state tracker.
//!
//! Keeps at most one open mirror per (target, coin).
use vstd::prelude::*;
use crate::types::{ExecReceipt, OrderIntent, Side};

verus! {

/// A mirror position that we hold for a target's position in a coin.
#[derive(Debug)]
pub struct OpenMirror {
    pub target: String,
    pub coin: String,
    pub side: Side,
    pub sz: String,
    pub entry_px: String,
    pub oid: Option<u64>,
}

pub struct OpenMirrorView {
    pub target: Seq<char>,
    pub coin: Seq<char>,
    pub side: Side,
    pub sz: Seq<char>,
    pub entry_px: Seq<char>,
    pub oid: Option<u64>,
}

impl View for OpenMirror {
    type V = OpenMirrorView;

    open spec fn view(&self) -> OpenMirrorView {
        OpenMirrorView {
            target: self.target@,
            coin: self.coin@,
            side: self.side,
            sz: self.sz@,
            entry_px: self.entry_px@,
            oid: self.oid,
        }
    }
}

/// The key under which a mirror is kept: (target address, coin).
pub open spec fn mirror_key(m: OpenMirror) -> (Seq<char>, Seq<char>) {
    (m.target@, m.coin@)
}

/// The mirror that `record_open` keeps for an intent and its receipt: the
/// filled size and average price where the exchange reported them, the
/// intent's own size and price otherwise.
pub open spec fn opened_mirror(intent: OrderIntent, receipt: ExecReceipt) -> OpenMirrorView {
    OpenMirrorView {
        target: intent.source_target@,
        coin: intent.coin@,
        side: intent.side,
        sz: match receipt.filled_sz {
            Some(s) => s@,
            None => intent.sz@,
        },
        entry_px: match receipt.avg_px {
            Some(p) => p@,
            None => intent.px@,
        },
        oid: receipt.oid,
    }
}

/// The keys of a sequence of mirrors.
pub open spec fn keys_of(s: Seq<OpenMirror>) -> Seq<(Seq<char>, Seq<char>)> {
    s.map_values(|m: OpenMirror| mirror_key(m))
}

/// Tracks the mirrors that are open, keyed by (target, coin).
pub struct Manager {
    by_target_coin: Vec<OpenMirror>,
}

impl Manager {
    /// The keys of the open mirrors, in storage order.
    pub closed spec fn keys(self) -> Seq<(Seq<char>, Seq<char>)> {
        keys_of(self.by_target_coin@)
    }

    #[verifier::type_invariant]
    closed spec fn keys_unique(self) -> bool {
        self.keys().no_duplicates()
    }
}

impl View for Manager {
    type V = Map<(Seq<char>, Seq<char>), OpenMirrorView>;

    closed spec fn view(&self) -> Map<(Seq<char>, Seq<char>), OpenMirrorView> {
        Map::new(
            |k: (Seq<char>, Seq<char>)| self.keys().contains(k),
            |k: (Seq<char>, Seq<char>)| self.by_target_coin@[self.keys().index_of(k)]@,
        )
    }
}

impl Manager {
    proof fn lemma_view_at(self, i: int)
        requires
            self.keys_unique(),
            0 <= i < self.by_target_coin@.len(),
        ensures
            self@.contains_key(mirror_key(self.by_target_coin@[i])),
            self@[mirror_key(self.by_target_coin@[i])] == self.by_target_coin@[i]@,
    {
        let k = mirror_key(self.by_target_coin@[i]);
        assert(self.keys()[i] == k);
        assert(self.keys().contains(k));
        let j = self.keys().index_of(k);
        assert(self.keys()[j] == k);
    }

    proof fn lemma_dom_finite_len(self)
        requires
            self.keys_unique(),
        ensures
            self@.dom() =~= self.keys().to_set(),
            self@.dom().len() == self.by_target_coin@.len(),
    {
        assert(self@.dom() =~= self.keys().to_set());
        self.keys().unique_seq_to_set();
    }

    pub fn new() -> (m: Self)
        ensures
            m@ == Map::<(Seq<char>, Seq<char>), OpenMirrorView>::empty(),
    {
        let m = Manager { by_target_coin: Vec::new() };
        assert(m@ =~= Map::<(Seq<char>, Seq<char>), OpenMirrorView>::empty());
        m
    }

    /// Number of open mirrors.
    pub fn open_count(&self) -> (n: usize)
        ensures
            n == self@.dom().len(),
            self@.dom().finite(),
    {
        proof {
            use_type_invariant(self);
            self.lemma_dom_finite_len();
        }
        self.by_target_coin.len()
    }

    fn position_of(&self, target: &String, coin: &String) -> (r: Option<usize>)
        ensures
            match r {
                Some(i) => i < self.by_target_coin@.len() && self.keys()[i as int] == (
                target@, coin@),
                None => !self.keys().contains((target@, coin@)),
            },
    {
        let mut i: usize = 0;
        while i < self.by_target_coin.len()
            invariant
                0 <= i <= self.by_target_coin@.len(),
                self.keys().len() == self.by_target_coin@.len(),
                forall|j: int| 0 <= j < i ==> self.keys()[j] != (target@, coin@),
            decreases self.by_target_coin@.len() - i,
        {
            let m = &self.by_target_coin[i];
            if m.target == *target && m.coin == *coin {
                return Some(i);
            }
            i = i + 1;
        }
        None
    }

    /// The open mirror for `target` and `coin`, if any.
    pub fn find_open(&self, target: &str, coin: &str) -> (r: Option<&OpenMirror>)
        ensures
            match r {
                Some(m) => self@.contains_key((target@, coin@)) && self@[(target@, coin@)] == m@
                    && m.target@ == target@ && m.coin@ == coin@,
                None => !self@.contains_key((target@, coin@)),
            },
    {
        proof {
            use_type_invariant(self);
        }
        let t = crate::text::str_to_string(target);
        let c = crate::text::str_to_string(coin);
        match self.position_of(&t, &c) {
            Some(i) => {
                proof {
                    self.lemma_view_at(i as int);
                }
                Some(&self.by_target_coin[i])
            },
            None => None,
        }
    }

    /// Records the mirror opened by `intent`, replacing any mirror already
    /// kept for the same target and coin.
    pub fn record_open(&mut self, intent: &OrderIntent, receipt: &ExecReceipt)
        ensures
            final(self)@ == old(self)@.insert(
                (intent.source_target@, intent.coin@),
                opened_mirror(*intent, *receipt),
            ),
    {
        proof {
            use_type_invariant(&*self);
        }
        let mirror = OpenMirror {
            target: intent.source_target.clone(),
            coin: intent.coin.clone(),
            side: intent.side,
            sz: match &receipt.filled_sz {
                Some(s) => s.clone(),
                None => intent.sz.clone(),
            },
            entry_px: match &receipt.avg_px {
                Some(p) => p.clone(),
                None => intent.px.clone(),
            },
            oid: receipt.oid,
        };
        let ghost key = (intent.source_target@, intent.coin@);
        let ghost old_self = *self;
        assert(mirror@ == opened_mirror(*intent, *receipt));
        match self.position_of(&intent.source_target, &intent.coin) {
            Some(i) => {
                let mut v = Vec::new();
                std::mem::swap(&mut v, &mut self.by_target_coin);
                v.set(i, mirror);
                proof {
                    assert(keys_of(v@) =~= keys_of(old_self.by_target_coin@));
                }
                self.by_target_coin = v;
                proof {
                    assert(self.keys() =~= old_self.keys());
                    assert forall|k| #[trigger] self@.contains_key(k) implies self@[k] == old_self@.insert(key, opened_mirror(*intent, *receipt))[k] by {
                        let j = self.keys().index_of(k);
                        self.lemma_view_at(j);
                        if j != i {
                            old_self.lemma_view_at(j);
                        }
                    }
                    assert(self@ =~= old_self@.insert(key, opened_mirror(*intent, *receipt)));
                }
            },
            None => {
                let mut v = Vec::new();
                std::mem::swap(&mut v, &mut self.by_target_coin);
                v.push(mirror);
                proof {
                    let ks = keys_of(v@);
                    assert(ks =~= old_self.keys().push(key));
                    assert forall|a: int, b: int|
                        0 <= a < ks.len() && 0 <= b < ks.len() && a != b implies ks[a] != ks[b] by {
                        if a == ks.len() - 1 {
                            assert(old_self.keys()[b] != key);
                        } else if b == ks.len() - 1 {
                            assert(old_self.keys()[a] != key);
                        }
                    }
                }
                self.by_target_coin = v;
                proof {
                    assert(self.keys() =~= old_self.keys().push(key));
                    assert forall|k| #[trigger] self@.contains_key(k) implies self@[k] == old_self@.insert(key, opened_mirror(*intent, *receipt))[k] by {
                        let j = self.keys().index_of(k);
                        self.lemma_view_at(j);
                        if j < old_self.by_target_coin@.len() {
                            old_self.lemma_view_at(j);
                        }
                    }
                    assert forall|k| #[trigger] old_self@.insert(key, opened_mirror(*intent, *receipt)).contains_key(k) implies self@.contains_key(k) by {
                        if k == key {
                            assert(self.keys()[self.keys().len() - 1] == k);
                        } else {
                            let j = old_self.keys().index_of(k);
                            assert(self.keys()[j] == k);
                        }
                    }
                    assert(self@ =~= old_self@.insert(key, opened_mirror(*intent, *receipt)));
                }
            },
        }
    }

    /// Forgets the mirror kept for the intent's target and coin.
    pub fn record_close(&mut self, intent: &OrderIntent, _receipt: &ExecReceipt)
        ensures
            final(self)@ == old(self)@.remove((intent.source_target@, intent.coin@)),
    {
        proof {
            use_type_invariant(&*self);
        }
        let ghost key = (intent.source_target@, intent.coin@);
        let ghost old_self = *self;
        match self.position_of(&intent.source_target, &intent.coin) {
            Some(i) => {
                let mut v = Vec::new();
                std::mem::swap(&mut v, &mut self.by_target_coin);
                v.remove(i);
                proof {
                    let ks = keys_of(v@);
                    let oks = old_self.keys();
                    assert(ks =~= oks.remove(i as int));
                    assert forall|a: int, b: int|
                        0 <= a < ks.len() && 0 <= b < ks.len() && a != b implies ks[a] != ks[b] by {
                        let a2 = if a < i { a } else { a + 1 };
                        let b2 = if b < i { b } else { b + 1 };
                        assert(ks[a] == oks[a2]);
                        assert(ks[b] == oks[b2]);
                    }
                }
                self.by_target_coin = v;
                proof {
                    assert(self.keys() =~= old_self.keys().remove(i as int));
                    assert forall|k| #[trigger] old_self@.remove(key).contains_key(k) implies self@.contains_key(k) by {
                        let j = old_self.keys().index_of(k);
                        assert(old_self.keys()[j] == k);
                        assert(j != i);
                        if j < i {
                            assert(self.keys()[j] == k);
                        } else {
                            assert(self.keys()[j - 1] == k);
                        }
                    }
                    assert forall|k| #[trigger] self@.contains_key(k) implies old_self@.remove(key).contains_key(k) by {
                        let j = self.keys().index_of(k);
                        self.lemma_view_at(j);
                        if j < i {
                            old_self.lemma_view_at(j);
                        } else {
                            old_self.lemma_view_at(j + 1);
                        }
                    }
                    assert forall|k| #[trigger] self@.contains_key(k) implies self@[k] == old_self@.remove(key)[k] by {
                        let j = self.keys().index_of(k);
                        self.lemma_view_at(j);
                        if j < i {
                            old_self.lemma_view_at(j);
                        } else {
                            old_self.lemma_view_at(j + 1);
                        }
                    }
                    assert(self@ =~= old_self@.remove(key));
                }
            },
            None => {
                assert(old_self@ =~= old_self@.remove(key));
            },
        }
    }
}

/// After a mirror is recorded as opened, looking up its target and coin
/// finds it, and every other mirror is as before.
pub proof fn law_find_after_open(
    before: Map<(Seq<char>, Seq<char>), OpenMirrorView>,
    intent: OrderIntent,
    receipt: ExecReceipt,
)
    ensures
        ({
            let after = before.insert((intent.source_target@, intent.coin@), opened_mirror(intent, receipt));
            &&& after.contains_key((intent.source_target@, intent.coin@))
            &&& after[(intent.source_target@, intent.coin@)] == opened_mirror(intent, receipt)
            &&& forall|k| k != (intent.source_target@, intent.coin@) ==> (#[trigger] after.contains_key(k)
                == before.contains_key(k) && (before.contains_key(k) ==> after[k] == before[k]))
        }),
{
}

/// After a mirror is recorded as closed, nothing is open for its target and
/// coin, and every other mirror is as before.
pub proof fn law_find_after_close(before: Map<(Seq<char>, Seq<char>), OpenMirrorView>, intent: OrderIntent)
    ensures
        ({
            let after = before.remove((intent.source_target@, intent.coin@));
            &&& !after.contains_key((intent.source_target@, intent.coin@))
            &&& forall|k| k != (intent.source_target@, intent.coin@) ==> (#[trigger] after.contains_key(k)
                == before.contains_key(k) && (before.contains_key(k) ==> after[k] == before[k]))
        }),
{
}

/// Opening a mirror for a (target, coin) that had none, then closing it,
/// leaves the open mirrors as they were.
pub proof fn law_close_undoes_open(
    before: Map<(Seq<char>, Seq<char>), OpenMirrorView>,
    intent: OrderIntent,
    receipt: ExecReceipt,
)
    requires
        !before.contains_key((intent.source_target@, intent.coin@)),
    ensures
        before.insert((intent.source_target@, intent.coin@), opened_mirror(intent, receipt)).remove(
            (intent.source_target@, intent.coin@),
        ) == before,
{
    assert(before.insert((intent.source_target@, intent.coin@), opened_mirror(intent, receipt)).remove(
        (intent.source_target@, intent.coin@),
    ) =~= before);
}

/// Opening a mirror adds one to the count of open mirrors where none was
/// open for its target and coin, and leaves the count otherwise; closing
/// takes one away where one was open.
pub proof fn law_open_count(
    before: Map<(Seq<char>, Seq<char>), OpenMirrorView>,
    key: (Seq<char>, Seq<char>),
    mirror: OpenMirrorView,
)
    requires
        before.dom().finite(),
    ensures
        before.insert(key, mirror).dom().len() == if before.contains_key(key) {
            before.dom().len()
        } else {
            before.dom().len() + 1
        },
        before.remove(key).dom().len() == if before.contains_key(key) {
            before.dom().len() - 1
        } else {
            before.dom().len() as int
        },
{
    if before.contains_key(key) {
        assert(before.insert(key, mirror).dom() =~= before.dom());
    } else {
        assert(before.remove(key).dom() =~= before.dom());
    }
}

/// One step of a manager's history: a mirror recorded as opened under a
/// key, or the mirror under a key recorded as closed.
pub enum MirrorOp {
    Open((Seq<char>, Seq<char>), OpenMirrorView),
    Close((Seq<char>, Seq<char>)),
}

/// What one step does to the open mirrors: `record_open` inserts,
/// `record_close` removes.
pub open spec fn apply_op(
    m: Map<(Seq<char>, Seq<char>), OpenMirrorView>,
    op: MirrorOp,
) -> Map<(Seq<char>, Seq<char>), OpenMirrorView> {
    match op {
        MirrorOp::Open(k, v) => m.insert(k, v),
        MirrorOp::Close(k) => m.remove(k),
    }
}

/// The open mirrors of a manager made by `new` and then given the steps `ops`.
pub open spec fn replay(ops: Seq<MirrorOp>) -> Map<(Seq<char>, Seq<char>), OpenMirrorView>
    decreases ops.len(),
{
    if ops.len() == 0 {
        Map::empty()
    } else {
        apply_op(replay(ops.drop_last()), ops.last())
    }
}

/// Whether the last step of `ops` that names `k` opens it.
pub open spec fn open_after(ops: Seq<MirrorOp>, k: (Seq<char>, Seq<char>)) -> bool
    decreases ops.len(),
{
    if ops.len() == 0 {
        false
    } else {
        match ops.last() {
            MirrorOp::Open(k2, _) => if k2 == k {
                true
            } else {
                open_after(ops.drop_last(), k)
            },
            MirrorOp::Close(k2) => if k2 == k {
                false
            } else {
                open_after(ops.drop_last(), k)
            },
        }
    }
}

/// The (target, coin) keys whose last step is an opening.
pub open spec fn open_keys(ops: Seq<MirrorOp>) -> Set<(Seq<char>, Seq<char>)> {
    Set::new(|k: (Seq<char>, Seq<char>)| open_after(ops, k))
}

/// Over any history from `new`, the open mirrors are kept under exactly
/// the keys whose last opening is not followed by a closing, so the open
/// count is the number of such keys.
pub proof fn law_open_count_of_history(ops: Seq<MirrorOp>)
    ensures
        replay(ops).dom() == open_keys(ops),
        replay(ops).dom().finite(),
        replay(ops).dom().len() == open_keys(ops).len(),
    decreases ops.len(),
{
    if ops.len() == 0 {
        assert(replay(ops).dom() =~= open_keys(ops));
    } else {
        law_open_count_of_history(ops.drop_last());
        assert(replay(ops).dom() =~= open_keys(ops));
    }
}

/// The mirror that `record_open` keeps follows the exchange's report:
/// its size is the receipt's filled size whenever one was reported and the
/// intent's size otherwise, and its entry price is the receipt's average
/// price whenever one was reported and the intent's price otherwise,
/// whatever the side; it keeps the intent's target, coin and side and the
/// receipt's order id.
pub proof fn law_opened_mirror(intent: OrderIntent, receipt: ExecReceipt)
    ensures
        receipt.filled_sz matches Some(s) ==> opened_mirror(intent, receipt).sz == s@,
        receipt.filled_sz is None ==> opened_mirror(intent, receipt).sz == intent.sz@,
        receipt.avg_px matches Some(p) ==> opened_mirror(intent, receipt).entry_px == p@,
        receipt.avg_px is None ==> opened_mirror(intent, receipt).entry_px == intent.px@,
        opened_mirror(intent, receipt).target == intent.source_target@,
        opened_mirror(intent, receipt).coin == intent.coin@,
        opened_mirror(intent, receipt).side == intent.side,
        opened_mirror(intent, receipt).oid == receipt.oid,
{
}

} // verus!
