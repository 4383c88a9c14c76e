//! The per-seed sync ledger: the item-stream cursor of each save slot and
//! the location checks that still wait to reach the server.
use vstd::prelude::*;

verus! {

/// Number of save slots the game offers.
pub const SAVE_SLOTS: usize = 10;

/// A location check that could not be sent, with the save slot it was made in.
#[derive(PartialEq, Eq, Structural, Clone, Copy, Debug)]
pub struct OfflineCheck {
    pub location_id: i64,
    pub slot: u64,
}

/// The ledger as a mathematical value.
pub struct LedgerView {
    pub sync_index: Seq<u64>,
    pub offline_checks: Seq<OfflineCheck>,
}

/// Cursor per save slot and the checks not yet confirmed by the server.
#[derive(Clone, Debug)]
pub struct SyncLedger {
    pub sync_index: Vec<u64>,
    pub offline_checks: Vec<OfflineCheck>,
}

impl View for SyncLedger {
    type V = LedgerView;

    open spec fn view(&self) -> LedgerView {
        LedgerView { sync_index: self.sync_index@, offline_checks: self.offline_checks@ }
    }
}

/// Whether some check of `p` is for the given location.
pub open spec fn has_location(p: Seq<OfflineCheck>, id: i64) -> bool {
    exists|i: int| 0 <= i < p.len() && (#[trigger] p[i]).location_id == id
}

/// Location ids of the checks of `p` that `sent` does not hold, in order.
pub open spec fn unsent(p: Seq<OfflineCheck>, sent: Set<i64>) -> Seq<i64>
    decreases p.len(),
{
    if p.len() == 0 {
        Seq::empty()
    } else {
        let rest = unsent(p.drop_last(), sent);
        if sent.contains(p.last().location_id) {
            rest
        } else {
            rest.push(p.last().location_id)
        }
    }
}

/// The checks of `p` whose location `sent` does not hold, in order.
pub open spec fn without(p: Seq<OfflineCheck>, sent: Set<i64>) -> Seq<OfflineCheck>
    decreases p.len(),
{
    if p.len() == 0 {
        Seq::empty()
    } else {
        let rest = without(p.drop_last(), sent);
        if sent.contains(p.last().location_id) {
            rest
        } else {
            rest.push(p.last())
        }
    }
}

/// Whether a vector holds an id.
fn holds(v: &Vec<i64>, id: i64) -> (r: bool)
    ensures
        r == v@.contains(id),
{
    let mut i: usize = 0;
    while i < v.len()
        invariant
            i <= v.len(),
            forall|j: int| 0 <= j < i ==> v@[j] != id,
        decreases v.len() - i,
    {
        if v[i] == id {
            return true;
        }
        i = i + 1;
    }
    false
}

impl SyncLedger {
    /// A ledger with every slot at cursor 0 and nothing pending.
    pub fn new() -> (r: SyncLedger)
        ensures
            r@.sync_index == Seq::new(SAVE_SLOTS as nat, |i: int| 0u64),
            r@.offline_checks == Seq::<OfflineCheck>::empty(),
    {
        let mut v: Vec<u64> = Vec::new();
        let mut i: usize = 0;
        while i < SAVE_SLOTS
            invariant
                i <= SAVE_SLOTS,
                v@ == Seq::new(i as nat, |k: int| 0u64),
            decreases SAVE_SLOTS - i,
        {
            v.push(0);
            i = i + 1;
            assert(v@ =~= Seq::new(i as nat, |k: int| 0u64));
        }
        SyncLedger { sync_index: v, offline_checks: Vec::new() }
    }

    /// The cursor stored for a save slot; a slot the ledger does not know starts at 0.
    pub fn slot_index(&self, slot: usize) -> (r: u64)
        ensures
            r == if slot < self.sync_index.len() { self.sync_index@[slot as int] } else { 0 },
    {
        if slot < self.sync_index.len() {
            self.sync_index[slot]
        } else {
            0
        }
    }

    /// Stores the cursor of a save slot.
    pub fn set_slot_index(&mut self, slot: usize, index: u64)
        requires
            slot < old(self).sync_index.len(),
        ensures
            final(self)@.sync_index == old(self)@.sync_index.update(slot as int, index),
            final(self)@.offline_checks == old(self)@.offline_checks,
    {
        self.sync_index.set(slot, index);
    }

    /// Queues a check that could not be sent; a location already queued is not queued twice.
    pub fn add_offline_check(&mut self, check: OfflineCheck)
        ensures
            final(self)@.sync_index == old(self)@.sync_index,
            final(self)@.offline_checks == if has_location(old(self)@.offline_checks, check.location_id) {
                old(self)@.offline_checks
            } else {
                old(self)@.offline_checks.push(check)
            },
            checks_unique(old(self)@.offline_checks) ==> checks_unique(final(self)@.offline_checks),
    {
        let mut i: usize = 0;
        while i < self.offline_checks.len()
            invariant
                i <= self.offline_checks.len(),
                forall|j: int| 0 <= j < i ==> (#[trigger] self.offline_checks@[j]).location_id != check.location_id,
            decreases self.offline_checks.len() - i,
        {
            if self.offline_checks[i].location_id == check.location_id {
                return;
            }
            i = i + 1;
        }
        self.offline_checks.push(check);
    }

    /// The location ids to send on a retry pass: the queued checks that the
    /// server has not recorded yet, in queue order.
    pub fn checks_to_send(&self, server_checked: &Vec<i64>) -> (r: Vec<i64>)
        ensures
            r@ == unsent(self@.offline_checks, server_checked@.to_set()),
    {
        let mut out: Vec<i64> = Vec::new();
        let mut i: usize = 0;
        while i < self.offline_checks.len()
            invariant
                i <= self.offline_checks.len(),
                out@ == unsent(self.offline_checks@.take(i as int), server_checked@.to_set()),
            decreases self.offline_checks.len() - i,
        {
            assert(self.offline_checks@.take(i as int + 1).drop_last() =~= self.offline_checks@.take(i as int));
            let id = self.offline_checks[i].location_id;
            if !holds(server_checked, id) {
                out.push(id);
            }
            i = i + 1;
        }
        assert(self.offline_checks@.take(self.offline_checks.len() as int) =~= self.offline_checks@);
        out
    }

    /// Drops the queued checks whose location the server has confirmed.
    pub fn confirm_sent(&mut self, confirmed: &Vec<i64>)
        ensures
            final(self)@.sync_index == old(self)@.sync_index,
            final(self)@.offline_checks == without(old(self)@.offline_checks, confirmed@.to_set()),
            checks_unique(old(self)@.offline_checks) ==> checks_unique(final(self)@.offline_checks),
    {
        proof {
            lemma_without_unique(self.offline_checks@, confirmed@.to_set());
        }
        let mut kept: Vec<OfflineCheck> = Vec::new();
        let mut i: usize = 0;
        while i < self.offline_checks.len()
            invariant
                i <= self.offline_checks.len(),
                kept@ == without(self.offline_checks@.take(i as int), confirmed@.to_set()),
            decreases self.offline_checks.len() - i,
        {
            assert(self.offline_checks@.take(i as int + 1).drop_last() =~= self.offline_checks@.take(i as int));
            let c = self.offline_checks[i];
            if !holds(confirmed, c.location_id) {
                kept.push(c);
            }
            i = i + 1;
        }
        assert(self.offline_checks@.take(self.offline_checks.len() as int) =~= self.offline_checks@);
        self.offline_checks = kept;
    }
}

/// Whether no two queued checks are for the same location.
pub open spec fn checks_unique(p: Seq<OfflineCheck>) -> bool {
    forall|i: int, j: int| 0 <= i < p.len() && 0 <= j < p.len() && i != j ==> (#[trigger] p[i]).location_id != (#[trigger] p[j]).location_id
}

/// Every check that `without` keeps is a check of `p`.
pub proof fn lemma_without_from(p: Seq<OfflineCheck>, sent: Set<i64>)
    ensures
        forall|k: int| 0 <= k < without(p, sent).len() ==> exists|j: int| 0 <= j < p.len() && p[j] == #[trigger] without(p, sent)[k],
    decreases p.len(),
{
    if p.len() > 0 {
        let q = p.drop_last();
        lemma_without_from(q, sent);
        assert forall|k: int| 0 <= k < without(p, sent).len() implies exists|j: int| 0 <= j < p.len() && p[j] == #[trigger] without(p, sent)[k] by {
            if k < without(q, sent).len() {
                assert(without(p, sent)[k] == without(q, sent)[k]);
                let j = choose|j: int| 0 <= j < q.len() && q[j] == without(q, sent)[k];
                assert(p[j] == q[j]);
            } else {
                assert(p[p.len() - 1] == without(p, sent)[k]);
            }
        }
    }
}

/// Dropping checks keeps the queue free of repeated locations.
pub proof fn lemma_without_unique(p: Seq<OfflineCheck>, sent: Set<i64>)
    ensures
        checks_unique(p) ==> checks_unique(without(p, sent)),
    decreases p.len(),
{
    if p.len() > 0 && checks_unique(p) {
        let q = p.drop_last();
        assert(checks_unique(q)) by {
            assert forall|i: int, j: int| 0 <= i < q.len() && 0 <= j < q.len() && i != j implies (#[trigger] q[i]).location_id != (#[trigger] q[j]).location_id by {
                assert(q[i] == p[i] && q[j] == p[j]);
            }
        }
        lemma_without_unique(q, sent);
        lemma_without_from(q, sent);
        let w = without(q, sent);
        if !sent.contains(p.last().location_id) {
            let v = w.push(p.last());
            assert forall|i: int, j: int| 0 <= i < v.len() && 0 <= j < v.len() && i != j implies (#[trigger] v[i]).location_id != (#[trigger] v[j]).location_id by {
                if i < w.len() && j < w.len() {
                    assert(v[i] == w[i] && v[j] == w[j]);
                } else if i < w.len() {
                    let a = choose|a: int| 0 <= a < q.len() && q[a] == #[trigger] w[i];
                    assert(v[i] == w[i] && q[a] == p[a]);
                } else {
                    let a = choose|a: int| 0 <= a < q.len() && q[a] == #[trigger] w[j];
                    assert(v[j] == w[j] && q[a] == p[a]);
                }
            }
        }
    }
}

/// Dropping no queued location leaves the queue as it is.
pub proof fn lemma_without_identity(p: Seq<OfflineCheck>, sent: Set<i64>)
    requires
        forall|k: int| 0 <= k < p.len() ==> !sent.contains(#[trigger] p[k].location_id),
    ensures
        without(p, sent) == p,
    decreases p.len(),
{
    if p.len() > 0 {
        lemma_without_identity(p.drop_last(), sent);
        assert(p.drop_last().push(p.last()) =~= p);
    }
}

/// Once a queued check is confirmed sent, exactly that one entry leaves the
/// queue: no other is lost, and none is left to be sent again.
pub proof fn lemma_confirm_removes_one(p: Seq<OfflineCheck>, i: int)
    requires
        checks_unique(p),
        0 <= i < p.len(),
    ensures
        without(p, set![p[i].location_id]) == p.remove(i),
    decreases p.len(),
{
    let s = set![p[i].location_id];
    let q = p.drop_last();
    assert forall|a: int, b: int| 0 <= a < q.len() && 0 <= b < q.len() && a != b implies (#[trigger] q[a]).location_id != (#[trigger] q[b]).location_id by {
        assert(q[a] == p[a] && q[b] == p[b]);
    }
    if i == p.len() - 1 {
        assert forall|k: int| 0 <= k < q.len() implies !s.contains(#[trigger] q[k].location_id) by {
            assert(q[k] == p[k]);
        }
        lemma_without_identity(q, s);
        assert(p.remove(i) =~= q);
    } else {
        assert(q[i] == p[i]);
        lemma_confirm_removes_one(q, i);
        assert(p.remove(i) =~= q.remove(i).push(p.last()));
    }
}

/// Every id that `unsent` yields is the id of a check of `p` and is not in `sent`.
pub proof fn lemma_unsent_members(p: Seq<OfflineCheck>, sent: Set<i64>)
    ensures
        forall|k: int| 0 <= k < unsent(p, sent).len() ==> !sent.contains(#[trigger] unsent(p, sent)[k]) && has_location(p, unsent(p, sent)[k]),
    decreases p.len(),
{
    if p.len() > 0 {
        lemma_unsent_members(p.drop_last(), sent);
        assert forall|k: int| 0 <= k < unsent(p, sent).len() implies !sent.contains(#[trigger] unsent(p, sent)[k]) && has_location(p, unsent(p, sent)[k]) by {
            let rest = unsent(p.drop_last(), sent);
            if k < rest.len() {
                assert(unsent(p, sent)[k] == rest[k]);
                let j = choose|j: int| 0 <= j < p.drop_last().len() && (#[trigger] p.drop_last()[j]).location_id == rest[k];
                assert(p[j] == p.drop_last()[j]);
            } else {
                assert(p[p.len() - 1].location_id == unsent(p, sent)[k]);
            }
        }
    }
}

/// Every check that `without` keeps is a check of `p` whose location is not in `sent`.
pub proof fn lemma_without_members(p: Seq<OfflineCheck>, sent: Set<i64>)
    ensures
        forall|k: int| 0 <= k < without(p, sent).len() ==> !sent.contains((#[trigger] without(p, sent)[k]).location_id),
    decreases p.len(),
{
    if p.len() > 0 {
        lemma_without_members(p.drop_last(), sent);
        assert forall|k: int| 0 <= k < without(p, sent).len() implies !sent.contains((#[trigger] without(p, sent)[k]).location_id) by {
            let rest = without(p.drop_last(), sent);
            if k < rest.len() {
                assert(without(p, sent)[k] == rest[k]);
            }
        }
    }
}

/// A retry pass never sends a location the server already recorded, and once
/// the sent checks are confirmed no later pass sends them again.
pub proof fn lemma_retry_at_most_once(p: Seq<OfflineCheck>, server: Set<i64>, later_server: Set<i64>)
    ensures
        forall|k: int| 0 <= k < unsent(p, server).len() ==> !server.contains(#[trigger] unsent(p, server)[k]),
        forall|k: int, m: int| 0 <= k < unsent(without(p, unsent(p, server).to_set()), later_server).len()
            && 0 <= m < unsent(p, server).len()
            ==> #[trigger] unsent(without(p, unsent(p, server).to_set()), later_server)[k] != #[trigger] unsent(p, server)[m],
{
    lemma_unsent_members(p, server);
    let sent = unsent(p, server);
    let rest = without(p, sent.to_set());
    lemma_unsent_members(rest, later_server);
    lemma_without_members(p, sent.to_set());
    assert forall|k: int, m: int| 0 <= k < unsent(rest, later_server).len() && 0 <= m < sent.len()
        implies #[trigger] unsent(rest, later_server)[k] != #[trigger] sent[m] by {
        let id = unsent(rest, later_server)[k];
        assert(has_location(rest, id));
        let j = choose|j: int| 0 <= j < rest.len() && (#[trigger] rest[j]).location_id == id;
        assert(!sent.to_set().contains(rest[j].location_id));
        assert(sent.to_set().contains(sent[m]));
    }
}

} // verus!
