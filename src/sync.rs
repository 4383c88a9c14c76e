//! The reconciliation engine: applies the server's indexed item stream to
//! the inventory exactly once, and restores the state of a save slot.
use crate::datapackage::{get_item_name, item_name_in, DataPackage};
use crate::inventory::{
    blue_orb_added, empty_inventory, inventory_wf, purple_orb_added, with_item, ArchipelagoData,
    InventoryView,
};
use crate::items::{is_known_item, is_table_name};
use crate::ledger::SyncLedger;
use crate::mapping::SlotOptions;
use crate::skills::{add_skill, skill_granted, FIRST_SKILL_ID, LAST_SKILL_ID};
use vstd::prelude::*;

verus! {

/// Item id of a blue orb.
pub const BLUE_ORB_ID: i64 = 5;
/// Item id of a purple orb.
pub const PURPLE_ORB_ID: i64 = 6;

/// Why a batch of the item stream was not applied.
#[derive(PartialEq, Eq, Structural, Clone, Copy, Debug)]
pub enum SyncError {
    /// The batch starts past the next index to apply: items in between are missing.
    Gap { expected: u64, received: u64 },
}

/// `v` after one received item with id `id`, whose data-package name is `name`.
pub open spec fn item_effect(v: InventoryView, id: i64, name: Option<Seq<char>>, opts: Option<SlotOptions>) -> InventoryView {
    let v1 = if id == BLUE_ORB_ID {
        blue_orb_added(v)
    } else if id == PURPLE_ORB_ID {
        purple_orb_added(v, opts)
    } else {
        v
    };
    let v2 = if FIRST_SKILL_ID <= id <= LAST_SKILL_ID && (opts matches Some(o) && o.randomize_skills) {
        skill_granted(v1, id as int)
    } else {
        v1
    };
    match name {
        Some(n) => if is_table_name(n) {
            with_item(v2, n)
        } else {
            v2
        },
        None => v2,
    }
}

/// `v` after the received items `ids`, in order.
pub open spec fn items_applied(v: InventoryView, ids: Seq<i64>, names: Map<i64, String>, opts: Option<SlotOptions>) -> InventoryView
    decreases ids.len(),
{
    if ids.len() == 0 {
        v
    } else {
        item_effect(items_applied(v, ids.drop_last(), names, opts), ids.last(), item_name_in(names, ids.last()), opts)
    }
}

/// Applies the effect of one received item to the inventory.
pub fn apply_item(data: &mut ArchipelagoData, id: i64, dp: &DataPackage, opts: Option<SlotOptions>)
    requires
        inventory_wf(old(data)@),
    ensures
        final(data)@ == item_effect(old(data)@, id, item_name_in(dp.item_id_to_name@, id), opts),
        inventory_wf(final(data)@),
{
    if id == BLUE_ORB_ID {
        data.add_blue_orb();
    } else if id == PURPLE_ORB_ID {
        data.add_purple_orb(opts);
    }
    if FIRST_SKILL_ID as i64 <= id && id <= LAST_SKILL_ID as i64 {
        if let Some(o) = opts {
            if o.randomize_skills {
                add_skill(id as usize, data);
            }
        }
    }
    match get_item_name(dp, id) {
        Some(n) => {
            if is_known_item(n.as_str()) {
                data.add_item(n.as_str());
            }
        },
        None => {},
    }
}

/// The engine state as a mathematical value.
pub struct SyncView {
    pub data: InventoryView,
    /// Number of stream items applied: the next index to apply.
    pub index: int,
}

/// The larger of two integers.
pub open spec fn max_int(a: int, b: int) -> int {
    if a < b {
        b
    } else {
        a
    }
}

/// The state after the batch of items `ids` whose first index is `start`, or
/// `None` where the batch leaves a gap. A batch that starts at index 0 is the
/// server resending the whole stream: it replaces the inventory.
pub open spec fn batch_result(s: SyncView, start: int, ids: Seq<i64>, names: Map<i64, String>, opts: Option<SlotOptions>) -> Option<SyncView> {
    if start > s.index {
        None
    } else {
        let base = if start == 0 { SyncView { data: empty_inventory(), index: 0 } } else { s };
        let skip = vstd::math::min(ids.len() as int, base.index - start);
        Some(SyncView {
            data: items_applied(base.data, ids.subrange(skip, ids.len() as int), names, opts),
            index: max_int(base.index, start + ids.len()),
        })
    }
}

/// Position in a batch from which its items are new.
pub open spec fn applied_from(s: SyncView, start: int, len: int) -> int {
    if start == 0 {
        0
    } else {
        vstd::math::min(len, s.index - start)
    }
}

/// Replaying a batch that was applied changes nothing: applying the same
/// batch twice leaves the same inventory and cursor as applying it once.
pub proof fn lemma_batch_idempotent(s: SyncView, start: int, ids: Seq<i64>, names: Map<i64, String>, opts: Option<SlotOptions>)
    requires
        0 <= start,
        0 <= s.index,
    ensures
        batch_result(s, start, ids, names, opts) matches Some(s1) ==> batch_result(s1, start, ids, names, opts) == Some(s1),
{
    if let Some(s1) = batch_result(s, start, ids, names, opts) {
        if start != 0 {
            assert(ids.subrange(ids.len() as int, ids.len() as int) =~= Seq::<i64>::empty());
            assert(items_applied(s1.data, Seq::<i64>::empty(), names, opts) == s1.data);
        }
    }
}

/// The cursor counts the applied items: it never moves back, except where a
/// full resend holds fewer items than were applied before, and afterwards it
/// is one past the highest index applied. A gap is never bridged.
pub proof fn lemma_cursor_monotonic(s: SyncView, start: int, ids: Seq<i64>, names: Map<i64, String>, opts: Option<SlotOptions>)
    requires
        0 <= start,
        0 <= s.index,
        start > 0 || ids.len() >= s.index,
    ensures
        start > s.index ==> batch_result(s, start, ids, names, opts) is None,
        start <= s.index ==> (batch_result(s, start, ids, names, opts) matches Some(s1) && s1.index >= s.index
            && (applied_from(s, start, ids.len() as int) < ids.len() ==> s1.index == (start + ids.len() - 1) + 1)
            && (applied_from(s, start, ids.len() as int) >= ids.len() ==> s1.index == s.index)),
{
}

/// A full resend rebuilds the inventory from the resent items alone; what
/// was applied before does not carry over.
pub proof fn lemma_restart_replaces(s: SyncView, ids: Seq<i64>, names: Map<i64, String>, opts: Option<SlotOptions>)
    requires
        0 <= s.index,
    ensures
        batch_result(s, 0, ids, names, opts) == Some(SyncView {
            data: items_applied(empty_inventory(), ids, names, opts),
            index: ids.len() as int,
        }),
{
    assert(ids.subrange(0, ids.len() as int) =~= ids);
}

/// The state after a sequence of batches, each a first index and its ids,
/// or `None` where one of them leaves a gap.
pub open spec fn batches_result(s: SyncView, bs: Seq<(int, Seq<i64>)>, names: Map<i64, String>, opts: Option<SlotOptions>) -> Option<SyncView>
    decreases bs.len(),
{
    if bs.len() == 0 {
        Some(s)
    } else {
        match batches_result(s, bs.drop_last(), names, opts) {
            Some(s1) => batch_result(s1, bs.last().0, bs.last().1, names, opts),
            None => None,
        }
    }
}

/// One past the highest index that a sequence of batches holds, or `index`
/// where that is larger.
pub open spec fn highest_end(index: int, bs: Seq<(int, Seq<i64>)>) -> int
    decreases bs.len(),
{
    if bs.len() == 0 {
        index
    } else {
        max_int(highest_end(index, bs.drop_last()), bs.last().0 + bs.last().1.len())
    }
}

/// Over any sequence of batches that are not full resends, the cursor never
/// moves back and ends one past the highest index applied (or where it was,
/// when nothing new arrived).
pub proof fn lemma_cursor_over_batches(s: SyncView, bs: Seq<(int, Seq<i64>)>, names: Map<i64, String>, opts: Option<SlotOptions>)
    requires
        0 <= s.index,
        forall|k: int| 0 <= k < bs.len() ==> (#[trigger] bs[k]).0 > 0,
    ensures
        batches_result(s, bs, names, opts) matches Some(f) ==> f.index >= s.index && f.index == highest_end(s.index, bs),
    decreases bs.len(),
{
    if bs.len() > 0 {
        let q = bs.drop_last();
        assert forall|k: int| 0 <= k < q.len() implies (#[trigger] q[k]).0 > 0 by {
            assert(q[k] == bs[k]);
        }
        lemma_cursor_over_batches(s, q, names, opts);
        assert(bs[bs.len() - 1].0 > 0);
    }
}

/// The item-stream cursor and the inventory derived from the stream.
#[derive(Debug)]
pub struct ItemSync {
    pub data: ArchipelagoData,
    /// Number of stream items applied: the next index to apply.
    pub received_index: u64,
}

impl View for ItemSync {
    type V = SyncView;

    open spec fn view(&self) -> SyncView {
        SyncView { data: self.data@, index: self.received_index as int }
    }
}

impl ItemSync {
    /// The state before any item was received.
    pub fn new() -> (r: ItemSync)
        ensures
            r@ == (SyncView { data: empty_inventory(), index: 0 }),
    {
        ItemSync { data: ArchipelagoData::new(), received_index: 0 }
    }

    /// Resumes at a stored cursor with an empty inventory.
    pub fn resume(index: u64) -> (r: ItemSync)
        ensures
            r@ == (SyncView { data: empty_inventory(), index: index as int }),
    {
        ItemSync { data: ArchipelagoData::new(), received_index: index }
    }

    /// Applies a batch of the item stream whose first item has index `start`.
    /// Items below the cursor were applied before and are skipped; a batch that
    /// starts at 0 rebuilds the inventory from scratch; a batch that starts past
    /// the cursor is refused and changes nothing.
    /// Returns the ids of the items that were applied, in order.
    pub fn on_received_items(&mut self, start: u64, items: &Vec<i64>, dp: &DataPackage, opts: Option<SlotOptions>) -> (r: Result<Vec<i64>, SyncError>)
        requires
            inventory_wf(old(self)@.data),
            start + items.len() <= u64::MAX,
        ensures
            inventory_wf(final(self)@.data),
            batch_result(old(self)@, start as int, items@, dp.item_id_to_name@, opts) matches Some(s) ==> (r matches Ok(applied) && final(self)@ == s
                && applied@ == items@.subrange(applied_from(old(self)@, start as int, items@.len() as int), items@.len() as int)),
            batch_result(old(self)@, start as int, items@, dp.item_id_to_name@, opts) is None ==> (r matches Err(e) && e == (SyncError::Gap { expected: old(self).received_index, received: start }) && final(self)@ == old(self)@),
    {
        if start > self.received_index {
            return Err(SyncError::Gap { expected: self.received_index, received: start });
        }
        let ghost before = self@;
        if start == 0 {
            self.data = ArchipelagoData::new();
            self.received_index = 0;
        }
        let ghost base = self@;
        let ghost names = dp.item_id_to_name@;
        let ghost skip = vstd::math::min(items.len() as int, base.index - start);
        assert(skip == applied_from(before, start as int, items.len() as int));
        let mut applied: Vec<i64> = Vec::new();
        let mut k: usize = 0;
        while k < items.len()
            invariant
                k <= items.len(),
                applied@ == items@.subrange(vstd::math::min(k as int, skip), k as int),
                start <= base.index,
                start + items.len() <= u64::MAX,
                names == dp.item_id_to_name@,
                skip == vstd::math::min(items.len() as int, base.index - start),
                inventory_wf(base.data),
                self@.index == max_int(base.index, start + k),
                self@.data == items_applied(base.data, items@.subrange(vstd::math::min(k as int, skip), k as int), names, opts),
                inventory_wf(self@.data),
            decreases items.len() - k,
        {
            let idx = start + k as u64;
            let ghost before = self@.data;
            let ghost lo = vstd::math::min(k as int, skip);
            if idx >= self.received_index {
                assert(vstd::math::min(k as int + 1, skip) == lo);
                assert(items@.subrange(lo, k as int + 1).drop_last() =~= items@.subrange(lo, k as int));
                apply_item(&mut self.data, items[k], dp, opts);
                applied.push(items[k]);
                self.received_index = idx + 1;
            } else {
                assert(vstd::math::min(k as int + 1, skip) == k + 1);
                assert(items@.subrange(k as int + 1, k as int + 1) =~= items@.subrange(lo, k as int));
            }
            k = k + 1;
        }
        Ok(applied)
    }
}

/// Restores the state of a save slot: its stored cursor, capped by what the
/// server has delivered, with the delivered items up to that cursor replayed
/// into an empty inventory.
pub fn load_slot(ledger: &SyncLedger, slot: usize, delivered: &Vec<i64>, dp: &DataPackage, opts: Option<SlotOptions>) -> (r: ItemSync)
    ensures
        ({
            let stored = if slot < ledger.sync_index.len() { ledger.sync_index@[slot as int] as int } else { 0 };
            let n = vstd::math::min(stored, delivered@.len() as int);
            r@ == SyncView { data: items_applied(empty_inventory(), delivered@.take(n), dp.item_id_to_name@, opts), index: n }
        }),
        inventory_wf(r@.data),
{
    let stored = ledger.slot_index(slot);
    let n: usize = if stored < delivered.len() as u64 { stored as usize } else { delivered.len() };
    let mut prefix: Vec<i64> = Vec::new();
    let mut i: usize = 0;
    while i < n
        invariant
            n <= delivered.len(),
            i <= n,
            prefix@ == delivered@.take(i as int),
        decreases n - i,
    {
        prefix.push(delivered[i]);
        i = i + 1;
        assert(prefix@ =~= delivered@.take(i as int));
    }
    let mut sync = ItemSync::new();
    let _ = sync.on_received_items(0, &prefix, dp, opts);
    proof {
        assert(prefix@.subrange(0, prefix@.len() as int) =~= prefix@);
    }
    sync
}

} // verus!
