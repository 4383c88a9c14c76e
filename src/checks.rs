//! Handling of a location check: from a resolved pickup to what is sent,
//! what is unlocked at once, and whether the goal is now reached.
use crate::datapackage::{get_location_id, get_location_name, location_id_in, location_name_in, DataPackage};
use crate::goal::{goal_reached, has_reached_goal, order_of};
use crate::inventory::{inventory_wf, with_item};
use crate::datapackage::{get_item_name, item_name_in};
use crate::items::{is_known_item, is_table_name, item_data_by_name, item_data_spec, same_name, ItemData, REMOTE_ID};
use crate::location::{get_location_name_by_data, resolve_spec, ItemEntry, Location, LocationError};
use crate::mapping::{placed_at, placement_in, LocationData, Mapping};
use crate::names::NameSet;
use crate::sync::ItemSync;
use vstd::prelude::*;

verus! {

/// Highest in-game id that is not an item the player keeps.
pub const LAST_NON_ITEM_ID: u32 = 0x14;

/// Why a pickup could not become a location check.
#[derive(PartialEq, Eq, Structural, Clone, Copy, Debug)]
pub enum CheckError {
    /// The pickup matches no placement.
    Location(LocationError),
    /// The slot data places nothing at the resolved location.
    NoPlacement,
    /// The data package has no id for the resolved location.
    UnknownLocationId,
}

/// What to do for one location check.
#[derive(Clone, Debug)]
pub struct CheckPlan {
    /// The resolved location key.
    pub key: String,
    /// The id to send to the server.
    pub location_id: i64,
    /// An item of this world found there, to unlock at once.
    pub unlocked_item: Option<String>,
}

/// Looks up what the slot placed at a location.
pub fn placement_for(mapping: &Mapping, key: &str) -> (r: Option<LocationData>)
    ensures
        r == placement_in(mapping.items@, key@),
{
    placed_at(&mapping.items, key)
}

/// Whether a placed item is one of this world's items that the player keeps.
pub open spec fn unlocks_at_once(d: LocationData) -> bool {
    d.in_game_id > LAST_NON_ITEM_ID && d.in_game_id != REMOTE_ID && is_table_name(d.item_name@)
}

/// Turns a pickup into a location check: the location key, its id, and the
/// item to unlock at once when the location holds one of this world's items.
pub fn plan_check(loc: &Location, table: &Vec<(String, ItemEntry)>, dp: &DataPackage, mapping: &Mapping) -> (r: Result<CheckPlan, CheckError>)
    ensures
        match resolve_spec(table@, *loc, dp.item_id_to_name@, mapping.items@) {
            None => r == Err::<CheckPlan, CheckError>(CheckError::Location(LocationError::NotFound)),
            Some(key) => match placement_in(mapping.items@, key) {
                None => r == Err::<CheckPlan, CheckError>(CheckError::NoPlacement),
                Some(d) => match location_id_in(dp.location_name_to_id@, key) {
                    None => r == Err::<CheckPlan, CheckError>(CheckError::UnknownLocationId),
                    Some(id) => r matches Ok(p) && p.key@ == key && p.location_id == id
                        && (if unlocks_at_once(d) {
                            p.unlocked_item matches Some(n) && n@ == d.item_name@
                        } else {
                            p.unlocked_item is None
                        }),
                },
            },
        },
{
    let key = match get_location_name_by_data(loc, table, dp, &mapping.items) {
        Ok(k) => k,
        Err(e) => return Err(CheckError::Location(e)),
    };
    let placed = match placement_for(mapping, key.as_str()) {
        Some(d) => d,
        None => return Err(CheckError::NoPlacement),
    };
    let location_id = match get_location_id(dp, key.as_str()) {
        Some(id) => id,
        None => return Err(CheckError::UnknownLocationId),
    };
    let unlocked_item = if placed.in_game_id > LAST_NON_ITEM_ID && placed.in_game_id != REMOTE_ID
        && is_known_item(placed.item_name.as_str()) {
        Some(placed.item_name.clone())
    } else {
        None
    };
    Ok(CheckPlan { key, location_id, unlocked_item })
}

/// The checked locations of a connection and whether the goal was reported.
#[derive(Debug)]
pub struct CheckTracker {
    pub checked: NameSet,
    pub goal_sent: bool,
}

impl CheckTracker {
    /// No location checked, goal not reported.
    pub fn new() -> (r: CheckTracker)
        ensures
            r.checked@ == Set::<Seq<char>>::empty(),
            !r.goal_sent,
    {
        CheckTracker { checked: NameSet::new(), goal_sent: false }
    }

    /// Records a checked location. Returns whether the goal status is to be
    /// sent now: the first time the checked locations satisfy the goal.
    pub fn on_location_checked(&mut self, key: &str, mapping: &Mapping) -> (r: bool)
        ensures
            final(self).checked@ == old(self).checked@.insert(key@),
            r == (!old(self).goal_sent && goal_reached(mapping.goal, order_of(mapping), final(self).checked@)),
            final(self).goal_sent == (old(self).goal_sent || r),
    {
        self.checked.insert(key);
        if self.goal_sent {
            return false;
        }
        let reached = has_reached_goal(mapping, &self.checked);
        if reached {
            self.goal_sent = true;
        }
        reached
    }
}

/// Completes a check: unlocks the found item at once, records the location
/// and tells whether the goal status is to be sent.
pub fn record_check(sync: &mut ItemSync, tracker: &mut CheckTracker, plan: &CheckPlan, mapping: &Mapping) -> (r: bool)
    requires
        inventory_wf(old(sync)@.data),
    ensures
        final(sync)@.index == old(sync)@.index,
        final(sync)@.data == match plan.unlocked_item {
            Some(n) => with_item(old(sync)@.data, n@),
            None => old(sync)@.data,
        },
        inventory_wf(final(sync)@.data),
        final(tracker).checked@ == old(tracker).checked@.insert(plan.key@),
        r == (!old(tracker).goal_sent && goal_reached(mapping.goal, order_of(mapping), final(tracker).checked@)),
        final(tracker).goal_sent == (old(tracker).goal_sent || r),
{
    match &plan.unlocked_item {
        Some(n) => sync.data.add_item(n.as_str()),
        None => {},
    }
    tracker.on_location_checked(plan.key.as_str(), mapping)
}

/// Names of the locations with the given ids, where the table names them.
pub open spec fn named_locations(table: Seq<(String, i64)>, ids: Seq<i64>) -> Set<Seq<char>> {
    Set::new(|n: Seq<char>| exists|i: int| 0 <= i < ids.len() && location_name_in(table, #[trigger] ids[i]) == Some(n))
}

/// Adds the locations the server reports as checked to the checked set.
pub fn update_checked_locations(tracker: &mut CheckTracker, dp: &DataPackage, server_checked: &Vec<i64>)
    ensures
        final(tracker).checked@ == old(tracker).checked@.union(named_locations(dp.location_name_to_id@, server_checked@)),
        final(tracker).goal_sent == old(tracker).goal_sent,
{
    let ghost table = dp.location_name_to_id@;
    let mut i: usize = 0;
    assert(old(tracker).checked@.union(named_locations(table, server_checked@.take(0))) =~= old(tracker).checked@);
    while i < server_checked.len()
        invariant
            i <= server_checked.len(),
            table == dp.location_name_to_id@,
            tracker.checked@ == old(tracker).checked@.union(named_locations(table, server_checked@.take(i as int))),
            tracker.goal_sent == old(tracker).goal_sent,
        decreases server_checked.len() - i,
    {
        let ghost before = tracker.checked@;
        let ghost prev = server_checked@.take(i as int);
        let ghost next = server_checked@.take(i as int + 1);
        assert forall|k: int| 0 <= k < prev.len() implies #[trigger] next[k] == prev[k] by {}
        assert(next[i as int] == server_checked@[i as int]);
        match get_location_name(dp, server_checked[i]) {
            Some(n) => {
                tracker.checked.insert(n.as_str());
                assert(named_locations(table, next) =~= named_locations(table, prev).insert(n@)) by {
                    assert forall|m: Seq<char>| named_locations(table, next).contains(m) implies named_locations(table, prev).insert(n@).contains(m) by {
                        let k = choose|k: int| 0 <= k < next.len() && location_name_in(table, #[trigger] next[k]) == Some(m);
                        if k < prev.len() {
                            assert(location_name_in(table, prev[k]) == Some(m));
                        }
                    }
                    assert forall|m: Seq<char>| named_locations(table, prev).insert(n@).contains(m) implies named_locations(table, next).contains(m) by {
                        if m != n@ {
                            let k = choose|k: int| 0 <= k < prev.len() && location_name_in(table, #[trigger] prev[k]) == Some(m);
                            assert(location_name_in(table, next[k]) == Some(m));
                        } else {
                            assert(location_name_in(table, next[i as int]) == Some(m));
                        }
                    }
                }
                assert(tracker.checked@ =~= old(tracker).checked@.union(named_locations(table, next)));
            },
            None => {
                assert(named_locations(table, next) =~= named_locations(table, prev)) by {
                    assert forall|m: Seq<char>| named_locations(table, next).contains(m) implies named_locations(table, prev).contains(m) by {
                        let k = choose|k: int| 0 <= k < next.len() && location_name_in(table, #[trigger] next[k]) == Some(m);
                        if k < prev.len() {
                            assert(location_name_in(table, prev[k]) == Some(m));
                        }
                    }
                    assert forall|m: Seq<char>| named_locations(table, prev).contains(m) implies named_locations(table, next).contains(m) by {
                        let k = choose|k: int| 0 <= k < prev.len() && location_name_in(table, #[trigger] prev[k]) == Some(m);
                        assert(location_name_in(table, next[k]) == Some(m));
                    }
                }
            },
        }
        i = i + 1;
    }
    assert(server_checked@.take(server_checked.len() as int) =~= server_checked@);
}

/// The inventory slot the game hands out instead of the vanilla item of a
/// pickup: the item the slot data placed at the resolved location.
pub open spec fn replacement_spec(t: Seq<(String, ItemEntry)>, loc: Location, names: Map<i64, String>, items: Seq<(String, LocationData)>) -> Option<ItemData> {
    match resolve_spec(t, loc, names, items) {
        Some(key) => match placement_in(items, key) {
            Some(d) => match item_name_in(names, d.in_game_id as i64) {
                Some(n) => item_data_spec(n),
                None => None,
            },
            None => None,
        },
        None => None,
    }
}

/// Decides what a pickup turns into in the game, where the slot data says.
pub fn pickup_replacement(loc: &Location, table: &Vec<(String, ItemEntry)>, dp: &DataPackage, mapping: &Mapping) -> (r: Option<ItemData>)
    ensures
        r == replacement_spec(table@, *loc, dp.item_id_to_name@, mapping.items@),
{
    let key = match get_location_name_by_data(loc, table, dp, &mapping.items) {
        Ok(k) => k,
        Err(_) => return None,
    };
    let placed = match placement_for(mapping, key.as_str()) {
        Some(d) => d,
        None => return None,
    };
    match get_item_name(dp, placed.in_game_id as i64) {
        Some(n) => item_data_by_name(n.as_str()),
        None => None,
    }
}

} // verus!
