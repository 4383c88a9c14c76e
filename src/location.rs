//! Resolution of an in-game pickup to the logical location it stands for.
use crate::datapackage::{get_item_name, item_name_in, DataPackage};
use crate::goal::{mission_complete_key, mission_key};
use crate::items::{item_data_by_name, item_data_spec, same_name, REMOTE_ID};
use crate::mapping::{placed_at, placement_in, LocationData};
use vstd::prelude::*;

verus! {

/// Room number that marks a mission-complete event.
pub const MISSION_COMPLETE_ROOM: i32 = -1;

/// A position in a room. An `x` of zero means the position is not known.
#[derive(PartialEq, Eq, Structural, Clone, Copy, Debug)]
pub struct Coordinates {
    pub x: u32,
    pub y: u32,
    pub z: u32,
}

impl Coordinates {
    /// The coordinates of a placement that has none.
    pub fn empty() -> (r: Coordinates)
        ensures
            r == (Coordinates { x: 0, y: 0, z: 0 }),
    {
        Coordinates { x: 0, y: 0, z: 0 }
    }

    /// Whether a position is known.
    pub fn has_coords(&self) -> (r: bool)
        ensures
            r == (self.x > 0),
    {
        self.x > 0
    }
}

/// A placement of the static table: an item lying in a room.
#[derive(Clone, Copy, Debug)]
pub struct ItemEntry {
    /// Offset in the game's item table.
    pub offset: usize,
    pub room_number: i32,
    pub track_number: i32,
    /// Id of the vanilla item in the data package.
    pub item_id: u32,
    pub mission: u32,
    pub coordinates: Coordinates,
}

/// A pickup or mission-complete event as the game reports it.
#[derive(Clone, Copy, Debug)]
pub struct Location {
    pub item_id: u8,
    /// Room of the pickup, or -1 for a mission-complete event.
    pub room: i32,
    pub track: i32,
    pub mission: u32,
    pub coordinates: Coordinates,
    pub item_category: u8,
}

impl Location {
    /// The event of completing a mission.
    pub fn mission_complete(mission: u32) -> (r: Location)
        ensures
            r.room == MISSION_COMPLETE_ROOM,
            r.track == MISSION_COMPLETE_ROOM,
            r.mission == mission,
            r.item_id == u8::MAX,
            r.item_category == 0,
            r.coordinates == (Coordinates { x: 0, y: 0, z: 0 }),
    {
        Location {
            item_id: u8::MAX,
            room: MISSION_COMPLETE_ROOM,
            track: MISSION_COMPLETE_ROOM,
            mission,
            coordinates: Coordinates::empty(),
            item_category: 0,
        }
    }
}

/// Two events are the same pickup when position, room, track and item agree;
/// the mission is not compared.
impl PartialEq for Location {
    fn eq(&self, other: &Location) -> (r: bool)
        ensures
            r == (self.coordinates == other.coordinates && self.room == other.room && self.track == other.track
                && self.item_id == other.item_id && self.item_category == other.item_category),
    {
        self.coordinates == other.coordinates && self.room == other.room && self.track == other.track
            && self.item_id == other.item_id && self.item_category == other.item_category
    }
}

impl vstd::std_specs::cmp::PartialEqSpecImpl for Location {
    open spec fn obeys_eq_spec() -> bool {
        true
    }

    open spec fn eq_spec(&self, other: &Location) -> bool {
        self.coordinates == other.coordinates && self.room == other.room && self.track == other.track
            && self.item_id == other.item_id && self.item_category == other.item_category
    }
}

/// Why an event could not be resolved.
#[derive(PartialEq, Eq, Structural, Clone, Copy, Debug)]
pub enum LocationError {
    /// No placement of the table matches the event.
    NotFound,
}

/// Whether the vanilla item of a placement is the item the event reports.
pub open spec fn default_item_matches(e: ItemEntry, loc: Location, names: Map<i64, String>) -> bool {
    match item_name_in(names, e.item_id as i64) {
        Some(n) => match item_data_spec(n) {
            Some(d) => d.id == loc.item_id && d.category == loc.item_category,
            None => false,
        },
        None => false,
    }
}

/// Whether the slot placed the remote placeholder at a location: an item
/// whose vanilla identity cannot be known statically.
pub open spec fn placed_remote(placed: Seq<(String, LocationData)>, key: Seq<char>) -> bool {
    placement_in(placed, key) matches Some(d) && d.in_game_id == REMOTE_ID
}

/// Whether a placement can stand for the event: same room, the event's item
/// as vanilla item or the remote placeholder as placed item, and
/// either the same known coordinates (`exact`) or no coordinates at all.
pub open spec fn candidate(entry: (String, ItemEntry), loc: Location, names: Map<i64, String>, placed: Seq<(String, LocationData)>, exact: bool) -> bool {
    let e = entry.1;
    &&& e.room_number == loc.room
    &&& (default_item_matches(e, loc, names) || placed_remote(placed, entry.0@))
    &&& if exact {
        e.coordinates.x > 0 && e.coordinates == loc.coordinates
    } else {
        e.coordinates.x == 0
    }
}

/// Index of the first placement of `t` that is a candidate.
pub open spec fn first_match(t: Seq<(String, ItemEntry)>, loc: Location, names: Map<i64, String>, placed: Seq<(String, LocationData)>, exact: bool) -> Option<int>
    decreases t.len(),
{
    if t.len() == 0 {
        None
    } else {
        match first_match(t.drop_last(), loc, names, placed, exact) {
            Some(i) => Some(i),
            None => if candidate(t.last(), loc, names, placed, exact) {
                Some(t.len() - 1)
            } else {
                None
            },
        }
    }
}

/// Whether the table holds a placement with the given key.
pub open spec fn has_key(t: Seq<(String, ItemEntry)>, key: Seq<char>) -> bool {
    exists|i: int| 0 <= i < t.len() && (#[trigger] t[i]).0@ == key
}

/// The location key an event resolves to. A mission-complete event resolves
/// to its mission's key; a pickup to the first candidate placement with
/// matching coordinates, else to the first candidate without coordinates.
/// A placement is a candidate where its vanilla item is the event's item or
/// where the slot placed the remote placeholder there.
pub open spec fn resolve_spec(t: Seq<(String, ItemEntry)>, loc: Location, names: Map<i64, String>, placed: Seq<(String, LocationData)>) -> Option<Seq<char>> {
    if loc.room == MISSION_COMPLETE_ROOM {
        if has_key(t, mission_key(loc.mission as nat)) {
            Some(mission_key(loc.mission as nat))
        } else {
            None
        }
    } else {
        match first_match(t, loc, names, placed, true) {
            Some(i) => Some(t[i].0@),
            None => match first_match(t, loc, names, placed, false) {
                Some(i) => Some(t[i].0@),
                None => None,
            },
        }
    }
}

/// A candidate found by `first_match` lies in the table and is a candidate.
pub proof fn lemma_first_match_in_range(t: Seq<(String, ItemEntry)>, loc: Location, names: Map<i64, String>, placed: Seq<(String, LocationData)>, exact: bool)
    ensures
        first_match(t, loc, names, placed, exact) matches Some(i) ==> 0 <= i < t.len() && candidate(t[i], loc, names, placed, exact),
        first_match(t, loc, names, placed, exact) is None <==> forall|j: int| 0 <= j < t.len() ==> !candidate(#[trigger] t[j], loc, names, placed, exact),
    decreases t.len(),
{
    if t.len() > 0 {
        lemma_first_match_in_range(t.drop_last(), loc, names, placed, exact);
        if first_match(t, loc, names, placed, exact) is None {
            assert forall|j: int| 0 <= j < t.len() implies !candidate(#[trigger] t[j], loc, names, placed, exact) by {
                if j < t.len() - 1 {
                    assert(t.drop_last()[j] == t[j]);
                }
            }
        }
        if forall|j: int| 0 <= j < t.len() ==> !candidate(#[trigger] t[j], loc, names, placed, exact) {
            assert forall|j: int| 0 <= j < t.drop_last().len() implies !candidate(#[trigger] t.drop_last()[j], loc, names, placed, exact) by {
                assert(t.drop_last()[j] == t[j]);
            }
            assert(!candidate(t[t.len() - 1], loc, names, placed, exact));
        }
    }
}

/// Whether the vanilla item of a placement is the item the event reports.
fn default_item_is(e: &ItemEntry, loc: &Location, dp: &DataPackage) -> (r: bool)
    ensures
        r == default_item_matches(*e, *loc, dp.item_id_to_name@),
{
    match get_item_name(dp, e.item_id as i64) {
        Some(name) => match item_data_by_name(name.as_str()) {
            Some(d) => d.id == loc.item_id && d.category == loc.item_category,
            None => false,
        },
        None => false,
    }
}

/// Whether the slot placed the remote placeholder at a location.
fn is_placed_remote(placed: &Vec<(String, LocationData)>, key: &str) -> (r: bool)
    ensures
        r == placed_remote(placed@, key@),
{
    match placed_at(placed, key) {
        Some(d) => d.in_game_id == REMOTE_ID,
        None => false,
    }
}

/// Finds the first candidate placement.
fn find_candidate(table: &Vec<(String, ItemEntry)>, loc: &Location, dp: &DataPackage, placed: &Vec<(String, LocationData)>, exact: bool) -> (r: Option<usize>)
    ensures
        r matches Some(i) ==> i < table.len() && first_match(table@, *loc, dp.item_id_to_name@, placed@, exact) == Some(i as int),
        r is None ==> first_match(table@, *loc, dp.item_id_to_name@, placed@, exact) is None,
{
    let mut i: usize = 0;
    while i < table.len()
        invariant
            i <= table.len(),
            first_match(table@.take(i as int), *loc, dp.item_id_to_name@, placed@, exact) is None,
        decreases table.len() - i,
    {
        assert(table@.take(i as int + 1).drop_last() =~= table@.take(i as int));
        let e = &table[i].1;
        let item_fits = default_item_is(e, loc, dp) || is_placed_remote(placed, table[i].0.as_str());
        let is_candidate = e.room_number == loc.room && item_fits && if exact {
            e.coordinates.has_coords() && e.coordinates == loc.coordinates
        } else {
            !e.coordinates.has_coords()
        };
        if is_candidate {
            proof {
                lemma_first_match_prefix(table@, *loc, dp.item_id_to_name@, placed@, exact, i as int + 1);
            }
            return Some(i);
        }
        i = i + 1;
    }
    assert(table@.take(table.len() as int) =~= table@);
    None
}

/// A candidate found within a prefix is the first candidate of the whole table.
pub proof fn lemma_first_match_prefix(t: Seq<(String, ItemEntry)>, loc: Location, names: Map<i64, String>, placed: Seq<(String, LocationData)>, exact: bool, n: int)
    requires
        0 <= n <= t.len(),
        first_match(t.take(n), loc, names, placed, exact) is Some,
    ensures
        first_match(t, loc, names, placed, exact) == first_match(t.take(n), loc, names, placed, exact),
    decreases t.len() - n,
{
    if n < t.len() {
        assert(t.take(n + 1).drop_last() =~= t.take(n));
        lemma_first_match_prefix(t, loc, names, placed, exact, n + 1);
    } else {
        assert(t.take(n) =~= t);
    }
}

/// Resolves an event to its location key.
pub fn get_location_name_by_data(location_data: &Location, table: &Vec<(String, ItemEntry)>, dp: &DataPackage, placed: &Vec<(String, LocationData)>) -> (r: Result<String, LocationError>)
    ensures
        r matches Ok(k) ==> resolve_spec(table@, *location_data, dp.item_id_to_name@, placed@) == Some(k@),
        r is Err ==> resolve_spec(table@, *location_data, dp.item_id_to_name@, placed@) is None,
{
    if location_data.room == MISSION_COMPLETE_ROOM {
        let key = mission_complete_key(location_data.mission);
        let mut i: usize = 0;
        while i < table.len()
            invariant
                i <= table.len(),
                key@ == mission_key(location_data.mission as nat),
                location_data.room == MISSION_COMPLETE_ROOM,
                forall|j: int| 0 <= j < i ==> (#[trigger] table@[j]).0@ != key@,
            decreases table.len() - i,
        {
            if same_name(table[i].0.as_str(), key.as_str()) {
                assert(table@[i as int].0@ == key@);
                return Ok(key);
            }
            i = i + 1;
        }
        return Err(LocationError::NotFound);
    }
    match find_candidate(table, location_data, dp, placed, true) {
        Some(i) => Ok(table[i].0.clone()),
        None => match find_candidate(table, location_data, dp, placed, false) {
            Some(i) => Ok(table[i].0.clone()),
            None => Err(LocationError::NotFound),
        },
    }
}

/// Whether no two placements of a table share a key.
pub open spec fn keys_unique(t: Seq<(String, ItemEntry)>) -> bool {
    forall|i: int, j: int| 0 <= i < t.len() && 0 <= j < t.len() && i != j ==> (#[trigger] t[i]).0@ != (#[trigger] t[j]).0@
}

/// Among placements that share the event's room, one whose coordinates equal
/// the event's wins over one without coordinates, wherever the two stand in
/// the table.
pub proof fn lemma_exact_coordinates_preferred(t: Seq<(String, ItemEntry)>, loc: Location, names: Map<i64, String>, placed: Seq<(String, LocationData)>, i: int)
    requires
        loc.room != MISSION_COMPLETE_ROOM,
        0 <= i < t.len(),
        candidate(t[i], loc, names, placed, true),
    ensures
        resolve_spec(t, loc, names, placed) matches Some(k) && exists|j: int|
            0 <= j < t.len() && candidate(#[trigger] t[j], loc, names, placed, true) && t[j].0@ == k,
        keys_unique(t) ==> (resolve_spec(t, loc, names, placed) matches Some(k) && forall|j: int|
            0 <= j < t.len() && candidate(#[trigger] t[j], loc, names, placed, false) ==> t[j].0@ != k),
{
    lemma_first_match_in_range(t, loc, names, placed, true);
}

} // verus!
