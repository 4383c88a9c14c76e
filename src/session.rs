//! The parts of the game's session state that the client reads and rewrites,
//! held as plain values: the caller copies them out of the game and back.
use crate::inventory::{inventory_wf, ArchipelagoData, MAX_BLUE_ORBS};
use crate::items::{
    find_item_by_vals, has_vals, get_items_by_category, item_data_by_name, item_data_spec, item_table, mission_items, names_for_mission, names_in_group, same_name,
    ItemCategory, ItemData, INITIAL_HP, INITIAL_MAGIC, MAX_HP, MAX_MAGIC,
};
use vstd::prelude::*;

verus! {

/// Number of inventory slots in the session.
pub const ITEM_SLOTS: usize = 248;

/// Game difficulty.
#[derive(PartialEq, Eq, Structural, Clone, Copy, Debug)]
pub enum Difficulty {
    Easy,
    Normal,
    Hard,
    DanteMustDie,
}

/// Mission rank.
#[derive(PartialEq, Eq, Structural, Clone, Copy, Debug)]
pub enum Rank {
    S,
    A,
    B,
    C,
    D,
}

/// The difficulty a session byte stands for.
pub open spec fn difficulty_of(code: u8) -> Option<Difficulty> {
    if code == 2 {
        Some(Difficulty::Easy)
    } else if code == 3 {
        Some(Difficulty::Normal)
    } else if code == 5 {
        Some(Difficulty::Hard)
    } else if code == 6 {
        Some(Difficulty::DanteMustDie)
    } else {
        None
    }
}

impl Difficulty {
    /// Reads a difficulty from its session byte.
    pub fn from_code(code: u8) -> (r: Option<Difficulty>)
        ensures
            r == difficulty_of(code),
    {
        if code == 2 {
            Some(Difficulty::Easy)
        } else if code == 3 {
            Some(Difficulty::Normal)
        } else if code == 5 {
            Some(Difficulty::Hard)
        } else if code == 6 {
            Some(Difficulty::DanteMustDie)
        } else {
            None
        }
    }

    /// The name the game shows for the difficulty.
    pub fn name(&self) -> (r: &'static str)
        ensures
            r@ == match *self {
                Difficulty::Easy => "Easy"@,
                Difficulty::Normal => "Normal"@,
                Difficulty::Hard => "Hard"@,
                Difficulty::DanteMustDie => "Dante Must Die"@,
            },
    {
        match self {
            Difficulty::Easy => "Easy",
            Difficulty::Normal => "Normal",
            Difficulty::Hard => "Hard",
            Difficulty::DanteMustDie => "Dante Must Die",
        }
    }
}

impl Rank {
    /// Reads a rank from its session byte.
    pub fn from_code(code: u8) -> (r: Option<Rank>)
        ensures
            r == if code == 0 {
                Some(Rank::S)
            } else if code == 1 {
                Some(Rank::A)
            } else if code == 2 {
                Some(Rank::B)
            } else if code == 3 {
                Some(Rank::C)
            } else if code == 4 {
                Some(Rank::D)
            } else {
                None::<Rank>
            },
    {
        if code == 0 {
            Some(Rank::S)
        } else if code == 1 {
            Some(Rank::A)
        } else if code == 2 {
            Some(Rank::B)
        } else if code == 3 {
            Some(Rank::C)
        } else if code == 4 {
            Some(Rank::D)
        } else {
            None
        }
    }
}

/// Why the session cannot be read.
#[derive(PartialEq, Eq, Structural, Clone, Copy, Debug)]
pub enum SessionError {
    /// No save slot is loaded.
    NotUsable,
}

/// Why the player data cannot be read.
#[derive(PartialEq, Eq, Structural, Clone, Copy, Debug)]
pub enum PlayerDataError {
    /// There is no player, most likely because the game is on the main menu.
    NotUsable,
}

/// The session fields the client works on.
#[derive(Clone, Debug)]
pub struct SessionData {
    pub mission: u8,
    pub difficulty: u8,
    pub hp: u8,
    pub magic: u8,
    /// The filled inventory slots, in order.
    pub items: Vec<ItemData>,
    pub expertise: Vec<u8>,
}

/// The room and track the player is in.
#[derive(Clone, Copy, Debug)]
pub struct EventData {
    pub track: u32,
    pub room: u32,
}

/// The current mission.
pub fn get_mission(s: &SessionData) -> (r: u8)
    ensures
        r == s.mission,
{
    s.mission
}

/// The current difficulty, if the session byte names one.
pub fn get_difficulty(s: &SessionData) -> (r: Option<Difficulty>)
    ensures
        r == difficulty_of(s.difficulty),
{
    Difficulty::from_code(s.difficulty)
}

/// A 32-bit word read as a two's complement signed number.
pub open spec fn signed_of(x: u32) -> int {
    if x <= i32::MAX {
        x as int
    } else {
        x - 0x1_0000_0000
    }
}

/// Reads a 32-bit word as a signed number.
fn to_signed(x: u32) -> (r: i32)
    ensures
        r as int == signed_of(x),
{
    if x <= i32::MAX as u32 {
        x as i32
    } else {
        (x as i64 - 0x1_0000_0000i64) as i32
    }
}

/// The current room.
pub fn get_room(e: &EventData) -> (r: i32)
    ensures
        r as int == signed_of(e.room),
{
    to_signed(e.room)
}

/// The current track.
pub fn get_track(e: &EventData) -> (r: i32)
    ensures
        r as int == signed_of(e.track),
{
    to_signed(e.track)
}

/// Index of the first slot of `items` holding the same item as `d`.
pub open spec fn slot_of(items: Seq<ItemData>, d: ItemData) -> Option<int>
    decreases items.len(),
{
    if items.len() == 0 {
        None
    } else {
        match slot_of(items.drop_last(), d) {
            Some(i) => Some(i),
            None => if items.last().category == d.category && items.last().id == d.id {
                Some(items.len() - 1)
            } else {
                None
            },
        }
    }
}

/// A slot found by `slot_of` lies in range and holds the item.
pub proof fn lemma_slot_of(items: Seq<ItemData>, d: ItemData)
    ensures
        slot_of(items, d) matches Some(i) ==> 0 <= i < items.len() && items[i].category == d.category && items[i].id == d.id,
    decreases items.len(),
{
    if items.len() > 0 {
        lemma_slot_of(items.drop_last(), d);
    }
}

/// Finds the slot holding the same item as `d`.
fn find_slot(items: &Vec<ItemData>, d: &ItemData) -> (r: Option<usize>)
    ensures
        r matches Some(i) ==> i < items.len() && slot_of(items@, *d) == Some(i as int),
        r is None ==> slot_of(items@, *d) is None,
{
    let mut i: usize = 0;
    while i < items.len()
        invariant
            i <= items.len(),
            slot_of(items@.take(i as int), *d) is None,
        decreases items.len() - i,
    {
        assert(items@.take(i as int + 1).drop_last() =~= items@.take(i as int));
        if items[i] == *d {
            proof {
                lemma_slot_prefix(items@, *d, i as int + 1);
            }
            return Some(i);
        }
        i = i + 1;
    }
    assert(items@.take(i as int) =~= items@);
    None
}

/// A slot found within a prefix is the first slot of the whole inventory.
pub proof fn lemma_slot_prefix(items: Seq<ItemData>, d: ItemData, n: int)
    requires
        0 <= n <= items.len(),
        slot_of(items.take(n), d) is Some,
    ensures
        slot_of(items, d) == slot_of(items.take(n), d),
    decreases items.len() - n,
{
    if n < items.len() {
        assert(items.take(n + 1).drop_last() =~= items.take(n));
        lemma_slot_prefix(items, d, n + 1);
    } else {
        assert(items.take(n) =~= items);
    }
}

/// The inventory after a unique item was put in.
pub open spec fn unique_inserted(items: Seq<ItemData>, d: ItemData) -> Seq<ItemData> {
    match slot_of(items, d) {
        Some(i) => items.update(i, ItemData { count: d.count, ..items[i] }),
        None => items.push(d),
    }
}

/// The inventory after the slot of an item was emptied.
pub open spec fn slot_cleared(items: Seq<ItemData>, d: ItemData) -> Seq<ItemData> {
    match slot_of(items, d) {
        Some(i) => items.update(i, items.last()).drop_last(),
        None => items,
    }
}

/// The inventory after each named item was put in where unlocked and taken
/// out where not, in order.
pub open spec fn synced(items: Seq<ItemData>, names: Seq<&'static str>, unlocked: Set<Seq<char>>) -> Seq<ItemData>
    decreases names.len(),
{
    if names.len() == 0 {
        items
    } else {
        let prev = synced(items, names.drop_last(), unlocked);
        match item_data_spec(names.last()@) {
            Some(d) => if unlocked.contains(names.last()@) {
                unique_inserted(prev, d)
            } else {
                slot_cleared(prev, d)
            },
            None => prev,
        }
    }
}

/// Puts a unique item in the inventory: the count of a slot that already
/// holds it is set, else the item takes a new slot.
pub fn insert_unique_item_into_inv(s: &mut SessionData, item_data: &ItemData)
    requires
        slot_of(old(s).items@, *item_data) is None ==> old(s).items.len() < ITEM_SLOTS,
    ensures
        final(s).items@ == unique_inserted(old(s).items@, *item_data),
        final(s).mission == old(s).mission && final(s).hp == old(s).hp && final(s).magic == old(s).magic,
        final(s).difficulty == old(s).difficulty && final(s).expertise == old(s).expertise,
{
    match find_slot(&s.items, item_data) {
        Some(i) => {
            let mut slot = s.items[i];
            slot.count = item_data.count;
            s.items.set(i, slot);
        },
        None => {
            s.items.push(*item_data);
        },
    }
}

/// Adds items to the inventory: a slot that already holds the item gets the
/// count added, else the item takes a new slot.
pub fn insert_item_into_inv(s: &mut SessionData, item_data: &ItemData)
    requires
        slot_of(old(s).items@, *item_data) is None ==> old(s).items.len() < ITEM_SLOTS,
        slot_of(old(s).items@, *item_data) matches Some(i) ==> old(s).items@[i].count + item_data.count <= u16::MAX,
    ensures
        final(s).items@ == match slot_of(old(s).items@, *item_data) {
            Some(i) => old(s).items@.update(i, ItemData { count: (old(s).items@[i].count + item_data.count) as u16, ..old(s).items@[i] }),
            None => old(s).items@.push(*item_data),
        },
        final(s).mission == old(s).mission && final(s).hp == old(s).hp && final(s).magic == old(s).magic,
        final(s).difficulty == old(s).difficulty && final(s).expertise == old(s).expertise,
{
    match find_slot(&s.items, item_data) {
        Some(i) => {
            let mut slot = s.items[i];
            slot.count = slot.count + item_data.count;
            s.items.set(i, slot);
        },
        None => {
            s.items.push(*item_data);
        },
    }
}

/// Empties the slot holding the item, moving the last slot into its place.
pub fn clear_item_slot(s: &mut SessionData, item_data: &ItemData)
    ensures
        final(s).items@ == slot_cleared(old(s).items@, *item_data),
        final(s).mission == old(s).mission && final(s).hp == old(s).hp && final(s).magic == old(s).magic,
        final(s).difficulty == old(s).difficulty && final(s).expertise == old(s).expertise,
{
    match find_slot(&s.items, item_data) {
        Some(i) => {
            let last = s.items.len() - 1;
            let moved = s.items[last];
            s.items.set(i, moved);
            s.items.pop();
        },
        None => {},
    }
}

/// Health and magic units for an inventory.
pub open spec fn hp_for(d: crate::inventory::InventoryView) -> int {
    crate::inventory::min_int(INITIAL_HP + d.blue_orbs, MAX_HP as int)
}

/// Magic units for an inventory: none until Devil Trigger is unlocked.
pub open spec fn magic_for(d: crate::inventory::InventoryView) -> int {
    if d.dt_unlocked {
        crate::inventory::min_int(d.purple_orbs, MAX_MAGIC as int)
    } else {
        INITIAL_MAGIC as int
    }
}

/// Sets the session's health and magic from the orbs received.
pub fn set_max_hp_and_magic(s: &mut SessionData, data: &ArchipelagoData)
    requires
        inventory_wf(data@),
    ensures
        final(s).hp == hp_for(data@),
        final(s).magic == magic_for(data@),
        final(s).items == old(s).items && final(s).mission == old(s).mission,
        final(s).difficulty == old(s).difficulty && final(s).expertise == old(s).expertise,
{
    let hp = INITIAL_HP + data.blue_orbs as u8;
    s.hp = if hp < MAX_HP { hp } else { MAX_HP };
    if data.dt_unlocked {
        let m = data.purple_orbs as u8;
        s.magic = if m < MAX_MAGIC { m } else { MAX_MAGIC };
    } else {
        s.magic = INITIAL_MAGIC;
    }
}

/// Whether a sequence of names holds `name`.
pub open spec fn names_hold(names: Seq<&'static str>, name: Seq<char>) -> bool {
    exists|i: int| 0 <= i < names.len() && (#[trigger] names[i])@ == name
}

/// Whether a vector of names holds `name`.
fn list_holds(names: &Vec<&'static str>, name: &str) -> (r: bool)
    ensures
        r == names_hold(names@, name@),
{
    let mut i: usize = 0;
    while i < names.len()
        invariant
            i <= names.len(),
            forall|j: int| 0 <= j < i ==> (#[trigger] names@[j])@ != name@,
        decreases names.len() - i,
    {
        if same_name(names[i], name) {
            return true;
        }
        i = i + 1;
    }
    false
}

/// Whether an item may stay in the inventory during a mission: consumables
/// always may, key items only in the missions that use them.
pub fn is_item_relevant_to_mission(item_name: &str, mission: u32) -> (r: bool)
    ensures
        r == (names_hold(names_in_group(item_table(), ItemCategory::Consumable), item_name@)
            || names_hold(names_for_mission(item_table(), mission), item_name@)),
{
    let consumables = get_items_by_category(ItemCategory::Consumable);
    if list_holds(&consumables, item_name) {
        return true;
    }
    let used = mission_items(mission);
    list_holds(&used, item_name)
}

/// Whether the inventory has a free slot each time a named, unlocked item
/// that it does not hold yet is put in.
pub open spec fn sync_fits(items: Seq<ItemData>, names: Seq<&'static str>, unlocked: Set<Seq<char>>) -> bool
    decreases names.len(),
{
    if names.len() == 0 {
        true
    } else {
        let prev = synced(items, names.drop_last(), unlocked);
        &&& sync_fits(items, names.drop_last(), unlocked)
        &&& match item_data_spec(names.last()@) {
            Some(d) => unlocked.contains(names.last()@) && slot_of(prev, d) is None ==> prev.len() < ITEM_SLOTS,
            None => true,
        }
    }
}

/// Room for all named items is room for the first `n` of them.
pub proof fn lemma_sync_fits_prefix(items: Seq<ItemData>, names: Seq<&'static str>, unlocked: Set<Seq<char>>, n: int)
    requires
        0 <= n <= names.len(),
        sync_fits(items, names, unlocked),
    ensures
        sync_fits(items, names.take(n), unlocked),
    decreases names.len() - n,
{
    if n < names.len() {
        lemma_sync_fits_prefix(items, names, unlocked, n + 1);
        assert(names.take(n + 1).drop_last() =~= names.take(n));
    } else {
        assert(names.take(n) =~= names);
    }
}

/// Puts each named item in the inventory where it is unlocked and takes it out where not.
fn sync_items(s: &mut SessionData, names: &Vec<&'static str>, data: &ArchipelagoData)
    requires
        sync_fits(old(s).items@, names@, data@.items),
    ensures
        final(s).items@ == synced(old(s).items@, names@, data@.items),
        final(s).mission == old(s).mission && final(s).hp == old(s).hp && final(s).magic == old(s).magic,
        final(s).difficulty == old(s).difficulty && final(s).expertise == old(s).expertise,
{
    let ghost start = s.items@;
    let mut i: usize = 0;
    while i < names.len()
        invariant
            i <= names.len(),
            sync_fits(start, names@, data@.items),
            s.items@ == synced(start, names@.take(i as int), data@.items),
            s.mission == old(s).mission && s.hp == old(s).hp && s.magic == old(s).magic,
            s.difficulty == old(s).difficulty && s.expertise == old(s).expertise,
        decreases names.len() - i,
    {
        assert(names@.take(i as int + 1).drop_last() =~= names@.take(i as int));
        proof {
            lemma_sync_fits_prefix(start, names@, data@.items, i as int + 1);
        }
        let name = names[i];
        match item_data_by_name(name) {
            Some(d) => {
                proof {
                    lemma_slot_of(s.items@, d);
                }
                if data.items.contains(name) {
                    insert_unique_item_into_inv(s, &d);
                } else {
                    clear_item_slot(s, &d);
                }
            },
            None => {},
        }
        i = i + 1;
    }
    assert(names@.take(names.len() as int) =~= names@);
}

/// Makes the session hold exactly the unlocked weapons.
pub fn set_weapons_in_inv(s: &mut SessionData, data: &ArchipelagoData)
    requires
        sync_fits(old(s).items@, names_in_group(item_table(), ItemCategory::Weapon), data@.items),
    ensures
        final(s).items@ == synced(old(s).items@, names_in_group(item_table(), ItemCategory::Weapon), data@.items),
{
    let weapons = get_items_by_category(ItemCategory::Weapon);
    sync_items(s, &weapons, data);
}

/// Makes the session hold exactly the unlocked key items of the current
/// mission. Nothing changes while disconnected.
pub fn set_relevant_key_items(s: &mut SessionData, data: &ArchipelagoData, connected: bool)
    requires
        connected ==> sync_fits(old(s).items@, names_for_mission(item_table(), old(s).mission as u32), data@.items),
    ensures
        final(s).items@ == if connected {
            synced(old(s).items@, names_for_mission(item_table(), old(s).mission as u32), data@.items)
        } else {
            old(s).items@
        },
{
    if !connected {
        return;
    }
    let used = mission_items(s.mission as u32);
    sync_items(s, &used, data);
}

/// Whether an item the player just picked up is to be taken away again when
/// the inventory is next shown: an item of the table that the current
/// mission does not use. An item the table lacks is left alone.
pub fn irrelevant_pickup(category: u8, id: u8, mission: u32) -> (r: bool)
    ensures
        r == exists|i: int| 0 <= i < item_table().len() && has_vals(#[trigger] item_table()[i], id, category)
            && (forall|j: int| 0 <= j < i ==> !has_vals(#[trigger] item_table()[j], id, category))
            && !(names_hold(names_in_group(item_table(), ItemCategory::Consumable), item_table()[i].name@)
            || names_hold(names_for_mission(item_table(), mission), item_table()[i].name@)),
{
    match find_item_by_vals(id, category) {
        Some(name) => !is_item_relevant_to_mission(name, mission),
        None => false,
    }
}

/// Health, human magic and devil magic of the player for the session's
/// health and magic units.
pub fn player_vitals(s: &SessionData) -> (r: (u16, u16, u16))
    ensures
        r.0 == s.hp as int * 100,
        r.1 == s.magic as int * 120,
        r.2 == s.magic as int * 200,
{
    (s.hp as u16 * 100, s.magic as u16 * 120, s.magic as u16 * 200)
}

} // verus!
