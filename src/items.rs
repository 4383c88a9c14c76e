//! The static item table of the game and lookups over it.
use vstd::prelude::*;

verus! {

/// Largest number of health units the game shows.
pub const MAX_HP: u8 = 30;
/// Health units of a new game on Normal.
pub const INITIAL_HP: u8 = 10;
/// Largest number of magic units.
pub const MAX_MAGIC: u8 = 10;
/// Magic units before Devil Trigger is unlocked.
pub const INITIAL_MAGIC: u8 = 0;
/// Mission number that stands for "no mission in progress".
pub const NO_MISSION: u32 = 0;
/// Default item id of a placement whose vanilla item is not known statically.
pub const REMOTE_ID: u32 = 100;
/// Name of the game in the server's data package.
pub const GAME_NAME: &'static str = "Devil May Cry 1";

/// The game's identity towards the multiworld server.
#[derive(Clone, Copy, Debug)]
pub struct DMC1Config;

impl DMC1Config {
    /// In-game id of an item that belongs to another world.
    pub const REMOTE_ID: u32 = 0x35;
    /// Name of the game in the server's data package.
    pub const GAME_NAME: &'static str = "Devil May Cry 1";
}

/// How the client treats an item of the table.
#[derive(PartialEq, Eq, Structural, Clone, Copy, Debug)]
pub enum ItemCategory {
    Key,
    Consumable,
    Weapon,
    Misc,
}

/// One row of the static item table.
#[derive(Clone, Copy, Debug)]
pub struct Item {
    pub id: u8,
    pub name: &'static str,
    pub category: u8,
    /// Mission the key item is used in, typically the one it is found in.
    pub mission: Option<u32>,
    pub group: ItemCategory,
}

/// An inventory slot as the game stores it: category, id and count.
#[derive(Clone, Copy, Debug)]
pub struct ItemData {
    pub category: u8,
    pub id: u8,
    pub count: u16,
}

/// Two slots hold the same item when category and id agree; the count is not compared.
impl PartialEq for ItemData {
    fn eq(&self, other: &ItemData) -> (r: bool)
        ensures
            r == (self.category == other.category && self.id == other.id),
    {
        self.category == other.category && self.id == other.id
    }
}

impl vstd::std_specs::cmp::PartialEqSpecImpl for ItemData {
    open spec fn obeys_eq_spec() -> bool {
        true
    }

    open spec fn eq_spec(&self, other: &ItemData) -> bool {
        self.category == other.category && self.id == other.id
    }
}

impl Item {
    /// The inventory slot that holds one of this item.
    pub fn construct_item_data(&self) -> (r: ItemData)
        ensures
            r == (ItemData { category: self.category, id: self.id, count: 1 }),
    {
        ItemData { category: self.category, id: self.id, count: 1 }
    }
}

/// The item table, in its fixed order.
pub open spec fn item_table() -> Seq<Item> {
    seq![
        Item { id: 0, name: "Handgun", category: 0, mission: None, group: ItemCategory::Weapon },
        Item { id: 1, name: "Shotgun", category: 0, mission: None, group: ItemCategory::Weapon },
        Item { id: 2, name: "Needlegun", category: 0, mission: None, group: ItemCategory::Weapon },
        Item { id: 3, name: "Grenade Launcher", category: 0, mission: None, group: ItemCategory::Weapon },
        Item { id: 4, name: "Nightmare Beta", category: 0, mission: None, group: ItemCategory::Weapon },
        Item { id: 5, name: "Force Edge", category: 0, mission: None, group: ItemCategory::Weapon },
        Item { id: 6, name: "Alastor", category: 0, mission: None, group: ItemCategory::Weapon },
        Item { id: 7, name: "Ifrit", category: 0, mission: None, group: ItemCategory::Weapon },
        Item { id: 8, name: "Sparda", category: 0, mission: None, group: ItemCategory::Weapon },
        Item { id: 9, name: "Yamato", category: 0, mission: None, group: ItemCategory::Weapon },
        Item { id: 0, name: "Bangle of Time", category: 1, mission: None, group: ItemCategory::Misc },
        Item { id: 1, name: "Luminite", category: 1, mission: None, group: ItemCategory::Key },
        Item { id: 2, name: "Yellow Orb", category: 2, mission: None, group: ItemCategory::Consumable },
        Item { id: 4, name: "Blue Orb Fragment", category: 2, mission: None, group: ItemCategory::Misc },
        Item { id: 10, name: "Vital Star", category: 2, mission: None, group: ItemCategory::Consumable },
        Item { id: 13, name: "Devil Star", category: 1, mission: None, group: ItemCategory::Consumable },
        Item { id: 14, name: "Untouchable", category: 1, mission: None, group: ItemCategory::Consumable },
        Item { id: 15, name: "Holy Water", category: 1, mission: None, group: ItemCategory::Consumable },
        Item { id: 14, name: "Rusty Key (Mission #1)", category: 2, mission: Some(1), group: ItemCategory::Key },
        Item { id: 14, name: "Rusty Key (Mission #2)", category: 2, mission: Some(2), group: ItemCategory::Key },
        Item { id: 14, name: "Rusty Key (Mission #6)", category: 2, mission: Some(3), group: ItemCategory::Key },
        Item { id: 17, name: "Staff of Hermes", category: 1, mission: Some(16), group: ItemCategory::Key },
        Item { id: 19, name: "Emblem Shield", category: 1, mission: Some(15), group: ItemCategory::Key },
        Item { id: 0, name: "Staff of Judgement", category: 4, mission: Some(2), group: ItemCategory::Key },
        Item { id: 1, name: "Death Sentence", category: 4, mission: Some(4), group: ItemCategory::Key },
        Item { id: 2, name: "Death Sentence (2)", category: 4, mission: Some(4), group: ItemCategory::Key },
        Item { id: 3, name: "Melancholy Soul", category: 4, mission: Some(5), group: ItemCategory::Key },
        Item { id: 4, name: "Trident", category: 4, mission: Some(8), group: ItemCategory::Key },
        Item { id: 5, name: "Guiding Light", category: 4, mission: Some(7), group: ItemCategory::Key },
        Item { id: 6, name: "Pride of Lion", category: 4, mission: Some(4), group: ItemCategory::Key },
        Item { id: 0, name: "Emblem Shield", category: 5, mission: Some(15), group: ItemCategory::Key },
        Item { id: 1, name: "Knight Portrait", category: 5, mission: None, group: ItemCategory::Key },
        Item { id: 2, name: "Sign of Chastity", category: 5, mission: Some(11), group: ItemCategory::Key },
        Item { id: 3, name: "Sign of Humbleness", category: 5, mission: None, group: ItemCategory::Key },
        Item { id: 4, name: "Remote", category: 5, mission: None, group: ItemCategory::Key },
        Item { id: 5, name: "Chalice", category: 5, mission: Some(11), group: ItemCategory::Key },
        Item { id: 6, name: "Pair of Lances", category: 5, mission: Some(15), group: ItemCategory::Key },
        Item { id: 7, name: "Wheel of Destiny", category: 5, mission: Some(16), group: ItemCategory::Key },
        Item { id: 0, name: "Token of Philosophy", category: 6, mission: None, group: ItemCategory::Key },
        Item { id: 1, name: "Philosopher's Egg", category: 6, mission: Some(18), group: ItemCategory::Key },
        Item { id: 2, name: "Elixir", category: 6, mission: Some(19), group: ItemCategory::Key },
        Item { id: 3, name: "Quicksilver", category: 6, mission: Some(17), group: ItemCategory::Key },
        Item { id: 4, name: "Philosopher's Stone", category: 6, mission: Some(19), group: ItemCategory::Key },
    ]
}

/// Builds the item table.
pub fn all_items() -> (r: Vec<Item>)
    ensures
        r@ == item_table(),
{
    let mut v: Vec<Item> = Vec::new();
    v.push(Item { id: 0, name: "Handgun", category: 0, mission: None, group: ItemCategory::Weapon });
    v.push(Item { id: 1, name: "Shotgun", category: 0, mission: None, group: ItemCategory::Weapon });
    v.push(Item { id: 2, name: "Needlegun", category: 0, mission: None, group: ItemCategory::Weapon });
    v.push(Item { id: 3, name: "Grenade Launcher", category: 0, mission: None, group: ItemCategory::Weapon });
    v.push(Item { id: 4, name: "Nightmare Beta", category: 0, mission: None, group: ItemCategory::Weapon });
    v.push(Item { id: 5, name: "Force Edge", category: 0, mission: None, group: ItemCategory::Weapon });
    v.push(Item { id: 6, name: "Alastor", category: 0, mission: None, group: ItemCategory::Weapon });
    v.push(Item { id: 7, name: "Ifrit", category: 0, mission: None, group: ItemCategory::Weapon });
    v.push(Item { id: 8, name: "Sparda", category: 0, mission: None, group: ItemCategory::Weapon });
    v.push(Item { id: 9, name: "Yamato", category: 0, mission: None, group: ItemCategory::Weapon });
    v.push(Item { id: 0, name: "Bangle of Time", category: 1, mission: None, group: ItemCategory::Misc });
    v.push(Item { id: 1, name: "Luminite", category: 1, mission: None, group: ItemCategory::Key });
    v.push(Item { id: 2, name: "Yellow Orb", category: 2, mission: None, group: ItemCategory::Consumable });
    v.push(Item { id: 4, name: "Blue Orb Fragment", category: 2, mission: None, group: ItemCategory::Misc });
    v.push(Item { id: 10, name: "Vital Star", category: 2, mission: None, group: ItemCategory::Consumable });
    v.push(Item { id: 13, name: "Devil Star", category: 1, mission: None, group: ItemCategory::Consumable });
    v.push(Item { id: 14, name: "Untouchable", category: 1, mission: None, group: ItemCategory::Consumable });
    v.push(Item { id: 15, name: "Holy Water", category: 1, mission: None, group: ItemCategory::Consumable });
    v.push(Item { id: 14, name: "Rusty Key (Mission #1)", category: 2, mission: Some(1), group: ItemCategory::Key });
    v.push(Item { id: 14, name: "Rusty Key (Mission #2)", category: 2, mission: Some(2), group: ItemCategory::Key });
    v.push(Item { id: 14, name: "Rusty Key (Mission #6)", category: 2, mission: Some(3), group: ItemCategory::Key });
    v.push(Item { id: 17, name: "Staff of Hermes", category: 1, mission: Some(16), group: ItemCategory::Key });
    v.push(Item { id: 19, name: "Emblem Shield", category: 1, mission: Some(15), group: ItemCategory::Key });
    v.push(Item { id: 0, name: "Staff of Judgement", category: 4, mission: Some(2), group: ItemCategory::Key });
    v.push(Item { id: 1, name: "Death Sentence", category: 4, mission: Some(4), group: ItemCategory::Key });
    v.push(Item { id: 2, name: "Death Sentence (2)", category: 4, mission: Some(4), group: ItemCategory::Key });
    v.push(Item { id: 3, name: "Melancholy Soul", category: 4, mission: Some(5), group: ItemCategory::Key });
    v.push(Item { id: 4, name: "Trident", category: 4, mission: Some(8), group: ItemCategory::Key });
    v.push(Item { id: 5, name: "Guiding Light", category: 4, mission: Some(7), group: ItemCategory::Key });
    v.push(Item { id: 6, name: "Pride of Lion", category: 4, mission: Some(4), group: ItemCategory::Key });
    v.push(Item { id: 0, name: "Emblem Shield", category: 5, mission: Some(15), group: ItemCategory::Key });
    v.push(Item { id: 1, name: "Knight Portrait", category: 5, mission: None, group: ItemCategory::Key });
    v.push(Item { id: 2, name: "Sign of Chastity", category: 5, mission: Some(11), group: ItemCategory::Key });
    v.push(Item { id: 3, name: "Sign of Humbleness", category: 5, mission: None, group: ItemCategory::Key });
    v.push(Item { id: 4, name: "Remote", category: 5, mission: None, group: ItemCategory::Key });
    v.push(Item { id: 5, name: "Chalice", category: 5, mission: Some(11), group: ItemCategory::Key });
    v.push(Item { id: 6, name: "Pair of Lances", category: 5, mission: Some(15), group: ItemCategory::Key });
    v.push(Item { id: 7, name: "Wheel of Destiny", category: 5, mission: Some(16), group: ItemCategory::Key });
    v.push(Item { id: 0, name: "Token of Philosophy", category: 6, mission: None, group: ItemCategory::Key });
    v.push(Item { id: 1, name: "Philosopher's Egg", category: 6, mission: Some(18), group: ItemCategory::Key });
    v.push(Item { id: 2, name: "Elixir", category: 6, mission: Some(19), group: ItemCategory::Key });
    v.push(Item { id: 3, name: "Quicksilver", category: 6, mission: Some(17), group: ItemCategory::Key });
    v.push(Item { id: 4, name: "Philosopher's Stone", category: 6, mission: Some(19), group: ItemCategory::Key });
    assert(v@ =~= item_table());
    v
}

/// Whether two string slices hold the same characters.
pub fn same_name(a: &str, b: &str) -> (r: bool)
    ensures
        r == (a@ == b@),
{
    let x = a.to_owned();
    let y = b.to_owned();
    x == y
}

/// Whether a row of the table holds the given category and id.
pub open spec fn has_vals(it: Item, id: u8, category: u8) -> bool {
    it.id == id && it.category == category
}

/// Looks up the name of the first item of the table with the given id and category.
pub fn find_item_by_vals(id: u8, category: u8) -> (r: Option<&'static str>)
    ensures
        r is None <==> forall|i: int| 0 <= i < item_table().len() ==> !has_vals(#[trigger] item_table()[i], id, category),
        r matches Some(n) ==> exists|i: int|
            0 <= i < item_table().len() && has_vals(#[trigger] item_table()[i], id, category) && item_table()[i].name == n
            && forall|j: int| 0 <= j < i ==> !has_vals(#[trigger] item_table()[j], id, category),
{
    let table = all_items();
    let mut i: usize = 0;
    while i < table.len()
        invariant
            table@ == item_table(),
            i <= table.len(),
            forall|j: int| 0 <= j < i ==> !has_vals(#[trigger] item_table()[j], id, category),
        decreases table.len() - i,
    {
        if table[i].id == id && table[i].category == category {
            return Some(table[i].name);
        }
        i = i + 1;
    }
    None
}

/// Looks up the name of the item an inventory slot holds.
pub fn find_item_by_data(data: &ItemData) -> (r: Option<&'static str>)
    ensures
        r is None <==> forall|i: int| 0 <= i < item_table().len() ==> !has_vals(#[trigger] item_table()[i], data.id, data.category),
        r matches Some(n) ==> exists|i: int|
            0 <= i < item_table().len() && has_vals(#[trigger] item_table()[i], data.id, data.category) && item_table()[i].name == n
            && forall|j: int| 0 <= j < i ==> !has_vals(#[trigger] item_table()[j], data.id, data.category),
{
    find_item_by_vals(data.id, data.category)
}

/// Names of the rows of `t` in the given group, in table order.
pub open spec fn names_in_group(t: Seq<Item>, group: ItemCategory) -> Seq<&'static str>
    decreases t.len(),
{
    if t.len() == 0 {
        Seq::empty()
    } else {
        let rest = names_in_group(t.drop_last(), group);
        if t.last().group == group {
            rest.push(t.last().name)
        } else {
            rest
        }
    }
}

/// Names of the items of one group, in table order.
pub fn get_items_by_category(category: ItemCategory) -> (r: Vec<&'static str>)
    ensures
        r@ == names_in_group(item_table(), category),
{
    let table = all_items();
    let mut out: Vec<&'static str> = Vec::new();
    let mut i: usize = 0;
    while i < table.len()
        invariant
            table@ == item_table(),
            i <= table.len(),
            out@ == names_in_group(table@.take(i as int), category),
        decreases table.len() - i,
    {
        assert(table@.take(i as int + 1).drop_last() =~= table@.take(i as int));
        if table[i].group == category {
            out.push(table[i].name);
        }
        i = i + 1;
    }
    assert(table@.take(table.len() as int) =~= table@);
    out
}

/// Names of the rows of `t` used in the given mission, in table order.
pub open spec fn names_for_mission(t: Seq<Item>, mission: u32) -> Seq<&'static str>
    decreases t.len(),
{
    if t.len() == 0 {
        Seq::empty()
    } else {
        let rest = names_for_mission(t.drop_last(), mission);
        if t.last().mission == Some(mission) {
            rest.push(t.last().name)
        } else {
            rest
        }
    }
}

/// Names of the key items used in one mission, in table order.
pub fn mission_items(mission: u32) -> (r: Vec<&'static str>)
    ensures
        r@ == names_for_mission(item_table(), mission),
{
    let table = all_items();
    let mut out: Vec<&'static str> = Vec::new();
    let mut i: usize = 0;
    while i < table.len()
        invariant
            table@ == item_table(),
            i <= table.len(),
            out@ == names_for_mission(table@.take(i as int), mission),
        decreases table.len() - i,
    {
        assert(table@.take(i as int + 1).drop_last() =~= table@.take(i as int));
        if table[i].mission == Some(mission) {
            out.push(table[i].name);
        }
        i = i + 1;
    }
    assert(table@.take(table.len() as int) =~= table@);
    out
}

/// The last row of `t` with the given name: a later row overrides an earlier one.
pub open spec fn last_named(t: Seq<Item>, name: Seq<char>) -> Option<Item>
    decreases t.len(),
{
    if t.len() == 0 {
        None
    } else if t.last().name@ == name {
        Some(t.last())
    } else {
        last_named(t.drop_last(), name)
    }
}

/// The inventory slot for one of the named item, if the table has it.
pub open spec fn item_data_spec(name: Seq<char>) -> Option<ItemData> {
    match last_named(item_table(), name) {
        Some(it) => Some(ItemData { category: it.category, id: it.id, count: 1 }),
        None => None,
    }
}

/// Looks up the inventory slot for one of the named item.
pub fn item_data_by_name(name: &str) -> (r: Option<ItemData>)
    ensures
        r == item_data_spec(name@),
{
    let table = all_items();
    let mut found: Option<Item> = None;
    let mut i: usize = 0;
    while i < table.len()
        invariant
            table@ == item_table(),
            i <= table.len(),
            found == last_named(table@.take(i as int), name@),
        decreases table.len() - i,
    {
        assert(table@.take(i as int + 1).drop_last() =~= table@.take(i as int));
        if same_name(table[i].name, name) {
            found = Some(table[i]);
        }
        i = i + 1;
    }
    assert(table@.take(table.len() as int) =~= table@);
    match found {
        Some(it) => Some(it.construct_item_data()),
        None => None,
    }
}

/// Whether the table has an item of that name.
pub open spec fn is_table_name(name: Seq<char>) -> bool {
    exists|i: int| 0 <= i < item_table().len() && (#[trigger] item_table()[i]).name@ == name
}

/// Whether the table has an item of that name.
pub fn is_known_item(name: &str) -> (r: bool)
    ensures
        r == is_table_name(name@),
{
    let table = all_items();
    let mut i: usize = 0;
    while i < table.len()
        invariant
            table@ == item_table(),
            i <= table.len(),
            forall|j: int| 0 <= j < i ==> (#[trigger] item_table()[j]).name@ != name@,
        decreases table.len() - i,
    {
        if same_name(table[i].name, name) {
            return true;
        }
        i = i + 1;
    }
    false
}

} // verus!
