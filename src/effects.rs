//! What newly applied items ask of the game and of the shared bank.
use crate::datapackage::{get_item_name, item_name_in, DataPackage};
use crate::items::{
    is_known_item, is_table_name, item_data_by_name, item_data_spec, item_table, mission_items,
    names_for_mission, ItemData,
};
use crate::session::names_hold;
use vstd::prelude::*;

verus! {

/// Lowest item id of a consumable that is also banked.
pub const FIRST_BANKED_ID: i64 = 11;
/// Highest item id of a consumable that is also banked.
pub const LAST_BANKED_ID: i64 = 15;
/// Lowest item id of a key item.
pub const FIRST_KEY_ID: i64 = 17;
/// Highest item id of a key item.
pub const LAST_KEY_ID: i64 = 37;

/// Names of the banked consumables among `ids`, in order.
pub open spec fn deposits_spec(ids: Seq<i64>, names: Map<i64, String>) -> Seq<Seq<char>>
    decreases ids.len(),
{
    if ids.len() == 0 {
        Seq::empty()
    } else {
        let rest = deposits_spec(ids.drop_last(), names);
        let id = ids.last();
        match item_name_in(names, id) {
            Some(n) => if FIRST_BANKED_ID <= id <= LAST_BANKED_ID && is_table_name(n) {
                rest.push(n)
            } else {
                rest
            },
            None => rest,
        }
    }
}

/// The views of a vector of strings.
pub open spec fn views(v: Seq<String>) -> Seq<Seq<char>> {
    v.map_values(|s: String| s@)
}

/// The consumables among newly applied items that are also added to the bank.
pub fn bank_deposits(applied: &Vec<i64>, dp: &DataPackage) -> (r: Vec<String>)
    ensures
        views(r@) == deposits_spec(applied@, dp.item_id_to_name@),
{
    let mut out: Vec<String> = Vec::new();
    let mut i: usize = 0;
    while i < applied.len()
        invariant
            i <= applied.len(),
            views(out@) == deposits_spec(applied@.take(i as int), dp.item_id_to_name@),
        decreases applied.len() - i,
    {
        assert(applied@.take(i as int + 1).drop_last() =~= applied@.take(i as int));
        let id = applied[i];
        let ghost before = out@;
        match get_item_name(dp, id) {
            Some(n) => {
                if FIRST_BANKED_ID <= id && id <= LAST_BANKED_ID && is_known_item(n.as_str()) {
                    out.push(n);
                    assert(views(out@) =~= views(before).push(out@.last()@));
                }
            },
            None => {},
        }
        i = i + 1;
    }
    assert(applied@.take(applied.len() as int) =~= applied@);
    out
}

/// Inventory slots of the key items among `ids` that the mission uses, in order.
pub open spec fn key_items_spec(ids: Seq<i64>, names: Map<i64, String>, mission: u32) -> Seq<ItemData>
    decreases ids.len(),
{
    if ids.len() == 0 {
        Seq::empty()
    } else {
        let rest = key_items_spec(ids.drop_last(), names, mission);
        let id = ids.last();
        match item_name_in(names, id) {
            Some(n) => if FIRST_KEY_ID <= id <= LAST_KEY_ID && names_hold(names_for_mission(item_table(), mission), n) {
                match item_data_spec(n) {
                    Some(d) => rest.push(d),
                    None => rest,
                }
            } else {
                rest
            },
            None => rest,
        }
    }
}

/// Whether a vector of names holds `name`.
fn holds_name(names: &Vec<&'static str>, name: &str) -> (r: bool)
    ensures
        r == names_hold(names@, name@),
{
    let mut i: usize = 0;
    while i < names.len()
        invariant
            i <= names.len(),
            forall|j: int| 0 <= j < i ==> (#[trigger] names@[j])@ != name@,
        decreases names.len() - i,
    {
        if crate::items::same_name(names[i], name) {
            return true;
        }
        i = i + 1;
    }
    false
}

/// The key items among newly applied items that the current mission uses:
/// they go into the session inventory at once.
pub fn key_items_for_mission(applied: &Vec<i64>, dp: &DataPackage, mission: u32) -> (r: Vec<ItemData>)
    ensures
        r@ == key_items_spec(applied@, dp.item_id_to_name@, mission),
{
    let used = mission_items(mission);
    let mut out: Vec<ItemData> = Vec::new();
    let mut i: usize = 0;
    while i < applied.len()
        invariant
            i <= applied.len(),
            used@ == names_for_mission(item_table(), mission),
            out@ == key_items_spec(applied@.take(i as int), dp.item_id_to_name@, mission),
        decreases applied.len() - i,
    {
        assert(applied@.take(i as int + 1).drop_last() =~= applied@.take(i as int));
        let id = applied[i];
        match get_item_name(dp, id) {
            Some(n) => {
                if FIRST_KEY_ID <= id && id <= LAST_KEY_ID && holds_name(&used, n.as_str()) {
                    match item_data_by_name(n.as_str()) {
                        Some(d) => out.push(d),
                        None => {},
                    }
                }
            },
            None => {},
        }
        i = i + 1;
    }
    assert(applied@.take(applied.len() as int) =~= applied@);
    out
}

} // verus!
