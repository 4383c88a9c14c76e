//! The skill table, tiered skill grants, and the expertise bytes they set.
use crate::inventory::{min_int, ArchipelagoData, InventoryView, MAX_SKILL_LEVEL, inventory_wf};
use vstd::prelude::*;

verus! {

/// Lowest skill item id.
pub const FIRST_SKILL_ID: u64 = 100;
/// Highest skill item id.
pub const LAST_SKILL_ID: u64 = 113;
/// Number of expertise bytes in the session.
pub const EXPERTISE_LEN: usize = 4;

/// Name of the skill with the given item id.
pub open spec fn skill_name(id: int) -> Option<Seq<char>> {
    if id == 100 {
        Some("Alastor - Stinger Level 1"@)
    } else if id == 101 {
        Some("Alastor - Stinger Level 2"@)
    } else if id == 102 {
        Some("Alastor - Round Trip"@)
    } else if id == 103 {
        Some("Alastor - Air Hike"@)
    } else if id == 104 {
        Some("Alastor - Air Raid"@)
    } else if id == 105 {
        Some("Alastor - Vortex Level 1"@)
    } else if id == 106 {
        Some("Alastor - Vortex Level 2"@)
    } else if id == 107 {
        Some("Ifrit - Rolling Blaze"@)
    } else if id == 108 {
        Some("Ifrit - Magma Drive"@)
    } else if id == 109 {
        Some("Ifrit - Kick 13 Level 1"@)
    } else if id == 110 {
        Some("Ifrit - Kick 13 Level 2"@)
    } else if id == 111 {
        Some("Ifrit - Meteor Level 1"@)
    } else if id == 112 {
        Some("Ifrit - Meteor Level 2"@)
    } else if id == 113 {
        Some("Ifrit - Inferno"@)
    } else {
        None
    }
}

/// Looks up the name of a skill by item id.
pub fn skill_name_by_id(id: u64) -> (r: Option<&'static str>)
    ensures
        r is None <==> skill_name(id as int) is None,
        r matches Some(s) ==> skill_name(id as int) == Some(s@),
{
    if id == 100 {
        Some("Alastor - Stinger Level 1")
    } else if id == 101 {
        Some("Alastor - Stinger Level 2")
    } else if id == 102 {
        Some("Alastor - Round Trip")
    } else if id == 103 {
        Some("Alastor - Air Hike")
    } else if id == 104 {
        Some("Alastor - Air Raid")
    } else if id == 105 {
        Some("Alastor - Vortex Level 1")
    } else if id == 106 {
        Some("Alastor - Vortex Level 2")
    } else if id == 107 {
        Some("Ifrit - Rolling Blaze")
    } else if id == 108 {
        Some("Ifrit - Magma Drive")
    } else if id == 109 {
        Some("Ifrit - Kick 13 Level 1")
    } else if id == 110 {
        Some("Ifrit - Kick 13 Level 2")
    } else if id == 111 {
        Some("Ifrit - Meteor Level 1")
    } else if id == 112 {
        Some("Ifrit - Meteor Level 2")
    } else if id == 113 {
        Some("Ifrit - Inferno")
    } else {
        None
    }
}

/// Expertise byte index and bit flag of the skill with the given item id.
pub open spec fn skill_slot(id: int) -> (int, u8) {
    if id == 100 {
        (3, 16)
    } else if id == 101 {
        (3, 8)
    } else if id == 102 {
        (3, 32)
    } else if id == 103 {
        (3, 64)
    } else if id == 104 {
        (3, 1)
    } else if id == 105 {
        (3, 4)
    } else if id == 106 {
        (3, 2)
    } else if id == 107 {
        (2, 128)
    } else if id == 108 {
        (2, 64)
    } else if id == 109 {
        (2, 32)
    } else if id == 110 {
        (2, 16)
    } else if id == 111 {
        (2, 8)
    } else if id == 112 {
        (2, 4)
    } else if id == 113 {
        (2, 2)
    } else {
        (0, 0)
    }
}

/// Looks up where a skill's bit lives in the expertise bytes.
pub fn skill_slot_by_id(id: u64) -> (r: (usize, u8))
    ensures
        r.0 as int == skill_slot(id as int).0,
        r.1 == skill_slot(id as int).1,
        r.0 < EXPERTISE_LEN,
{
    if id == 100 {
        (3, 16)
    } else if id == 101 {
        (3, 8)
    } else if id == 102 {
        (3, 32)
    } else if id == 103 {
        (3, 64)
    } else if id == 104 {
        (3, 1)
    } else if id == 105 {
        (3, 4)
    } else if id == 106 {
        (3, 2)
    } else if id == 107 {
        (2, 128)
    } else if id == 108 {
        (2, 64)
    } else if id == 109 {
        (2, 32)
    } else if id == 110 {
        (2, 16)
    } else if id == 111 {
        (2, 8)
    } else if id == 112 {
        (2, 4)
    } else if id == 113 {
        (2, 2)
    } else {
        (0, 0)
    }
}

/// The first skill id from `id` up to the last whose name is `name`.
pub open spec fn skill_id_from(name: Seq<char>, id: int) -> Option<int>
    decreases LAST_SKILL_ID + 1 - id,
{
    if id > LAST_SKILL_ID {
        None
    } else if skill_name(id) == Some(name) {
        Some(id)
    } else {
        skill_id_from(name, id + 1)
    }
}

/// The item id of the named skill.
pub open spec fn skill_id_of(name: Seq<char>) -> Option<int> {
    skill_id_from(name, FIRST_SKILL_ID as int)
}

/// Looks up the item id of a skill by name.
pub fn skill_id_by_name(name: &str) -> (r: Option<u64>)
    ensures
        r matches Some(id) ==> skill_id_of(name@) == Some(id as int),
        r is None ==> skill_id_of(name@) is None,
{
    let mut id: u64 = LAST_SKILL_ID + 1;
    let mut found: Option<u64> = None;
    while id > FIRST_SKILL_ID
        invariant
            FIRST_SKILL_ID <= id <= LAST_SKILL_ID + 1,
            found matches Some(f) ==> skill_id_from(name@, id as int) == Some(f as int),
            found is None ==> skill_id_from(name@, id as int) is None,
        decreases id,
    {
        id = id - 1;
        match skill_name_by_id(id) {
            Some(s) => {
                if crate::items::same_name(s, name) {
                    found = Some(id);
                }
            },
            None => {},
        }
    }
    found
}

/// The level after one more grant of a tiered skill.
pub open spec fn raised(level: int) -> int {
    min_int(level + 1, MAX_SKILL_LEVEL as int)
}

/// Skill names after a tiered skill with level-1 id `base` reached `level`:
/// the second level replaces the first.
pub open spec fn tiered_skills(skills: Set<Seq<char>>, base: int, level: int) -> Set<Seq<char>> {
    if level == 2 {
        skills.remove(skill_name(base).unwrap()).insert(skill_name(base + 1).unwrap())
    } else {
        skills.insert(skill_name(base).unwrap())
    }
}

/// `v` after a grant of the skill item `id`.
pub open spec fn skill_granted(v: InventoryView, id: int) -> InventoryView {
    if id == 100 {
        let l = raised(v.stinger_level);
        InventoryView { stinger_level: l, skills: tiered_skills(v.skills, id, l), ..v }
    } else if id == 105 {
        let l = raised(v.vortex_level);
        InventoryView { vortex_level: l, skills: tiered_skills(v.skills, id, l), ..v }
    } else if id == 109 {
        let l = raised(v.kick_13_level);
        InventoryView { kick_13_level: l, skills: tiered_skills(v.skills, id, l), ..v }
    } else if id == 111 {
        let l = raised(v.meteor_level);
        InventoryView { meteor_level: l, skills: tiered_skills(v.skills, id, l), ..v }
    } else {
        InventoryView { skills: v.skills.insert(skill_name(id).unwrap()), ..v }
    }
}

/// Sets the skill of a tiered grant from its new level.
fn set_tier(data: &mut ArchipelagoData, base: u64, level: u8)
    requires
        base == 100 || base == 105 || base == 109 || base == 111,
        level == 1 || level == 2,
    ensures
        final(data)@ == (InventoryView { skills: tiered_skills(old(data)@.skills, base as int, level as int), ..old(data)@ }),
{
    if level == 2 {
        let first = skill_name_by_id(base).unwrap();
        let second = skill_name_by_id(base + 1).unwrap();
        data.skills.remove(first);
        data.skills.insert(second);
    } else {
        let first = skill_name_by_id(base).unwrap();
        data.skills.insert(first);
    }
}

/// Applies one skill item. A second grant of a tiered skill upgrades its
/// level-1 unlock to level 2, replacing it.
pub fn add_skill(id: usize, data: &mut ArchipelagoData)
    requires
        FIRST_SKILL_ID <= id <= LAST_SKILL_ID,
        inventory_wf(old(data)@),
    ensures
        final(data)@ == skill_granted(old(data)@, id as int),
        inventory_wf(final(data)@),
{
    if id == 100 {
        data.add_stinger_level();
        let l = data.stinger_level;
        set_tier(data, 100, l);
    } else if id == 105 {
        data.add_vortex_level();
        let l = data.vortex_level;
        set_tier(data, 105, l);
    } else if id == 109 {
        data.add_kick_13_level();
        let l = data.kick_13_level;
        set_tier(data, 109, l);
    } else if id == 111 {
        data.add_meteor_level();
        let l = data.meteor_level;
        set_tier(data, 111, l);
    } else {
        let name = skill_name_by_id(id as u64).unwrap();
        data.add_skill(name);
    }
}

/// Expertise bytes `e` with the bit of the named skill set; unknown names set nothing.
pub open spec fn with_skill_bit(e: Seq<u8>, name: Seq<char>) -> Seq<u8> {
    match skill_id_of(name) {
        Some(id) => e.update(skill_slot(id).0, e[skill_slot(id).0] | skill_slot(id).1),
        None => e,
    }
}

/// Expertise bytes `e` with the bits of all named skills set, in order.
pub open spec fn expertise_after(e: Seq<u8>, names: Seq<String>) -> Seq<u8>
    decreases names.len(),
{
    if names.len() == 0 {
        e
    } else {
        with_skill_bit(expertise_after(e, names.drop_last()), names.last()@)
    }
}

/// Expertise bytes of a session with no skill learnt.
pub open spec fn no_expertise() -> Seq<u8> {
    seq![0u8, 0u8, 0u8, 0u8]
}

/// The expertise bytes with no skill learnt.
pub fn reset_expertise() -> (r: Vec<u8>)
    ensures
        r@ == no_expertise(),
{
    let mut v: Vec<u8> = Vec::new();
    v.push(0);
    v.push(0);
    v.push(0);
    v.push(0);
    assert(v@ =~= no_expertise());
    v
}

/// Sets the bit of one skill in the expertise bytes.
pub fn give_skill(expertise: &mut Vec<u8>, skill: &str)
    requires
        old(expertise).len() == EXPERTISE_LEN,
    ensures
        final(expertise)@ == with_skill_bit(old(expertise)@, skill@),
{
    match skill_id_by_name(skill) {
        Some(id) => {
            let (index, flag) = skill_slot_by_id(id);
            let b = expertise[index] | flag;
            expertise.set(index, b);
        },
        None => {},
    }
}

/// The expertise bytes for every skill the inventory has unlocked.
pub fn set_skills(data: &ArchipelagoData) -> (r: Vec<u8>)
    ensures
        r@ == expertise_after(no_expertise(), data.skills.names@),
        r.len() == EXPERTISE_LEN,
{
    let mut e = reset_expertise();
    let mut i: usize = 0;
    while i < data.skills.names.len()
        invariant
            i <= data.skills.names.len(),
            e.len() == EXPERTISE_LEN,
            e@ == expertise_after(no_expertise(), data.skills.names@.take(i as int)),
        decreases data.skills.names.len() - i,
    {
        assert(data.skills.names@.take(i as int + 1).drop_last() =~= data.skills.names@.take(i as int));
        give_skill(&mut e, data.skills.names[i].as_str());
        i = i + 1;
    }
    assert(data.skills.names@.take(data.skills.names.len() as int) =~= data.skills.names@);
    e
}

} // verus!
