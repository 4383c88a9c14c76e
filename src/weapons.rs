//! The two-way tables between weapon names and the codes the game's player
//! data uses, and the check that the equipped weapons are unlocked.
use crate::inventory::ArchipelagoData;
use bimap::BiMap;
use vstd::prelude::*;

verus! {

#[verifier::external_type_specification]
#[verifier::external_body]
#[verifier::reject_recursive_types(L)]
#[verifier::reject_recursive_types(R)]
#[verifier::reject_recursive_types(LS)]
#[verifier::reject_recursive_types(RS)]
pub struct ExBiHashMap<L, R, LS, RS>(bimap::BiHashMap<L, R, LS, RS>);

/// A one-to-one map between weapon names and codes.
pub type CodeMap = BiMap<String, u8>;

/// The name-to-code pairs a weapon table holds.
pub uninterp spec fn weapon_pairs(m: CodeMap) -> Map<Seq<char>, u8>;

/// Relies on `bimap::BiHashMap::new`: a map without pairs.
#[verifier::external_body]
fn empty_codes() -> (r: CodeMap)
    ensures
        weapon_pairs(r).dom() == Set::<Seq<char>>::empty(),
{
    BiMap::new()
}

/// Relies on `bimap::BiHashMap::insert_no_overwrite`: the pair is added when
/// neither the name nor the code is present, else the map is left unchanged.
#[verifier::external_body]
fn insert_code(m: &mut CodeMap, name: String, code: u8) -> (r: bool)
    ensures
        r == (!weapon_pairs(*old(m)).contains_key(name@) && !weapon_pairs(*old(m)).values().contains(code)),
        r ==> weapon_pairs(*final(m)) == weapon_pairs(*old(m)).insert(name@, code),
        !r ==> weapon_pairs(*final(m)) == weapon_pairs(*old(m)),
{
    m.insert_no_overwrite(name, code).is_ok()
}

/// Relies on `bimap::BiHashMap::get_by_left`: the code paired with the name.
#[verifier::external_body]
fn code_by_name(m: &CodeMap, name: &str) -> (r: Option<u8>)
    ensures
        r == (if weapon_pairs(*m).contains_key(name@) { Some(weapon_pairs(*m)[name@]) } else { None::<u8> }),
{
    m.get_by_left(name).copied()
}

/// Relies on `bimap::BiHashMap::get_by_right`: the name paired with the code.
#[verifier::external_body]
fn name_by_code(m: &CodeMap, code: u8) -> (r: Option<String>)
    ensures
        r is None <==> !weapon_pairs(*m).values().contains(code),
        r matches Some(n) ==> weapon_pairs(*m).contains_key(n@) && weapon_pairs(*m)[n@] == code,
{
    m.get_by_right(&code).cloned()
}

/// A one-to-one table between weapon names and codes.
pub struct WeaponCodes {
    codes: CodeMap,
}

impl View for WeaponCodes {
    type V = Map<Seq<char>, u8>;

    closed spec fn view(&self) -> Map<Seq<char>, u8> {
        weapon_pairs(self.codes)
    }
}

/// Melee weapon codes.
pub open spec fn melee_codes() -> Map<Seq<char>, u8> {
    map!["Alastor"@ => 0u8, "Ifrit"@ => 1u8, "Sparda Air"@ => 2u8, "Sparda"@ => 3u8, "Force Edge"@ => 4u8]
}

/// Gun codes.
pub open spec fn gun_codes() -> Map<Seq<char>, u8> {
    map!["Handgun"@ => 1u8, "Shotgun"@ => 2u8, "Grenade Launcher"@ => 3u8, "Nightmare Beta"@ => 4u8, "Needlegun"@ => 5u8]
}

/// The weapon names of each table differ from one another.
proof fn lemma_names_differ()
    ensures
        "Alastor"@ != "Ifrit"@,
        "Sparda Air"@ != "Alastor"@ && "Sparda Air"@ != "Ifrit"@,
        "Sparda"@ != "Alastor"@ && "Sparda"@ != "Ifrit"@ && "Sparda"@ != "Sparda Air"@,
        "Force Edge"@ != "Alastor"@ && "Force Edge"@ != "Ifrit"@ && "Force Edge"@ != "Sparda Air"@ && "Force Edge"@ != "Sparda"@,
        "Shotgun"@ != "Handgun"@,
        "Grenade Launcher"@ != "Handgun"@ && "Grenade Launcher"@ != "Shotgun"@,
        "Nightmare Beta"@ != "Handgun"@ && "Nightmare Beta"@ != "Shotgun"@ && "Nightmare Beta"@ != "Grenade Launcher"@,
        "Needlegun"@ != "Handgun"@ && "Needlegun"@ != "Shotgun"@ && "Needlegun"@ != "Grenade Launcher"@ && "Needlegun"@ != "Nightmare Beta"@,
{
    reveal_strlit("Alastor");
    reveal_strlit("Ifrit");
    reveal_strlit("Sparda Air");
    reveal_strlit("Sparda");
    reveal_strlit("Force Edge");
    reveal_strlit("Handgun");
    reveal_strlit("Shotgun");
    reveal_strlit("Grenade Launcher");
    reveal_strlit("Nightmare Beta");
    reveal_strlit("Needlegun");
    assert("Alastor"@[0] != "Ifrit"@[0]);
    assert("Sparda Air"@.len() != "Sparda"@.len());
    assert("Sparda Air"@[0] != "Alastor"@[0] && "Sparda Air"@[0] != "Ifrit"@[0]);
    assert("Sparda"@[0] != "Alastor"@[0] && "Sparda"@[0] != "Ifrit"@[0]);
    assert("Force Edge"@[0] != "Alastor"@[0] && "Force Edge"@[0] != "Ifrit"@[0] && "Force Edge"@[0] != "Sparda"@[0]);
    assert("Force Edge"@[0] != "Sparda Air"@[0]);
    assert("Shotgun"@[0] != "Handgun"@[0]);
    assert("Grenade Launcher"@[0] != "Handgun"@[0] && "Grenade Launcher"@[0] != "Shotgun"@[0]);
    assert("Nightmare Beta"@[0] != "Handgun"@[0] && "Nightmare Beta"@[0] != "Shotgun"@[0] && "Nightmare Beta"@[0] != "Grenade Launcher"@[0]);
    assert("Needlegun"@[0] != "Handgun"@[0] && "Needlegun"@[0] != "Shotgun"@[0] && "Needlegun"@[0] != "Grenade Launcher"@[0]);
    assert("Needlegun"@.len() != "Nightmare Beta"@.len());
}

impl WeaponCodes {
    /// Adds a pair known to be new.
    fn add(&mut self, name: &str, code: u8)
        requires
            !old(self)@.contains_key(name@),
            !old(self)@.values().contains(code),
        ensures
            final(self)@ == old(self)@.insert(name@, code),
    {
        let _ = insert_code(&mut self.codes, name.to_owned(), code);
    }

    /// The melee weapon table.
    pub fn melee() -> (r: WeaponCodes)
        ensures
            r@ == melee_codes(),
    {
        proof {
            lemma_names_differ();
        }
        let mut t = WeaponCodes { codes: empty_codes() };
        t.add("Alastor", 0);
        t.add("Ifrit", 1);
        assert(!t@.values().contains(2u8));
        t.add("Sparda Air", 2);
        assert(!t@.values().contains(3u8));
        t.add("Sparda", 3);
        assert(!t@.values().contains(4u8));
        t.add("Force Edge", 4);
        assert(t@ =~= melee_codes());
        t
    }

    /// The gun table.
    pub fn guns() -> (r: WeaponCodes)
        ensures
            r@ == gun_codes(),
    {
        proof {
            lemma_names_differ();
        }
        let mut t = WeaponCodes { codes: empty_codes() };
        t.add("Handgun", 1);
        t.add("Shotgun", 2);
        assert(!t@.values().contains(3u8));
        t.add("Grenade Launcher", 3);
        assert(!t@.values().contains(4u8));
        t.add("Nightmare Beta", 4);
        assert(!t@.values().contains(5u8));
        t.add("Needlegun", 5);
        assert(t@ =~= gun_codes());
        t
    }

    /// The code of a weapon.
    pub fn code_of(&self, name: &str) -> (r: Option<u8>)
        ensures
            r == (if self@.contains_key(name@) { Some(self@[name@]) } else { None::<u8> }),
    {
        code_by_name(&self.codes, name)
    }

    /// The weapon with a code.
    pub fn name_of(&self, code: u8) -> (r: Option<String>)
        ensures
            r is None <==> !self@.values().contains(code),
            r matches Some(n) ==> self@.contains_key(n@) && self@[n@] == code,
    {
        name_by_code(&self.codes, code)
    }
}

/// The weapon code to equip instead of `current`: none while the weapon of
/// `current` is unlocked, else the code of the starting weapon.
pub open spec fn replacement_spec(codes: Map<Seq<char>, u8>, unlocked: Set<Seq<char>>, current: u8, start: Seq<char>) -> Option<u8> {
    let name = choose|n: Seq<char>| codes.contains_key(n) && codes[n] == current;
    if unlocked.contains(name) {
        None
    } else {
        Some(codes[start])
    }
}

/// Whether no two names of a table share a code.
pub open spec fn one_to_one(codes: Map<Seq<char>, u8>) -> bool {
    forall|a: Seq<char>, b: Seq<char>| codes.contains_key(a) && codes.contains_key(b) && #[trigger] codes[a] == #[trigger] codes[b] ==> a == b
}

/// Decides whether an equipped weapon must be swapped for the starting one
/// because the player has not unlocked it. Returns the code to equip.
pub fn replacement_weapon(codes: &WeaponCodes, data: &ArchipelagoData, current: u8, start: &str) -> (r: Option<u8>)
    requires
        codes@.values().contains(current),
        codes@.contains_key(start@),
        one_to_one(codes@),
    ensures
        r == replacement_spec(codes@, data@.items, current, start@),
{
    let name = codes.name_of(current).unwrap();
    let ghost chosen = choose|n: Seq<char>| codes@.contains_key(n) && codes@[n] == current;
    assert(name@ == chosen);
    if data.items.contains(name.as_str()) {
        None
    } else {
        codes.code_of(start)
    }
}

/// The player fields that hold the equipped weapons.
#[derive(Clone, Copy, Debug)]
pub struct PlayerData {
    pub melee: u8,
    pub gun: u8,
}

/// What `set_equipment` changed: the caller tells the game to re-equip.
#[derive(PartialEq, Eq, Structural, Clone, Copy, Debug)]
pub struct EquipmentChange {
    pub gun_changed: bool,
    pub melee_changed: bool,
}

/// The two weapon tables are one-to-one.
pub proof fn lemma_tables_one_to_one()
    ensures
        one_to_one(melee_codes()),
        one_to_one(gun_codes()),
{
    lemma_names_differ();
}

/// Swaps each equipped weapon that the player has not unlocked for the
/// starting weapon of the slot.
pub fn set_equipment(player: &mut PlayerData, data: &ArchipelagoData, guns: &WeaponCodes, melees: &WeaponCodes, start_gun: &str, start_melee: &str) -> (r: EquipmentChange)
    requires
        guns@ == gun_codes(),
        melees@ == melee_codes(),
        guns@.values().contains(old(player).gun),
        melees@.values().contains(old(player).melee),
        guns@.contains_key(start_gun@),
        melees@.contains_key(start_melee@),
    ensures
        r.gun_changed == replacement_spec(guns@, data@.items, old(player).gun, start_gun@) is Some,
        r.melee_changed == replacement_spec(melees@, data@.items, old(player).melee, start_melee@) is Some,
        final(player).gun == match replacement_spec(guns@, data@.items, old(player).gun, start_gun@) {
            Some(c) => c,
            None => old(player).gun,
        },
        final(player).melee == match replacement_spec(melees@, data@.items, old(player).melee, start_melee@) {
            Some(c) => c,
            None => old(player).melee,
        },
{
    proof {
        lemma_tables_one_to_one();
    }
    let mut change = EquipmentChange { gun_changed: false, melee_changed: false };
    match replacement_weapon(guns, data, player.gun, start_gun) {
        Some(c) => {
            player.gun = c;
            change.gun_changed = true;
        },
        None => {},
    }
    match replacement_weapon(melees, data, player.melee, start_melee) {
        Some(c) => {
            player.melee = c;
            change.melee_changed = true;
        },
        None => {},
    }
    change
}

} // verus!
