//! The inventory derived from the server's item stream.
use crate::mapping::SlotOptions;
use crate::names::NameSet;
use vstd::prelude::*;

verus! {

/// Most blue orbs that count towards health.
pub const MAX_BLUE_ORBS: i32 = 14;
/// Most purple orbs that count towards magic.
pub const MAX_PURPLE_ORBS: i32 = 10;
/// Purple orbs that one Devil Trigger grant is worth.
pub const DT_PURPLE_ORBS: i32 = 3;
/// Highest level of a tiered skill.
pub const MAX_SKILL_LEVEL: u8 = 2;

/// The inventory as a mathematical value.
pub struct InventoryView {
    pub blue_orbs: int,
    pub purple_orbs: int,
    pub dt_unlocked: bool,
    pub stinger_level: int,
    pub vortex_level: int,
    pub kick_13_level: int,
    pub meteor_level: int,
    pub items: Set<Seq<char>>,
    pub skills: Set<Seq<char>>,
}

/// Unlocked items, skills and resource counts.
#[derive(Clone, Debug)]
pub struct ArchipelagoData {
    pub blue_orbs: i32,
    pub purple_orbs: i32,
    pub dt_unlocked: bool,
    pub stinger_level: u8,
    pub vortex_level: u8,
    pub kick_13_level: u8,
    pub meteor_level: u8,
    pub items: NameSet,
    pub skills: NameSet,
}

impl View for ArchipelagoData {
    type V = InventoryView;

    open spec fn view(&self) -> InventoryView {
        InventoryView {
            blue_orbs: self.blue_orbs as int,
            purple_orbs: self.purple_orbs as int,
            dt_unlocked: self.dt_unlocked,
            stinger_level: self.stinger_level as int,
            vortex_level: self.vortex_level as int,
            kick_13_level: self.kick_13_level as int,
            meteor_level: self.meteor_level as int,
            items: self.items@,
            skills: self.skills@,
        }
    }
}

/// The smaller of two integers.
pub open spec fn min_int(a: int, b: int) -> int {
    if a < b {
        a
    } else {
        b
    }
}

/// Counters within their caps.
pub open spec fn inventory_wf(v: InventoryView) -> bool {
    &&& 0 <= v.blue_orbs <= MAX_BLUE_ORBS
    &&& 0 <= v.purple_orbs <= MAX_PURPLE_ORBS
    &&& 0 <= v.stinger_level <= MAX_SKILL_LEVEL
    &&& 0 <= v.vortex_level <= MAX_SKILL_LEVEL
    &&& 0 <= v.kick_13_level <= MAX_SKILL_LEVEL
    &&& 0 <= v.meteor_level <= MAX_SKILL_LEVEL
}

/// Nothing unlocked.
pub open spec fn empty_inventory() -> InventoryView {
    InventoryView {
        blue_orbs: 0,
        purple_orbs: 0,
        dt_unlocked: false,
        stinger_level: 0,
        vortex_level: 0,
        kick_13_level: 0,
        meteor_level: 0,
        items: Set::empty(),
        skills: Set::empty(),
    }
}

/// `v` with one more unlocked item.
pub open spec fn with_item(v: InventoryView, name: Seq<char>) -> InventoryView {
    InventoryView { items: v.items.insert(name), ..v }
}

/// `v` with one more unlocked skill.
pub open spec fn with_skill(v: InventoryView, name: Seq<char>) -> InventoryView {
    InventoryView { skills: v.skills.insert(name), ..v }
}

/// `v` after a blue orb grant.
pub open spec fn blue_orb_added(v: InventoryView) -> InventoryView {
    InventoryView { blue_orbs: min_int(v.blue_orbs + 1, MAX_BLUE_ORBS as int), ..v }
}

/// `v` after a purple orb grant: a purple orb also unlocks Devil Trigger
/// unless the slot has a separate Devil Trigger item.
pub open spec fn purple_orb_added(v: InventoryView, opts: Option<SlotOptions>) -> InventoryView {
    InventoryView {
        purple_orbs: min_int(v.purple_orbs + 1, MAX_PURPLE_ORBS as int),
        dt_unlocked: v.dt_unlocked || (opts matches Some(o) && !o.devil_trigger_mode),
        ..v
    }
}

/// `v` after a Devil Trigger grant.
pub open spec fn dt_added(v: InventoryView, opts: Option<SlotOptions>) -> InventoryView {
    match opts {
        Some(o) => InventoryView {
            dt_unlocked: v.dt_unlocked || o.devil_trigger_mode,
            purple_orbs: if o.purple_orb_mode {
                v.purple_orbs
            } else {
                min_int(v.purple_orbs + DT_PURPLE_ORBS, MAX_PURPLE_ORBS as int)
            },
            ..v
        },
        None => v,
    }
}

impl ArchipelagoData {
    /// An inventory with nothing unlocked.
    pub fn new() -> (r: ArchipelagoData)
        ensures
            r@ == empty_inventory(),
    {
        let r = ArchipelagoData {
            blue_orbs: 0,
            purple_orbs: 0,
            dt_unlocked: false,
            stinger_level: 0,
            vortex_level: 0,
            kick_13_level: 0,
            meteor_level: 0,
            items: NameSet::new(),
            skills: NameSet::new(),
        };
        assert(r@ == empty_inventory());
        r
    }

    /// Unlocks an item.
    pub fn add_item(&mut self, item: &str)
        ensures
            final(self)@ == with_item(old(self)@, item@),
    {
        self.items.insert(item);
    }

    /// Unlocks a skill.
    pub fn add_skill(&mut self, item: &str)
        ensures
            final(self)@ == with_skill(old(self)@, item@),
    {
        self.skills.insert(item);
    }

    /// Counts a blue orb, up to the cap.
    pub fn add_blue_orb(&mut self)
        requires
            inventory_wf(old(self)@),
        ensures
            final(self)@ == blue_orb_added(old(self)@),
    {
        self.blue_orbs = if self.blue_orbs + 1 < MAX_BLUE_ORBS {
            self.blue_orbs + 1
        } else {
            MAX_BLUE_ORBS
        };
    }

    /// Counts a purple orb, up to the cap.
    pub fn add_purple_orb(&mut self, opts: Option<SlotOptions>)
        requires
            inventory_wf(old(self)@),
        ensures
            final(self)@ == purple_orb_added(old(self)@, opts),
    {
        self.purple_orbs = if self.purple_orbs + 1 < MAX_PURPLE_ORBS {
            self.purple_orbs + 1
        } else {
            MAX_PURPLE_ORBS
        };
        if let Some(o) = opts {
            if !o.devil_trigger_mode {
                self.dt_unlocked = true;
            }
        }
    }

    /// Applies a Devil Trigger grant.
    pub fn add_dt(&mut self, opts: Option<SlotOptions>)
        requires
            inventory_wf(old(self)@),
        ensures
            final(self)@ == dt_added(old(self)@, opts),
    {
        if let Some(o) = opts {
            if o.devil_trigger_mode {
                self.dt_unlocked = true;
            }
            if !o.purple_orb_mode {
                self.purple_orbs = if self.purple_orbs + DT_PURPLE_ORBS < MAX_PURPLE_ORBS {
                    self.purple_orbs + DT_PURPLE_ORBS
                } else {
                    MAX_PURPLE_ORBS
                };
            }
        }
    }

    /// Raises the Stinger level, up to the highest.
    pub fn add_stinger_level(&mut self)
        requires
            inventory_wf(old(self)@),
        ensures
            final(self)@ == (InventoryView { stinger_level: min_int(old(self)@.stinger_level + 1, MAX_SKILL_LEVEL as int), ..old(self)@ }),
    {
        self.stinger_level = if self.stinger_level + 1 < MAX_SKILL_LEVEL { self.stinger_level + 1 } else { MAX_SKILL_LEVEL };
    }

    /// Raises the Vortex level, up to the highest.
    pub fn add_vortex_level(&mut self)
        requires
            inventory_wf(old(self)@),
        ensures
            final(self)@ == (InventoryView { vortex_level: min_int(old(self)@.vortex_level + 1, MAX_SKILL_LEVEL as int), ..old(self)@ }),
    {
        self.vortex_level = if self.vortex_level + 1 < MAX_SKILL_LEVEL { self.vortex_level + 1 } else { MAX_SKILL_LEVEL };
    }

    /// Raises the Kick 13 level, up to the highest.
    pub fn add_kick_13_level(&mut self)
        requires
            inventory_wf(old(self)@),
        ensures
            final(self)@ == (InventoryView { kick_13_level: min_int(old(self)@.kick_13_level + 1, MAX_SKILL_LEVEL as int), ..old(self)@ }),
    {
        self.kick_13_level = if self.kick_13_level + 1 < MAX_SKILL_LEVEL { self.kick_13_level + 1 } else { MAX_SKILL_LEVEL };
    }

    /// Raises the Meteor level, up to the highest.
    pub fn add_meteor_level(&mut self)
        requires
            inventory_wf(old(self)@),
        ensures
            final(self)@ == (InventoryView { meteor_level: min_int(old(self)@.meteor_level + 1, MAX_SKILL_LEVEL as int), ..old(self)@ }),
    {
        self.meteor_level = if self.meteor_level + 1 < MAX_SKILL_LEVEL { self.meteor_level + 1 } else { MAX_SKILL_LEVEL };
    }
}

} // verus!
