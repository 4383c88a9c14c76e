//! Slot options that the server hands over at connect time.
use vstd::prelude::*;

verus! {

/// What finishes the seed.
#[derive(PartialEq, Eq, Structural, Clone, Copy, Debug)]
pub enum Goal {
    /// Beat mission 20 after missions 1 to 19 in linear order.
    Standard,
    /// Beat every mission; all are unlocked at the start.
    All,
    /// Beat all missions in a randomized linear order.
    RandomOrder,
}

/// How deaths are shared between players.
#[derive(PartialEq, Eq, Structural, Clone, Copy, Debug)]
pub enum DeathlinkSetting {
    /// Send and receive deaths.
    DeathLink,
    /// Send deaths, but a received one only hurts.
    HurtLink,
    /// Neither send nor receive.
    Off,
}

/// A slot-data field as the parsers below distinguish it: an integer (a JSON
/// number that is not an `i64` reads as zero), a string, or anything else.
#[derive(PartialEq, Eq, Clone, Debug)]
pub enum SlotValue {
    Number(i64),
    Text(String),
    Other,
}

/// Why a slot-data option could not be read.
#[derive(PartialEq, Eq, Structural, Clone, Copy, Debug)]
pub enum OptionError {
    /// The option number has no meaning.
    InvalidNumber(i64),
    /// The field was neither a number nor (where accepted) a string.
    UnexpectedType,
}

/// The item rules a slot was generated with.
#[derive(PartialEq, Eq, Structural, Clone, Copy, Debug)]
pub struct SlotOptions {
    pub randomize_skills: bool,
    pub purple_orb_mode: bool,
    pub devil_trigger_mode: bool,
}

/// The item the server placed at one location.
#[derive(Clone, Debug)]
pub struct LocationData {
    /// Name of the placed item in the data package.
    pub item_name: String,
    /// Id the game uses for the placed item.
    pub in_game_id: u32,
}

/// Everything the slot data tells the client.
#[derive(Clone, Debug)]
pub struct Mapping {
    pub seed: String,
    /// Location key and the item placed there.
    pub items: Vec<(String, LocationData)>,
    pub starter_items: Vec<String>,
    pub start_melee: String,
    pub start_gun: String,
    pub randomize_skills: bool,
    pub purple_orb_mode: bool,
    pub devil_trigger_mode: bool,
    pub death_link: DeathlinkSetting,
    pub goal: Goal,
    pub mission_order: Option<Vec<u8>>,
}

impl Mapping {
    /// The item rules of this slot.
    pub fn options(&self) -> (r: SlotOptions)
        ensures
            r == (SlotOptions {
                randomize_skills: self.randomize_skills,
                purple_orb_mode: self.purple_orb_mode,
                devil_trigger_mode: self.devil_trigger_mode,
            }),
    {
        SlotOptions {
            randomize_skills: self.randomize_skills,
            purple_orb_mode: self.purple_orb_mode,
            devil_trigger_mode: self.devil_trigger_mode,
        }
    }
}

/// Starting gun when the slot data names none.
pub fn default_gun() -> (r: String)
    ensures
        r@ == "Handgun"@,
{
    "Handgun".to_owned()
}

/// Starting melee weapon when the slot data names none.
pub fn default_melee() -> (r: String)
    ensures
        r@ == "Force Edge"@,
{
    "Force Edge".to_owned()
}

/// Goal when the slot data names none.
pub fn default_goal() -> (r: Goal)
    ensures
        r == Goal::Standard,
{
    Goal::Standard
}

/// Gun name for a gun option number; the Needlegun (2) cannot be a starting gun.
pub open spec fn gun_option_name(n: i64) -> Option<Seq<char>> {
    if n == 0 {
        Some("Handgun"@)
    } else if n == 1 {
        Some("Shotgun"@)
    } else if n == 3 {
        Some("Grenade Launcher"@)
    } else if n == 4 {
        Some("Nightmare Beta"@)
    } else {
        None
    }
}

/// Melee weapon name for a melee option number.
pub open spec fn melee_option_name(n: i64) -> Option<Seq<char>> {
    if n == 0 {
        Some("Force Edge"@)
    } else if n == 1 {
        Some("Alastor"@)
    } else if n == 2 {
        Some("Ifrit"@)
    } else if n == 3 {
        Some("Sparda"@)
    } else {
        None
    }
}

/// Reads the starting gun: an option number or a gun name.
pub fn parse_gun_number(v: &SlotValue) -> (r: Result<String, OptionError>)
    ensures
        match *v {
            SlotValue::Number(n) => match gun_option_name(n) {
                Some(name) => r matches Ok(s) && s@ == name,
                None => r == Err::<String, OptionError>(OptionError::InvalidNumber(n)),
            },
            SlotValue::Text(s) => r matches Ok(t) && t@ == s@,
            SlotValue::Other => r == Err::<String, OptionError>(OptionError::UnexpectedType),
        },
{
    match v {
        SlotValue::Number(n) => {
            let n = *n;
            if n == 0 {
                Ok("Handgun".to_owned())
            } else if n == 1 {
                Ok("Shotgun".to_owned())
            } else if n == 3 {
                Ok("Grenade Launcher".to_owned())
            } else if n == 4 {
                Ok("Nightmare Beta".to_owned())
            } else {
                Err(OptionError::InvalidNumber(n))
            }
        },
        SlotValue::Text(s) => Ok(s.clone()),
        SlotValue::Other => Err(OptionError::UnexpectedType),
    }
}

/// Reads the starting melee weapon: an option number or a weapon name.
pub fn parse_melee_number(v: &SlotValue) -> (r: Result<String, OptionError>)
    ensures
        match *v {
            SlotValue::Number(n) => match melee_option_name(n) {
                Some(name) => r matches Ok(s) && s@ == name,
                None => r == Err::<String, OptionError>(OptionError::InvalidNumber(n)),
            },
            SlotValue::Text(s) => r matches Ok(t) && t@ == s@,
            SlotValue::Other => r == Err::<String, OptionError>(OptionError::UnexpectedType),
        },
{
    match v {
        SlotValue::Number(n) => {
            let n = *n;
            if n == 0 {
                Ok("Force Edge".to_owned())
            } else if n == 1 {
                Ok("Alastor".to_owned())
            } else if n == 2 {
                Ok("Ifrit".to_owned())
            } else if n == 3 {
                Ok("Sparda".to_owned())
            } else {
                Err(OptionError::InvalidNumber(n))
            }
        },
        SlotValue::Text(s) => Ok(s.clone()),
        SlotValue::Other => Err(OptionError::UnexpectedType),
    }
}

/// Reads the death link option number.
pub fn parse_death_link(v: &SlotValue) -> (r: Result<DeathlinkSetting, OptionError>)
    ensures
        r == match *v {
            SlotValue::Number(n) => if n == 0 {
                Ok(DeathlinkSetting::Off)
            } else if n == 1 {
                Ok(DeathlinkSetting::DeathLink)
            } else if n == 2 {
                Ok(DeathlinkSetting::HurtLink)
            } else {
                Err(OptionError::InvalidNumber(n))
            },
            _ => Err(OptionError::UnexpectedType),
        },
{
    match v {
        SlotValue::Number(n) => {
            let n = *n;
            if n == 0 {
                Ok(DeathlinkSetting::Off)
            } else if n == 1 {
                Ok(DeathlinkSetting::DeathLink)
            } else if n == 2 {
                Ok(DeathlinkSetting::HurtLink)
            } else {
                Err(OptionError::InvalidNumber(n))
            }
        },
        _ => Err(OptionError::UnexpectedType),
    }
}

/// Reads the goal option number.
pub fn parse_goal(v: &SlotValue) -> (r: Result<Goal, OptionError>)
    ensures
        r == match *v {
            SlotValue::Number(n) => if n == 0 {
                Ok(Goal::Standard)
            } else if n == 1 {
                Ok(Goal::All)
            } else if n == 2 {
                Ok(Goal::RandomOrder)
            } else {
                Err(OptionError::InvalidNumber(n))
            },
            _ => Err(OptionError::UnexpectedType),
        },
{
    match v {
        SlotValue::Number(n) => {
            let n = *n;
            if n == 0 {
                Ok(Goal::Standard)
            } else if n == 1 {
                Ok(Goal::All)
            } else if n == 2 {
                Ok(Goal::RandomOrder)
            } else {
                Err(OptionError::InvalidNumber(n))
            }
        },
        _ => Err(OptionError::UnexpectedType),
    }
}

/// The item placed at the first entry of `items` with the given key.
pub open spec fn placement_in(items: Seq<(String, LocationData)>, key: Seq<char>) -> Option<LocationData>
    decreases items.len(),
{
    if items.len() == 0 {
        None
    } else if items[0].0@ == key {
        Some(items[0].1)
    } else {
        placement_in(items.drop_first(), key)
    }
}

/// Looks up the item placed at a location.
pub fn placed_at(items: &Vec<(String, LocationData)>, key: &str) -> (r: Option<LocationData>)
    ensures
        r == placement_in(items@, key@),
{
    let mut i: usize = 0;
    assert(items@.skip(0) =~= items@);
    while i < items.len()
        invariant
            i <= items.len(),
            placement_in(items@, key@) == placement_in(items@.skip(i as int), key@),
        decreases items.len() - i,
    {
        assert(items@.skip(i as int)[0] == items@[i as int]);
        if crate::items::same_name(items[i].0.as_str(), key) {
            assert(placement_in(items@.skip(i as int), key@) == Some(items@[i as int].1));
            let found = &items[i].1;
            return Some(LocationData { item_name: found.item_name.clone(), in_game_id: found.in_game_id });
        }
        assert(items@.skip(i as int).drop_first() =~= items@.skip(i as int + 1));
        i = i + 1;
    }
    assert(items@.skip(i as int) =~= Seq::<(String, LocationData)>::empty());
    None
}

} // verus!
