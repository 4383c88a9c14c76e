//! Mission-complete location keys and goal evaluation.
use crate::mapping::{Goal, Mapping};
use crate::names::NameSet;
use vstd::prelude::*;
use vstd::string::StringExecFns;

verus! {

/// Mission whose completion is the standard goal.
pub const FINAL_MISSION: u32 = 20;

/// The character of a decimal digit.
pub open spec fn digit_char(d: int) -> char {
    if d == 0 {
        '0'
    } else if d == 1 {
        '1'
    } else if d == 2 {
        '2'
    } else if d == 3 {
        '3'
    } else if d == 4 {
        '4'
    } else if d == 5 {
        '5'
    } else if d == 6 {
        '6'
    } else if d == 7 {
        '7'
    } else if d == 8 {
        '8'
    } else {
        '9'
    }
}

/// Decimal digits of `n`, without sign or leading zeros.
pub open spec fn decimal(n: nat) -> Seq<char>
    decreases n,
{
    if n < 10 {
        seq![digit_char(n as int)]
    } else {
        decimal(n / 10).push(digit_char((n % 10) as int))
    }
}

/// The location key for completing mission `n`.
pub open spec fn mission_key(n: nat) -> Seq<char> {
    "Mission #"@ + decimal(n) + " Complete"@
}

/// The one-character text of a decimal digit.
fn digit_text(d: u64) -> (r: &'static str)
    requires
        d < 10,
    ensures
        r@ == seq![digit_char(d as int)],
{
    proof {
        reveal_strlit("0");
        reveal_strlit("1");
        reveal_strlit("2");
        reveal_strlit("3");
        reveal_strlit("4");
        reveal_strlit("5");
        reveal_strlit("6");
        reveal_strlit("7");
        reveal_strlit("8");
        reveal_strlit("9");
    }
    let r = if d == 0 {
        "0"
    } else if d == 1 {
        "1"
    } else if d == 2 {
        "2"
    } else if d == 3 {
        "3"
    } else if d == 4 {
        "4"
    } else if d == 5 {
        "5"
    } else if d == 6 {
        "6"
    } else if d == 7 {
        "7"
    } else if d == 8 {
        "8"
    } else {
        "9"
    };
    assert(r@ =~= seq![digit_char(d as int)]);
    r
}

/// The decimal digits of a number.
pub fn decimal_text(n: u64) -> (r: String)
    ensures
        r@ == decimal(n as nat),
    decreases n,
{
    if n < 10 {
        String::from_str(digit_text(n))
    } else {
        let mut s = decimal_text(n / 10);
        s.append(digit_text(n % 10));
        assert(s@ =~= decimal((n / 10) as nat).push(digit_char((n % 10) as int)));
        s
    }
}

/// The location key for completing a mission.
pub fn mission_complete_key(mission: u32) -> (r: String)
    ensures
        r@ == mission_key(mission as nat),
{
    let mut s = String::from_str("Mission #");
    let digits = decimal_text(mission as u64);
    s.append(digits.as_str());
    s.append(" Complete");
    s
}

/// Whether the checked locations satisfy the goal.
pub open spec fn goal_reached(goal: Goal, order: Option<Seq<u8>>, checked: Set<Seq<char>>) -> bool {
    match goal {
        Goal::Standard => checked.contains(mission_key(FINAL_MISSION as nat)),
        Goal::All => forall|i: int| 1 <= i < FINAL_MISSION ==> #[trigger] checked.contains(mission_key(i as nat)),
        Goal::RandomOrder => match order {
            Some(o) => o.len() >= FINAL_MISSION && checked.contains(mission_key(o[FINAL_MISSION - 1] as nat)),
            None => false,
        },
    }
}

/// The mission order of a slot as a sequence.
pub open spec fn order_of(m: &Mapping) -> Option<Seq<u8>> {
    match m.mission_order {
        Some(o) => Some(o@),
        None => None,
    }
}

/// Evaluates the slot's goal against the checked locations. In random-order
/// mode the goal is the last of the twenty missions of the order; an order
/// that is missing or shorter than twenty is never satisfied.
pub fn has_reached_goal(mapping: &Mapping, checked: &NameSet) -> (r: bool)
    ensures
        r == goal_reached(mapping.goal, order_of(mapping), checked@),
{
    match mapping.goal {
        Goal::Standard => {
            let key = mission_complete_key(FINAL_MISSION);
            checked.contains(key.as_str())
        },
        Goal::All => {
            let mut i: u32 = 1;
            while i < FINAL_MISSION
                invariant
                    1 <= i <= FINAL_MISSION,
                    mapping.goal == Goal::All,
                    forall|j: int| 1 <= j < i ==> #[trigger] checked@.contains(mission_key(j as nat)),
                decreases FINAL_MISSION - i,
            {
                let key = mission_complete_key(i);
                if !checked.contains(key.as_str()) {
                    proof {
                        let j: int = i as int;
                        assert(!checked@.contains(mission_key(j as nat)));
                    }
                    return false;
                }
                i = i + 1;
            }
            true
        },
        Goal::RandomOrder => {
            match &mapping.mission_order {
                Some(order) => {
                    if order.len() >= FINAL_MISSION as usize {
                        let key = mission_complete_key(order[(FINAL_MISSION - 1) as usize] as u32);
                        checked.contains(key.as_str())
                    } else {
                        false
                    }
                },
                None => false,
            }
        },
    }
}

/// In standard mode the goal is reached exactly when mission 20 is complete,
/// whatever else was checked.
pub proof fn lemma_standard_goal(checked: Set<Seq<char>>, order: Option<Seq<u8>>)
    ensures
        goal_reached(Goal::Standard, order, checked) <==> checked.contains(mission_key(20)),
{
}

/// In all-missions mode the goal is reached when missions 1 to 19 are all
/// complete, whether or not mission 20 is, and not while any one is missing.
pub proof fn lemma_all_goal(checked: Set<Seq<char>>, order: Option<Seq<u8>>, missing: int)
    ensures
        (forall|i: int| 1 <= i <= 19 ==> #[trigger] checked.contains(mission_key(i as nat))) ==> goal_reached(Goal::All, order, checked),
        1 <= missing <= 19 && !checked.contains(mission_key(missing as nat)) ==> !goal_reached(Goal::All, order, checked),
{
}

} // verus!
