use dmc1_rando::checks::{pickup_replacement, plan_check, record_check, update_checked_locations, CheckError, CheckTracker};
use dmc1_rando::datapackage::DataPackage;
use dmc1_rando::goal::{decimal_text, has_reached_goal, mission_complete_key};
use dmc1_rando::location::{get_location_name_by_data, Coordinates, ItemEntry, Location, LocationError};
use dmc1_rando::mapping::{DeathlinkSetting, Goal, LocationData, Mapping};
use dmc1_rando::names::NameSet;
use dmc1_rando::sync::ItemSync;

fn mapping(goal: Goal, order: Option<Vec<u8>>) -> Mapping {
    Mapping {
        seed: "seed".to_string(),
        items: vec![
            ("Room 5 Ledge".to_string(), LocationData { item_name: "Alastor".to_string(), in_game_id: 0x20 }),
            ("Room 5 Floor".to_string(), LocationData { item_name: "Holy Water".to_string(), in_game_id: 0x10 }),
            ("Mission #20 Complete".to_string(), LocationData { item_name: "Shotgun".to_string(), in_game_id: 100 }),
        ],
        starter_items: vec![],
        start_melee: "Force Edge".to_string(),
        start_gun: "Handgun".to_string(),
        randomize_skills: false,
        purple_orb_mode: false,
        devil_trigger_mode: false,
        death_link: DeathlinkSetting::Off,
        goal,
        mission_order: order,
    }
}

fn checked(missions: &[u32]) -> NameSet {
    let mut set = NameSet::new();
    for m in missions {
        set.insert(&format!("Mission #{} Complete", m));
    }
    set
}

#[test]
fn standard_goal_needs_mission_twenty() {
    let m = mapping(Goal::Standard, None);
    assert!(has_reached_goal(&m, &checked(&[20])));
    let first: Vec<u32> = (1..20).collect();
    assert!(!has_reached_goal(&m, &checked(&first)));
}

#[test]
fn all_goal_needs_missions_one_to_nineteen() {
    let m = mapping(Goal::All, None);
    let first: Vec<u32> = (1..20).collect();
    assert!(has_reached_goal(&m, &checked(&first)));
    let mut with_last = first.clone();
    with_last.push(20);
    assert!(has_reached_goal(&m, &checked(&with_last)));
    for missing in 1..20u32 {
        let partial: Vec<u32> = (1..20).filter(|x| *x != missing).collect();
        assert!(!has_reached_goal(&m, &checked(&partial)));
    }
}

#[test]
fn random_order_goal_uses_twentieth_entry() {
    let order: Vec<u8> = vec![3, 1, 2, 4, 5, 6, 7, 8, 9, 10, 11, 12, 13, 14, 15, 16, 17, 18, 20, 19];
    let m = mapping(Goal::RandomOrder, Some(order));
    assert!(has_reached_goal(&m, &checked(&[19])));
    assert!(!has_reached_goal(&m, &checked(&[20])));
    let none = mapping(Goal::RandomOrder, None);
    assert!(!has_reached_goal(&none, &checked(&[19, 20])));
    let short = mapping(Goal::RandomOrder, Some(vec![1, 2, 3]));
    assert!(!has_reached_goal(&short, &checked(&[3, 20])));
}

fn placements() -> Vec<(String, ItemEntry)> {
    let plain = ItemEntry {
        offset: 0,
        room_number: 5,
        track_number: 1,
        item_id: 40,
        mission: 2,
        coordinates: Coordinates::empty(),
    };
    let placed = ItemEntry { offset: 1, coordinates: Coordinates { x: 10, y: 20, z: 30 }, ..plain };
    vec![
        ("Room 5 Floor".to_string(), plain),
        ("Room 5 Ledge".to_string(), placed),
        ("Mission #20 Complete".to_string(), ItemEntry { room_number: -1, ..plain }),
    ]
}

fn package() -> DataPackage {
    let mut dp = DataPackage::new();
    dp.add_item_name(40, "Vital Star".to_string());
    dp.add_location("Room 5 Floor".to_string(), 1005);
    dp.add_location("Room 5 Ledge".to_string(), 1006);
    dp.add_location("Mission #20 Complete".to_string(), 2020);
    dp
}

fn pickup(x: u32) -> Location {
    Location { item_id: 10, room: 5, track: 1, mission: 2, coordinates: Coordinates { x, y: 20, z: 30 }, item_category: 2 }
}

#[test]
fn matching_coordinates_win_over_placement_without() {
    let r = get_location_name_by_data(&pickup(10), &placements(), &package(), &vec![]);
    assert_eq!(r, Ok("Room 5 Ledge".to_string()));
}

#[test]
fn placement_without_coordinates_catches_other_positions() {
    let r = get_location_name_by_data(&pickup(11), &placements(), &package(), &vec![]);
    assert_eq!(r, Ok("Room 5 Floor".to_string()));
}

#[test]
fn unknown_pickup_is_not_found() {
    let mut event = pickup(10);
    event.item_id = 11;
    assert_eq!(get_location_name_by_data(&event, &placements(), &package(), &vec![]), Err(LocationError::NotFound));
    event = pickup(10);
    event.room = 6;
    assert_eq!(get_location_name_by_data(&event, &placements(), &package(), &vec![]), Err(LocationError::NotFound));
}

#[test]
fn mission_complete_resolves_by_number() {
    let event = Location { item_id: 255, room: -1, track: -1, mission: 20, coordinates: Coordinates::empty(), item_category: 0 };
    assert_eq!(get_location_name_by_data(&event, &placements(), &package(), &vec![]), Ok("Mission #20 Complete".to_string()));
    let other = Location { mission: 3, ..event };
    assert_eq!(get_location_name_by_data(&other, &placements(), &package(), &vec![]), Err(LocationError::NotFound));
}

#[test]
fn coordinates_without_x_are_unknown() {
    assert!(!Coordinates::empty().has_coords());
    assert!(Coordinates { x: 1, y: 0, z: 0 }.has_coords());
    assert!(!Coordinates { x: 0, y: 5, z: 5 }.has_coords());
}

#[test]
fn check_plan_unlocks_own_items() {
    let m = mapping(Goal::Standard, None);
    let plan = plan_check(&pickup(10), &placements(), &package(), &m).unwrap();
    assert_eq!(plan.key, "Room 5 Ledge");
    assert_eq!(plan.location_id, 1006);
    assert_eq!(plan.unlocked_item, Some("Alastor".to_string()));
    let floor = plan_check(&pickup(11), &placements(), &package(), &m).unwrap();
    assert_eq!(floor.location_id, 1005);
    assert_eq!(floor.unlocked_item, None);
}

#[test]
fn check_plan_errors() {
    let m = mapping(Goal::Standard, None);
    let mut event = pickup(10);
    event.room = 9;
    assert_eq!(plan_check(&event, &placements(), &package(), &m).unwrap_err(), CheckError::Location(LocationError::NotFound));
    let mut bare = mapping(Goal::Standard, None);
    bare.items.clear();
    assert_eq!(plan_check(&pickup(10), &placements(), &package(), &bare).unwrap_err(), CheckError::NoPlacement);
    let mut dp = DataPackage::new();
    dp.add_item_name(40, "Vital Star".to_string());
    assert_eq!(plan_check(&pickup(10), &placements(), &dp, &m).unwrap_err(), CheckError::UnknownLocationId);
}

#[test]
fn goal_status_is_sent_once() {
    let m = mapping(Goal::Standard, None);
    let mut sync = ItemSync::new();
    let mut tracker = CheckTracker::new();
    let event = Location { item_id: 255, room: -1, track: -1, mission: 20, coordinates: Coordinates::empty(), item_category: 0 };
    let plan = plan_check(&event, &placements(), &package(), &m).unwrap();
    assert_eq!(plan.unlocked_item, None);
    assert!(record_check(&mut sync, &mut tracker, &plan, &m));
    assert!(!record_check(&mut sync, &mut tracker, &plan, &m));
    assert!(tracker.checked.contains("Mission #20 Complete"));
}

#[test]
fn recorded_check_unlocks_item_at_once() {
    let m = mapping(Goal::Standard, None);
    let mut sync = ItemSync::new();
    let mut tracker = CheckTracker::new();
    let plan = plan_check(&pickup(10), &placements(), &package(), &m).unwrap();
    assert!(!record_check(&mut sync, &mut tracker, &plan, &m));
    assert!(sync.data.items.contains("Alastor"));
    assert!(tracker.checked.contains("Room 5 Ledge"));
}

#[test]
fn server_checked_ids_hydrate_the_checked_set() {
    let mut tracker = CheckTracker::new();
    update_checked_locations(&mut tracker, &package(), &vec![1006, 777, 2020]);
    assert!(tracker.checked.contains("Room 5 Ledge"));
    assert!(tracker.checked.contains("Mission #20 Complete"));
    assert!(!tracker.checked.contains("Room 5 Floor"));
    assert_eq!(tracker.checked.names.len(), 2);
}

#[test]
fn pickup_turns_into_placed_item() {
    let m = mapping(Goal::Standard, None);
    let mut dp = package();
    dp.add_item_name(0x20, "Alastor".to_string());
    let d = pickup_replacement(&pickup(10), &placements(), &dp, &m).unwrap();
    assert_eq!((d.category, d.id, d.count), (0, 6, 1));
    assert!(pickup_replacement(&pickup(10), &placements(), &package(), &m).is_none());
    let mut lost = pickup(10);
    lost.room = 9;
    assert!(pickup_replacement(&lost, &placements(), &dp, &m).is_none());
}

#[test]
fn mission_complete_event() {
    let e = Location::mission_complete(12);
    assert_eq!((e.room, e.track, e.mission, e.item_id, e.item_category), (-1, -1, 12, 255, 0));
    assert!(!e.coordinates.has_coords());
    let same = Location { mission: 3, ..e };
    assert!(e == same);
    let other = Location { track: 2, ..e };
    assert!(e != other);
}

#[test]
fn remote_placeholder_placement_is_a_candidate() {
    let mut event = pickup(11);
    event.item_id = 4;
    event.item_category = 5;
    assert_eq!(get_location_name_by_data(&event, &placements(), &package(), &vec![]), Err(LocationError::NotFound));
    let remote = vec![("Room 5 Floor".to_string(), LocationData { item_name: "Ifrit".to_string(), in_game_id: 100 })];
    assert_eq!(get_location_name_by_data(&event, &placements(), &package(), &remote), Ok("Room 5 Floor".to_string()));
    let own = vec![("Room 5 Floor".to_string(), LocationData { item_name: "Ifrit".to_string(), in_game_id: 0x20 })];
    assert_eq!(get_location_name_by_data(&event, &placements(), &package(), &own), Err(LocationError::NotFound));
}

#[test]
fn check_plan_follows_remote_placeholder() {
    let mut m = mapping(Goal::Standard, None);
    m.items.push(("Room 5 Floor".to_string(), LocationData { item_name: "Holy Water".to_string(), in_game_id: 100 }));
    m.items.remove(1);
    let mut event = pickup(11);
    event.item_id = 4;
    event.item_category = 5;
    let plan = plan_check(&event, &placements(), &package(), &m).unwrap();
    assert_eq!(plan.key, "Room 5 Floor");
    assert_eq!(plan.location_id, 1005);
    assert_eq!(plan.unlocked_item, None);
}

#[test]
fn mission_keys_and_decimals() {
    assert_eq!(decimal_text(0), "0");
    assert_eq!(decimal_text(1234567890), "1234567890");
    assert_eq!(decimal_text(u64::MAX), u64::MAX.to_string());
    assert_eq!(mission_complete_key(7), "Mission #7 Complete");
    assert_eq!(mission_complete_key(20), "Mission #20 Complete");
}
