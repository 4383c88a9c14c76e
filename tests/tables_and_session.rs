use dmc1_rando::bank::{get_bank, get_bank_key, key_field, read_values, signed_decimal_text};
use dmc1_rando::connection::{next_transition, ConnectionEvent, ConnectionState};
use dmc1_rando::datapackage::{get_item_name, get_location_id, get_location_name, DataPackage};
use dmc1_rando::debug_input::CustomDataHolder;
use dmc1_rando::effects::{bank_deposits, key_items_for_mission};
use dmc1_rando::inventory::ArchipelagoData;
use dmc1_rando::items::{
    all_items, find_item_by_data, find_item_by_vals, get_items_by_category, is_known_item, item_data_by_name, mission_items,
    DMC1Config, ItemCategory, ItemData, GAME_NAME,
};
use dmc1_rando::mapping::{
    default_goal, default_gun, default_melee, parse_death_link, parse_goal, parse_gun_number, parse_melee_number,
    DeathlinkSetting, Goal, OptionError, SlotOptions, SlotValue,
};
use dmc1_rando::session::{
    clear_item_slot, get_difficulty, irrelevant_pickup, player_vitals, get_mission, get_room, get_track, insert_item_into_inv, insert_unique_item_into_inv,
    is_item_relevant_to_mission, set_max_hp_and_magic, set_relevant_key_items, set_weapons_in_inv, Difficulty, EventData,
    Rank, SessionData,
};
use dmc1_rando::skills::{give_skill, reset_expertise, skill_id_by_name, skill_name_by_id};
use dmc1_rando::names::NameSet;
use dmc1_rando::text::{checkbox_text, item_text_color, translate_string, TextInfo, BLUE, GREEN, RED, WHITE};
use dmc1_rando::weapons::{set_equipment, PlayerData, WeaponCodes};

fn slot(category: u8, id: u8, count: u16) -> ItemData {
    ItemData { category, id, count }
}

fn session(items: Vec<ItemData>, mission: u8) -> SessionData {
    SessionData { mission, difficulty: 3, hp: 0, magic: 0, items, expertise: vec![0; 4] }
}

#[test]
fn item_table_lookups() {
    assert_eq!(all_items().len(), 43);
    assert_eq!(find_item_by_vals(14, 2), Some("Rusty Key (Mission #1)"));
    assert_eq!(find_item_by_vals(14, 1), Some("Untouchable"));
    assert_eq!(find_item_by_vals(99, 9), None);
    assert_eq!(find_item_by_data(&slot(0, 5, 3)), Some("Force Edge"));
    assert_eq!(
        get_items_by_category(ItemCategory::Consumable),
        vec!["Yellow Orb", "Vital Star", "Devil Star", "Untouchable", "Holy Water"]
    );
    assert_eq!(get_items_by_category(ItemCategory::Weapon).len(), 10);
    assert_eq!(mission_items(4), vec!["Death Sentence", "Death Sentence (2)", "Pride of Lion"]);
    assert!(mission_items(13).is_empty());
    let shield = item_data_by_name("Emblem Shield").unwrap();
    assert_eq!((shield.category, shield.id, shield.count), (5, 0, 1));
    assert!(item_data_by_name("Blue Orb").is_none());
    assert!(is_known_item("Alastor"));
    assert!(!is_known_item("Blue Orb"));
    let first = all_items()[0].construct_item_data();
    assert_eq!((first.category, first.id, first.count), (0, 0, 1));
    assert!(slot(1, 2, 3) == slot(1, 2, 9));
    assert!(slot(1, 2, 3) != slot(2, 2, 3));
    assert_eq!(DMC1Config::REMOTE_ID, 0x35);
    assert_eq!(DMC1Config::GAME_NAME, GAME_NAME);
}

#[test]
fn data_package_lookups() {
    let mut dp = DataPackage::new();
    dp.add_item_name(7, "Ifrit".to_string());
    dp.add_item_name(7, "Sparda".to_string());
    dp.add_location("A".to_string(), 1);
    dp.add_location("B".to_string(), 2);
    dp.add_location("A".to_string(), 3);
    assert_eq!(get_item_name(&dp, 7), Some("Sparda".to_string()));
    assert_eq!(get_item_name(&dp, 8), None);
    assert_eq!(get_location_id(&dp, "A"), Some(3));
    assert_eq!(dp.location_name_to_id.len(), 2);
    assert_eq!(get_location_id(&dp, "C"), None);
    assert_eq!(get_location_name(&dp, 2), Some("B".to_string()));
    assert_eq!(get_location_name(&dp, 9), None);
}

#[test]
fn session_reads() {
    let s = SessionData { difficulty: 6, ..session(vec![], 7) };
    assert_eq!(get_mission(&s), 7);
    assert_eq!(get_difficulty(&s), Some(Difficulty::DanteMustDie));
    assert_eq!(Difficulty::DanteMustDie.name(), "Dante Must Die");
    assert_eq!(Difficulty::from_code(4), None);
    assert_eq!(Difficulty::from_code(2), Some(Difficulty::Easy));
    assert_eq!(Rank::from_code(0), Some(Rank::S));
    assert_eq!(Rank::from_code(5), None);
    let e = EventData { track: 2, room: 0xFFFF_FFFF };
    assert_eq!(get_room(&e), -1);
    assert_eq!(get_track(&e), 2);
}

#[test]
fn unique_insert_sets_count_or_appends() {
    let mut s = session(vec![slot(0, 1, 1), slot(2, 10, 3)], 1);
    insert_unique_item_into_inv(&mut s, &slot(2, 10, 1));
    assert_eq!(s.items[1].count, 1);
    insert_unique_item_into_inv(&mut s, &slot(4, 4, 1));
    assert_eq!(s.items.len(), 3);
    assert_eq!((s.items[2].category, s.items[2].id), (4, 4));
}

#[test]
fn insert_adds_counts() {
    let mut s = session(vec![slot(2, 10, 3)], 1);
    insert_item_into_inv(&mut s, &slot(2, 10, 2));
    assert_eq!(s.items[0].count, 5);
    insert_item_into_inv(&mut s, &slot(1, 13, 2));
    assert_eq!(s.items.len(), 2);
    assert_eq!(s.items[1].count, 2);
}

#[test]
fn clearing_moves_last_slot_into_the_gap() {
    let mut s = session(vec![slot(0, 1, 1), slot(0, 2, 1), slot(0, 3, 1)], 1);
    clear_item_slot(&mut s, &slot(0, 1, 0));
    assert_eq!(s.items.len(), 2);
    assert_eq!(s.items[0].id, 3);
    assert_eq!(s.items[1].id, 2);
    clear_item_slot(&mut s, &slot(9, 9, 0));
    assert_eq!(s.items.len(), 2);
}

#[test]
fn health_and_magic_follow_orbs() {
    let mut data = ArchipelagoData::new();
    data.add_blue_orb();
    data.add_blue_orb();
    data.add_blue_orb();
    let opts = Some(SlotOptions { randomize_skills: false, purple_orb_mode: false, devil_trigger_mode: true });
    data.add_purple_orb(opts);
    let mut s = session(vec![], 1);
    set_max_hp_and_magic(&mut s, &data);
    assert_eq!(s.hp, 13);
    assert_eq!(s.magic, 0);
    data.add_dt(opts);
    set_max_hp_and_magic(&mut s, &data);
    assert_eq!(data.purple_orbs, 4);
    assert_eq!(s.magic, 4);
    for _ in 0..20 {
        data.add_blue_orb();
    }
    set_max_hp_and_magic(&mut s, &data);
    assert_eq!(s.hp, 24);
}

#[test]
fn devil_trigger_grant_depends_on_options() {
    let mut data = ArchipelagoData::new();
    data.add_dt(None);
    assert!(!data.dt_unlocked);
    assert_eq!(data.purple_orbs, 0);
    data.add_dt(Some(SlotOptions { randomize_skills: false, purple_orb_mode: true, devil_trigger_mode: false }));
    assert!(!data.dt_unlocked);
    assert_eq!(data.purple_orbs, 0);
    for _ in 0..4 {
        data.add_dt(Some(SlotOptions { randomize_skills: false, purple_orb_mode: false, devil_trigger_mode: true }));
    }
    assert!(data.dt_unlocked);
    assert_eq!(data.purple_orbs, 10);
}

#[test]
fn relevance_to_mission() {
    assert!(is_item_relevant_to_mission("Holy Water", 1));
    assert!(is_item_relevant_to_mission("Trident", 8));
    assert!(!is_item_relevant_to_mission("Trident", 7));
    assert!(!is_item_relevant_to_mission("Alastor", 8));
}

#[test]
fn weapons_in_inventory_follow_unlocks() {
    let mut data = ArchipelagoData::new();
    data.add_item("Alastor");
    let mut s = session(vec![slot(0, 1, 1), slot(2, 10, 2)], 1);
    set_weapons_in_inv(&mut s, &data);
    assert_eq!(s.items.len(), 2);
    assert_eq!((s.items[0].category, s.items[0].id), (2, 10));
    assert_eq!((s.items[1].category, s.items[1].id, s.items[1].count), (0, 6, 1));
}

#[test]
fn key_items_follow_the_mission() {
    let mut data = ArchipelagoData::new();
    data.add_item("Death Sentence");
    let mut s = session(vec![slot(4, 6, 1)], 4);
    set_relevant_key_items(&mut s, &data, false);
    assert_eq!(s.items.len(), 1);
    set_relevant_key_items(&mut s, &data, true);
    assert_eq!(s.items.len(), 1);
    assert_eq!((s.items[0].category, s.items[0].id), (4, 1));
}

#[test]
fn text_encoding() {
    assert_eq!(
        translate_string("Ab c\n?#é".to_string()),
        vec![0x0E, 0x29, 0x7E, 0x05, 0x2A, 0x7E, 0x09, 0x00, 0x7E, 0x0C, 0x4B, 0x4B, 0x62]
    );
    assert!(translate_string(String::new()).is_empty());
    let info = TextInfo::new("AB".to_string(), 3);
    assert_eq!(info.get_length(), 5);
    let bytes = info.to_bytes();
    assert_eq!(bytes.len(), 256);
    assert_eq!(&bytes[..6], &[0x7E, 0x09, 3, 0x0E, 0x0F, 0][..]);
}

#[test]
fn bank_keys_and_replies() {
    let bank = get_bank();
    assert_eq!(bank.counts.len(), 5);
    assert!(bank.counts.iter().all(|(_, c)| *c == 0));
    let keys = read_values(1, 2);
    assert_eq!(keys[0], "team1_slot2_Yellow Orb");
    assert_eq!(read_values(-1, -1)[4], "team-1_slot-1_Holy Water");
    let mut bank = get_bank();
    bank.handle_retrieved(1, 2, &vec![
        ("team1_slot2_Vital Star".to_string(), 7),
        ("team1_slot2_Holy Water".to_string(), 4_294_967_297),
        ("team0_slot2_Yellow Orb".to_string(), 9),
    ]);
    assert_eq!(bank.count("Vital Star"), Some(7));
    assert_eq!(bank.count("Holy Water"), Some(1));
    assert_eq!(bank.count("Yellow Orb"), Some(0));
    assert_eq!(bank.count("Nope"), None);
}

#[test]
fn weapon_tables() {
    let guns = WeaponCodes::guns();
    let melees = WeaponCodes::melee();
    assert_eq!(guns.code_of("Shotgun"), Some(2));
    assert_eq!(guns.name_of(3), Some("Grenade Launcher".to_string()));
    assert_eq!(guns.name_of(9), None);
    assert_eq!(melees.code_of("Sparda Air"), Some(2));
    assert_eq!(melees.code_of("Shotgun"), None);
    let mut data = ArchipelagoData::new();
    data.add_item("Ifrit");
    let mut player = PlayerData { melee: 1, gun: 2 };
    let change = set_equipment(&mut player, &data, &guns, &melees, "Handgun", "Force Edge");
    assert!(change.gun_changed);
    assert!(!change.melee_changed);
    assert_eq!(player.gun, 1);
    assert_eq!(player.melee, 1);
}

#[test]
fn connection_lifecycle() {
    let t = next_transition(ConnectionState::Disconnected, ConnectionEvent::ConnectRequest);
    assert_eq!(t.next, ConnectionState::Connecting);
    assert!(t.connect);
    let t = next_transition(ConnectionState::Connecting, ConnectionEvent::Succeeded);
    assert_eq!(t.next, ConnectionState::Connected);
    assert!(t.run_setup);
    let t = next_transition(ConnectionState::Connected, ConnectionEvent::NetworkError);
    assert_eq!(t.next, ConnectionState::Disconnected);
    assert!(t.close && t.clear_live && t.reconnect && !t.reset_all && !t.connect);
    let again = next_transition(t.next, ConnectionEvent::ConnectRequest);
    assert_eq!(again.next, ConnectionState::Connecting);
    assert!(again.connect);
    let t = next_transition(ConnectionState::Connected, ConnectionEvent::DisconnectRequest);
    assert_eq!(t.next, ConnectionState::Disconnected);
    assert!(t.close && t.reset_all && !t.reconnect);
    let t = next_transition(ConnectionState::Connecting, ConnectionEvent::Failed);
    assert_eq!(t.next, ConnectionState::Disconnected);
    assert!(t.reconnect && !t.connect && !t.reset_all);
    let t = next_transition(ConnectionState::Disconnected, ConnectionEvent::NetworkError);
    assert_eq!(t.next, ConnectionState::Disconnected);
    assert!(!t.connect && !t.close && !t.run_setup && !t.clear_live && !t.reset_all && !t.reconnect);
}

#[test]
fn debug_fields_to_slot() {
    let holder = CustomDataHolder {
        category: "2".to_string(),
        id: "+14".to_string(),
        count: "300".to_string(),
        hp_to_give: String::new(),
    };
    let d = holder.convert_to_data();
    assert_eq!((d.category, d.id, d.count), (2, 14, 300));
    let bad = CustomDataHolder {
        category: "256".to_string(),
        id: "-1".to_string(),
        count: "7x".to_string(),
        hp_to_give: String::new(),
    };
    let d = bad.convert_to_data();
    assert_eq!((d.category, d.id, d.count), (0, 0, 0));
}

#[test]
fn side_effects_of_new_items() {
    let mut dp = DataPackage::new();
    dp.add_item_name(11, "Devil Star".to_string());
    dp.add_item_name(12, "Untouchable".to_string());
    dp.add_item_name(5, "Blue Orb".to_string());
    dp.add_item_name(16, "Holy Water".to_string());
    dp.add_item_name(17, "Trident".to_string());
    dp.add_item_name(18, "Chalice".to_string());
    assert_eq!(bank_deposits(&vec![11, 12, 5, 16], &dp), vec!["Devil Star".to_string(), "Untouchable".to_string()]);
    let keys = key_items_for_mission(&vec![17, 18, 11], &dp, 8);
    assert_eq!(keys.len(), 1);
    assert_eq!((keys[0].category, keys[0].id, keys[0].count), (4, 4, 1));
}

#[test]
fn slot_option_parsers() {
    assert_eq!(parse_gun_number(&SlotValue::Number(3)), Ok("Grenade Launcher".to_string()));
    assert_eq!(parse_gun_number(&SlotValue::Number(2)), Err(OptionError::InvalidNumber(2)));
    assert_eq!(parse_gun_number(&SlotValue::Text("Shotgun".to_string())), Ok("Shotgun".to_string()));
    assert_eq!(parse_gun_number(&SlotValue::Other), Err(OptionError::UnexpectedType));
    assert_eq!(parse_melee_number(&SlotValue::Number(3)), Ok("Sparda".to_string()));
    assert_eq!(parse_melee_number(&SlotValue::Number(4)), Err(OptionError::InvalidNumber(4)));
    assert_eq!(parse_death_link(&SlotValue::Number(1)), Ok(DeathlinkSetting::DeathLink));
    assert_eq!(parse_death_link(&SlotValue::Number(0)), Ok(DeathlinkSetting::Off));
    assert_eq!(parse_death_link(&SlotValue::Text("1".to_string())), Err(OptionError::UnexpectedType));
    assert_eq!(parse_goal(&SlotValue::Number(2)), Ok(Goal::RandomOrder));
    assert_eq!(parse_goal(&SlotValue::Number(5)), Err(OptionError::InvalidNumber(5)));
    assert_eq!(default_gun(), "Handgun");
    assert_eq!(default_melee(), "Force Edge");
    assert_eq!(default_goal(), Goal::Standard);
}

#[test]
fn skill_table_lookups() {
    assert_eq!(skill_name_by_id(113), Some("Ifrit - Inferno"));
    assert_eq!(skill_name_by_id(99), None);
    assert_eq!(skill_id_by_name("Ifrit - Meteor Level 2"), Some(112));
    assert_eq!(skill_id_by_name("Nope"), None);
    let mut e = reset_expertise();
    give_skill(&mut e, "Alastor - Air Hike");
    give_skill(&mut e, "Alastor - Air Raid");
    give_skill(&mut e, "Nope");
    assert_eq!(e, vec![0, 0, 0, 65]);
}

#[test]
fn pickups_outside_the_mission_are_taken_away() {
    assert!(irrelevant_pickup(4, 4, 7));
    assert!(!irrelevant_pickup(4, 4, 8));
    assert!(!irrelevant_pickup(1, 15, 3));
    assert!(!irrelevant_pickup(9, 9, 3));
}

#[test]
fn player_vitals_scale_units() {
    let s = SessionData { hp: 13, magic: 255, ..session(vec![], 1) };
    assert_eq!(player_vitals(&s), (1300, 30600, 51000));
}

#[test]
fn found_item_colours() {
    assert_eq!(item_text_color(true, true, true), RED);
    assert_eq!(item_text_color(false, true, true), BLUE);
    assert_eq!(item_text_color(false, true, false), GREEN);
    assert_eq!(item_text_color(false, false, false), WHITE);
}

#[test]
fn tracker_lines() {
    let mut list = NameSet::new();
    list.insert("Trident");
    assert_eq!(checkbox_text("Trident", &list), "Trident [X]");
    assert_eq!(checkbox_text("Chalice", &list), "Chalice [ ]");
}

#[test]
fn bank_key_fields() {
    assert_eq!(key_field("team1_slot2_Holy Water", 2), Some("Holy Water".to_string()));
    assert_eq!(key_field("team1_slot2_Holy Water", 0), Some("team1".to_string()));
    assert_eq!(key_field("a__c_d", 1), Some(String::new()));
    assert_eq!(key_field("a_b", 2), None);
    assert_eq!(key_field("", 0), Some(String::new()));
}

#[test]
fn set_reply_updates_named_consumable() {
    let mut bank = get_bank();
    bank.handle_set_reply("team0_slot1_Vital Star", 5);
    assert_eq!(bank.count("Vital Star"), Some(5));
    bank.handle_set_reply("team0_slot1_Devil Star_extra", 8);
    assert_eq!(bank.count("Devil Star"), Some(8));
    bank.handle_set_reply("short_key", 9);
    bank.handle_set_reply("a_b_Unknown", 9);
    assert_eq!(bank.count("Yellow Orb"), Some(0));
    assert_eq!(bank.count("Vital Star"), Some(5));
}

#[test]
fn signed_numbers_and_bank_keys() {
    assert_eq!(signed_decimal_text(-42), "-42");
    assert_eq!(signed_decimal_text(i32::MIN), "-2147483648");
    assert_eq!(signed_decimal_text(0), "0");
    assert_eq!(get_bank_key(3, -1, "Vital Star"), "team3_slot-1_Vital Star");
}

#[test]
fn bank_names_are_distinct() {
    let bank = get_bank();
    for (i, a) in bank.counts.iter().enumerate() {
        for (j, b) in bank.counts.iter().enumerate() {
            assert!(i == j || a.0 != b.0);
        }
    }
}
