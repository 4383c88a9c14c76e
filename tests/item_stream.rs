use dmc1_rando::datapackage::DataPackage;
use dmc1_rando::inventory::ArchipelagoData;
use dmc1_rando::ledger::SyncLedger;
use dmc1_rando::mapping::SlotOptions;
use dmc1_rando::skills::{add_skill, set_skills};
use dmc1_rando::sync::{load_slot, ItemSync, SyncError};

const FORCE_EDGE: i64 = 20;
const ALASTOR: i64 = 21;

fn package() -> DataPackage {
    let mut dp = DataPackage::new();
    dp.add_item_name(5, "Blue Orb".to_string());
    dp.add_item_name(6, "Purple Orb".to_string());
    dp.add_item_name(FORCE_EDGE, "Force Edge".to_string());
    dp.add_item_name(ALASTOR, "Alastor".to_string());
    dp.add_item_name(100, "Alastor - Stinger Level 1".to_string());
    dp
}

fn options(randomize_skills: bool, devil_trigger_mode: bool) -> Option<SlotOptions> {
    Some(SlotOptions { randomize_skills, purple_orb_mode: false, devil_trigger_mode })
}

#[test]
fn replayed_batch_is_applied_once() {
    let dp = package();
    let mut sync = ItemSync::new();
    sync.on_received_items(0, &vec![5, FORCE_EDGE], &dp, None).unwrap();
    sync.on_received_items(0, &vec![5, FORCE_EDGE], &dp, None).unwrap();
    assert_eq!(sync.data.blue_orbs, 1);
    assert!(sync.data.items.contains("Force Edge"));
    assert_eq!(sync.received_index, 2);
}

#[test]
fn replayed_tail_batch_is_skipped() {
    let dp = package();
    let mut sync = ItemSync::new();
    sync.on_received_items(0, &vec![5], &dp, None).unwrap();
    sync.on_received_items(1, &vec![5, FORCE_EDGE], &dp, None).unwrap();
    sync.on_received_items(1, &vec![5, FORCE_EDGE], &dp, None).unwrap();
    assert_eq!(sync.data.blue_orbs, 2);
    assert_eq!(sync.received_index, 3);
}

#[test]
fn overlapping_batch_applies_only_new_items() {
    let dp = package();
    let mut sync = ItemSync::new();
    sync.on_received_items(0, &vec![5, 5], &dp, None).unwrap();
    sync.on_received_items(1, &vec![5, 5, 5], &dp, None).unwrap();
    assert_eq!(sync.data.blue_orbs, 4);
    assert_eq!(sync.received_index, 4);
}

#[test]
fn cursor_is_one_past_highest_applied_index() {
    let dp = package();
    let mut sync = ItemSync::new();
    sync.on_received_items(0, &vec![5, 6, 5], &dp, None).unwrap();
    assert_eq!(sync.received_index, 3);
    sync.on_received_items(3, &vec![FORCE_EDGE], &dp, None).unwrap();
    assert_eq!(sync.received_index, 4);
    sync.on_received_items(2, &vec![5], &dp, None).unwrap();
    assert_eq!(sync.received_index, 4);
    assert_eq!(sync.data.blue_orbs, 2);
}

#[test]
fn batch_past_the_cursor_is_refused() {
    let dp = package();
    let mut sync = ItemSync::new();
    sync.on_received_items(0, &vec![5], &dp, None).unwrap();
    let r = sync.on_received_items(3, &vec![5], &dp, None);
    assert_eq!(r, Err(SyncError::Gap { expected: 1, received: 3 }));
    assert_eq!(sync.received_index, 1);
    assert_eq!(sync.data.blue_orbs, 1);
}

#[test]
fn stream_restart_replaces_inventory() {
    let dp = package();
    let mut sync = ItemSync::new();
    sync.on_received_items(0, &vec![5], &dp, None).unwrap();
    assert_eq!(sync.data.blue_orbs, 1);
    sync.on_received_items(0, &vec![ALASTOR], &dp, None).unwrap();
    assert!(sync.data.items.contains("Alastor"));
    assert!(!sync.data.items.contains("Blue Orb"));
    assert_eq!(sync.data.blue_orbs, 0);
    assert_eq!(sync.received_index, 1);
}

#[test]
fn blue_orbs_are_capped() {
    let dp = package();
    let mut sync = ItemSync::new();
    sync.on_received_items(0, &vec![5; 20], &dp, None).unwrap();
    assert_eq!(sync.data.blue_orbs, 14);
}

#[test]
fn purple_orbs_cap_and_unlock_devil_trigger() {
    let dp = package();
    let mut sync = ItemSync::new();
    sync.on_received_items(0, &vec![6; 12], &dp, options(false, false)).unwrap();
    assert_eq!(sync.data.purple_orbs, 10);
    assert!(sync.data.dt_unlocked);
    let mut other = ItemSync::new();
    other.on_received_items(0, &vec![6], &dp, options(false, true)).unwrap();
    assert!(!other.data.dt_unlocked);
}

#[test]
fn names_outside_the_item_table_are_not_unlocked() {
    let dp = package();
    let mut sync = ItemSync::new();
    sync.on_received_items(0, &vec![5, 999], &dp, None).unwrap();
    assert!(!sync.data.items.contains("Blue Orb"));
    assert_eq!(sync.data.items.names.len(), 0);
}

#[test]
fn skills_need_randomized_skills() {
    let dp = package();
    let mut off = ItemSync::new();
    off.on_received_items(0, &vec![102], &dp, options(false, false)).unwrap();
    assert!(!off.data.skills.contains("Alastor - Round Trip"));
    let mut on = ItemSync::new();
    on.on_received_items(0, &vec![102], &dp, options(true, false)).unwrap();
    assert!(on.data.skills.contains("Alastor - Round Trip"));
}

#[test]
fn second_tier_replaces_first() {
    let mut data = ArchipelagoData::new();
    add_skill(100, &mut data);
    assert!(data.skills.contains("Alastor - Stinger Level 1"));
    assert_eq!(data.stinger_level, 1);
    add_skill(100, &mut data);
    assert!(data.skills.contains("Alastor - Stinger Level 2"));
    assert!(!data.skills.contains("Alastor - Stinger Level 1"));
    assert_eq!(data.stinger_level, 2);
    add_skill(100, &mut data);
    assert_eq!(data.stinger_level, 2);
    assert_eq!(data.skills.names.len(), 1);
}

#[test]
fn expertise_bytes_follow_skills() {
    let mut data = ArchipelagoData::new();
    add_skill(100, &mut data);
    add_skill(107, &mut data);
    add_skill(113, &mut data);
    assert_eq!(set_skills(&data), vec![0, 0, 130, 16]);
}

#[test]
fn loading_a_slot_replays_delivered_items() {
    let dp = package();
    let mut ledger = SyncLedger::new();
    ledger.set_slot_index(2, 2);
    let sync = load_slot(&ledger, 2, &vec![5, FORCE_EDGE, 5], &dp, None);
    assert_eq!(sync.received_index, 2);
    assert_eq!(sync.data.blue_orbs, 1);
    assert!(sync.data.items.contains("Force Edge"));
    let fresh = load_slot(&ledger, 3, &vec![5, 5], &dp, None);
    assert_eq!(fresh.received_index, 0);
    assert_eq!(fresh.data.blue_orbs, 0);
    ledger.set_slot_index(4, 9);
    let capped = load_slot(&ledger, 4, &vec![5, 5], &dp, None);
    assert_eq!(capped.received_index, 2);
    assert_eq!(capped.data.blue_orbs, 2);
}
