use dmc1_rando::codec::{decode_ledger, encode_ledger, LedgerError};
use dmc1_rando::ledger::{OfflineCheck, SyncLedger, SAVE_SLOTS};

#[test]
fn ledger_round_trip_keeps_slot_and_pending_checks() {
    let mut ledger = SyncLedger::new();
    ledger.set_slot_index(2, 17);
    ledger.add_offline_check(OfflineCheck { location_id: 4242, slot: 2 });
    let bytes = encode_ledger(&ledger);
    let back = decode_ledger(&bytes).unwrap();
    assert_eq!(back.sync_index[2], 17);
    assert_eq!(back.offline_checks, vec![OfflineCheck { location_id: 4242, slot: 2 }]);
    assert_eq!(back.sync_index, ledger.sync_index);
}

#[test]
fn ledger_round_trip_of_extreme_ids() {
    let mut ledger = SyncLedger::new();
    ledger.set_slot_index(0, u64::MAX);
    ledger.add_offline_check(OfflineCheck { location_id: -1, slot: 0 });
    ledger.add_offline_check(OfflineCheck { location_id: i64::MIN, slot: 9 });
    ledger.add_offline_check(OfflineCheck { location_id: i64::MAX, slot: 1 });
    let back = decode_ledger(&encode_ledger(&ledger)).unwrap();
    assert_eq!(back.sync_index, ledger.sync_index);
    assert_eq!(back.offline_checks, ledger.offline_checks);
}

#[test]
fn ledger_bytes_layout() {
    let ledger = SyncLedger { sync_index: vec![3], offline_checks: vec![OfflineCheck { location_id: -2, slot: 1 }] };
    let bytes = encode_ledger(&ledger);
    let mut expected: Vec<u8> = Vec::new();
    for w in [1u64, 1, 3, 1, 1, 1, 1] {
        expected.extend_from_slice(&w.to_le_bytes());
    }
    assert_eq!(bytes, expected);
}

#[test]
fn new_ledger_has_every_slot_at_zero() {
    let ledger = SyncLedger::new();
    assert_eq!(ledger.sync_index, vec![0; SAVE_SLOTS]);
    assert!(ledger.offline_checks.is_empty());
    assert_eq!(ledger.slot_index(3), 0);
    assert_eq!(ledger.slot_index(SAVE_SLOTS + 5), 0);
}

#[test]
fn corrupt_ledger_bytes_are_refused() {
    let ledger = SyncLedger::new();
    let mut bytes = encode_ledger(&ledger);
    bytes.pop();
    assert_eq!(decode_ledger(&bytes).unwrap_err(), LedgerError::Corrupt);
    let mut wrong_version = encode_ledger(&ledger);
    wrong_version[0] = 2;
    assert_eq!(decode_ledger(&wrong_version).unwrap_err(), LedgerError::Corrupt);
    assert_eq!(decode_ledger(&vec![]).unwrap_err(), LedgerError::Corrupt);
    let bad_tag = SyncLedger { sync_index: vec![], offline_checks: vec![OfflineCheck { location_id: 5, slot: 0 }] };
    let mut tagged = encode_ledger(&bad_tag);
    tagged[24] = 7;
    assert_eq!(decode_ledger(&tagged).unwrap_err(), LedgerError::Corrupt);
}

#[test]
fn offline_check_is_queued_once() {
    let mut ledger = SyncLedger::new();
    ledger.add_offline_check(OfflineCheck { location_id: 7, slot: 1 });
    ledger.add_offline_check(OfflineCheck { location_id: 7, slot: 2 });
    assert_eq!(ledger.offline_checks.len(), 1);
}

#[test]
fn retried_check_is_not_sent_again() {
    let mut ledger = SyncLedger::new();
    ledger.add_offline_check(OfflineCheck { location_id: 1, slot: 0 });
    ledger.add_offline_check(OfflineCheck { location_id: 2, slot: 0 });
    ledger.add_offline_check(OfflineCheck { location_id: 3, slot: 0 });
    let first = ledger.checks_to_send(&vec![2]);
    assert_eq!(first, vec![1, 3]);
    ledger.confirm_sent(&first);
    let second = ledger.checks_to_send(&vec![]);
    assert_eq!(second, vec![2]);
    ledger.confirm_sent(&vec![2]);
    assert!(ledger.checks_to_send(&vec![]).is_empty());
    assert!(ledger.offline_checks.is_empty());
}

#[test]
fn confirming_removes_exactly_that_check() {
    let mut ledger = SyncLedger::new();
    ledger.add_offline_check(OfflineCheck { location_id: 10, slot: 0 });
    ledger.add_offline_check(OfflineCheck { location_id: 11, slot: 1 });
    ledger.add_offline_check(OfflineCheck { location_id: 12, slot: 2 });
    ledger.confirm_sent(&vec![11]);
    assert_eq!(ledger.offline_checks, vec![OfflineCheck { location_id: 10, slot: 0 }, OfflineCheck { location_id: 12, slot: 2 }]);
    ledger.confirm_sent(&vec![11]);
    assert_eq!(ledger.offline_checks.len(), 2);
}
