use ble_dual_role::lookup::{find_characteristic_index, find_peer_index};
use ble_dual_role::protocol::{CHARACTERISTIC_UUID, SERVICE_UUID};

#[test]
fn target_address_is_found_where_it_stands() {
    let addrs: Vec<u64> = vec![0x111111111111, 0xAABBCCDDEEFF, 0x222222222222];
    assert_eq!(find_peer_index(&addrs, 0xAABBCCDDEEFF), Some(1));
}

#[test]
fn first_occurrence_of_the_address_wins() {
    let addrs: Vec<u64> = vec![0x5, 0x7, 0x7];
    assert_eq!(find_peer_index(&addrs, 0x7), Some(1));
}

#[test]
fn absent_address_is_not_found() {
    let addrs: Vec<u64> = vec![0x111111111111, 0x222222222222];
    assert_eq!(find_peer_index(&addrs, 0xAABBCCDDEEFF), None);
    assert_eq!(find_peer_index(&Vec::new(), 0xAABBCCDDEEFF), None);
}

#[test]
fn target_characteristic_is_found_among_others() {
    let uuids: Vec<u128> = vec![SERVICE_UUID, CHARACTERISTIC_UUID];
    assert_eq!(find_characteristic_index(&uuids, CHARACTERISTIC_UUID), Some(1));
}

#[test]
fn missing_characteristic_is_not_found() {
    let uuids: Vec<u128> = vec![SERVICE_UUID];
    assert_eq!(find_characteristic_index(&uuids, CHARACTERISTIC_UUID), None);
    assert_eq!(find_characteristic_index(&Vec::new(), CHARACTERISTIC_UUID), None);
}
