//! Decoding raw scan callbacks into advertising events.

use bluest_android::decode::{
    decode_scan_result, DecodeError, RawManufacturerEntry, RawScanRecord, RawScanResult,
};
use bluest_android::ids::Uuid128;

fn record() -> RawScanRecord {
    RawScanRecord {
        device_name: Some(String::from("sensor")),
        tx_power_level: -8,
        service_uuids: Some(vec![Uuid128::from_u64_pair(1, 2), Uuid128::from_u64_pair(3, 4)]),
        service_data: vec![(Uuid128::from_u64_pair(1, 2), vec![9, 9])],
        manufacturer_data: vec![
            RawManufacturerEntry { company_id: 0x4c, data: vec![1, 2, 3] },
            RawManufacturerEntry { company_id: 0x7777, data: vec![4] },
        ],
    }
}

fn raw() -> RawScanResult {
    RawScanResult {
        callback_type: 1,
        device_address: Some(String::from("AA:BB:CC:DD:EE:FF")),
        rssi: -60,
        connectable: Some(false),
        scan_record: Some(record()),
    }
}

#[test]
fn well_formed_event_is_decoded_exactly() {
    let ev = decode_scan_result(raw()).unwrap();
    assert_eq!(ev.device.address, "AA:BB:CC:DD:EE:FF");
    assert_eq!(ev.rssi, Some(-60));
    assert!(!ev.adv_data.is_connectable);
    assert_eq!(ev.adv_data.local_name.as_deref(), Some("sensor"));
    assert_eq!(ev.adv_data.tx_power_level, Some(-8));
    assert_eq!(
        ev.adv_data.services,
        vec![Uuid128::from_u64_pair(1, 2), Uuid128::from_u64_pair(3, 4)]
    );
    assert_eq!(ev.adv_data.service_data, vec![(Uuid128::from_u64_pair(1, 2), vec![9, 9])]);
    // only the first manufacturer entry is kept
    let m = ev.adv_data.manufacturer_data.unwrap();
    assert_eq!(m.company_id, 0x4c);
    assert_eq!(m.data, vec![1, 2, 3]);
}

#[test]
fn missing_scan_record_is_rejected() {
    let mut r = raw();
    r.scan_record = None;
    assert_eq!(decode_scan_result(r), Err(DecodeError::MissingScanRecord));
}

#[test]
fn missing_device_address_is_rejected() {
    let mut r = raw();
    r.device_address = None;
    assert_eq!(decode_scan_result(r), Err(DecodeError::MissingDeviceAddress));
}

#[test]
fn unreported_connectable_defaults_to_true() {
    let mut r = raw();
    r.connectable = None;
    let ev = decode_scan_result(r).unwrap();
    assert!(ev.adv_data.is_connectable);
}

#[test]
fn absent_service_list_decodes_to_no_services() {
    let mut r = raw();
    r.scan_record.as_mut().unwrap().service_uuids = None;
    let ev = decode_scan_result(r).unwrap();
    assert!(ev.adv_data.services.is_empty());
}

#[test]
fn no_manufacturer_entry_decodes_to_none() {
    let mut r = raw();
    r.scan_record.as_mut().unwrap().manufacturer_data = Vec::new();
    let ev = decode_scan_result(r).unwrap();
    assert!(ev.adv_data.manufacturer_data.is_none());
}

#[test]
fn company_id_is_narrowed_to_16_bits() {
    let mut r = raw();
    r.scan_record.as_mut().unwrap().manufacturer_data =
        vec![RawManufacturerEntry { company_id: 0x1_ABCD, data: vec![] }];
    let ev = decode_scan_result(r).unwrap();
    assert_eq!(ev.adv_data.manufacturer_data.unwrap().company_id, 0xABCD);
}

#[test]
fn duplicate_service_data_keys_keep_the_last_payload() {
    let u1 = Uuid128::from_u64_pair(1, 1);
    let u2 = Uuid128::from_u64_pair(2, 2);
    let mut r = raw();
    r.scan_record.as_mut().unwrap().service_data =
        vec![(u1, vec![1]), (u2, vec![2]), (u1, vec![3])];
    let ev = decode_scan_result(r).unwrap();
    assert_eq!(ev.adv_data.service_data.len(), 2);
    let find = |k: Uuid128| {
        ev.adv_data
            .service_data
            .iter()
            .find(|e| e.0 == k)
            .map(|e| e.1.clone())
    };
    assert_eq!(find(u1), Some(vec![3]));
    assert_eq!(find(u2), Some(vec![2]));
}

#[test]
fn uuid_value_combines_the_halves() {
    let u = Uuid128::from_u64_pair(0x0000_0000_0000_1234, 0x8000_0000_0000_0001);
    assert_eq!(u.value(), 0x0000_0000_0000_1234_8000_0000_0000_0001u128);
}
