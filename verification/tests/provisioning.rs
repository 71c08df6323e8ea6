//! One-time provisioning and version-gated entry-point registration.

use bluest_android::provision::{
    gatt_registration_table, load_dex_in_memory, provision_proxy_class, registrations_for,
    scan_registration_table, GattCallbackMethod, ProvisionCell, Registration, ScanCallbackMethod,
};

#[test]
fn provisioning_is_idempotent() {
    // many requests, each with the class its thread would have loaded:
    // one load wins, every caller observes the same handle
    let mut cell = ProvisionCell::new();
    assert_eq!(cell.class_handle, None);
    let first = cell.get_or_init(0x1000);
    assert_eq!(first, 0x1000);
    for candidate in [0x2000u64, 0x3000, 0x4000, 0x5000] {
        assert_eq!(cell.get_or_init(candidate), first);
    }
    assert_eq!(cell.class_handle, Some(first));
}

#[test]
fn only_the_winning_request_registers_entry_points() {
    let table = gatt_registration_table();
    let mut cell = ProvisionCell::new();
    let (class, regs) = provision_proxy_class(&mut cell, 26, 0xC0DE, &table);
    assert_eq!(class, 0xC0DE);
    assert_eq!(regs.expect("the winner registers").len(), 13);
    // every later request observes the class and registers nothing
    let (class2, regs2) = provision_proxy_class(&mut cell, 26, 0xBEEF, &table);
    assert_eq!(class2, 0xC0DE);
    assert!(regs2.is_none());
}

#[test]
fn scan_proxy_registers_all_three_entry_points_everywhere() {
    let table = scan_registration_table();
    for api in [1, 21, 26, 33] {
        let regs = registrations_for(api, &table);
        let methods: Vec<ScanCallbackMethod> = regs.iter().map(|r| r.method).collect();
        assert_eq!(
            methods,
            vec![
                ScanCallbackMethod::OnScanResult,
                ScanCallbackMethod::OnScanFailed,
                ScanCallbackMethod::Finalize,
            ]
        );
    }
}

#[test]
fn gatt_proxy_registration_grows_with_the_platform_version() {
    let table = gatt_registration_table();
    assert_eq!(registrations_for(20, &table).len(), 10);
    assert_eq!(registrations_for(21, &table).len(), 11);
    assert_eq!(registrations_for(25, &table).len(), 11);
    assert_eq!(registrations_for(26, &table).len(), 13);
    assert_eq!(registrations_for(30, &table).len(), 13);
    assert_eq!(registrations_for(31, &table).len(), 14);
    assert_eq!(registrations_for(32, &table).len(), 14);
    assert_eq!(registrations_for(33, &table).len(), 17);
}

#[test]
fn unavailable_entry_points_are_omitted_not_left_unreachable() {
    let table = gatt_registration_table();
    let at_20 = registrations_for(20, &table);
    assert!(at_20.iter().all(|r: &Registration<GattCallbackMethod>| r.min_api <= 20));
    assert!(!at_20.iter().any(|r| r.method == GattCallbackMethod::MtuChanged));
    assert!(!at_20.iter().any(|r| r.method == GattCallbackMethod::PhyRead));
    let at_26 = registrations_for(26, &table);
    assert!(at_26.iter().any(|r| r.method == GattCallbackMethod::PhyRead));
    assert!(at_26.iter().any(|r| r.method == GattCallbackMethod::PhyUpdate));
    assert!(!at_26.iter().any(|r| r.method == GattCallbackMethod::ServiceChanged));
}

#[test]
fn registration_keeps_the_table_order() {
    let table = gatt_registration_table();
    let all = registrations_for(33, &table);
    let methods: Vec<GattCallbackMethod> = all.iter().map(|r| r.method).collect();
    assert_eq!(
        methods,
        vec![
            GattCallbackMethod::CharacteristicChanged,
            GattCallbackMethod::CharacteristicRead,
            GattCallbackMethod::CharacteristicWrite,
            GattCallbackMethod::ConnectionStateChange,
            GattCallbackMethod::DescriptorRead,
            GattCallbackMethod::DescriptorWrite,
            GattCallbackMethod::ReadRemoteRssi,
            GattCallbackMethod::ReliableWriteCompleted,
            GattCallbackMethod::ServicesDiscovered,
            GattCallbackMethod::Finalize,
            GattCallbackMethod::MtuChanged,
            GattCallbackMethod::PhyRead,
            GattCallbackMethod::PhyUpdate,
            GattCallbackMethod::ServiceChanged,
            GattCallbackMethod::CharacteristicChangedWithValue,
            GattCallbackMethod::CharacteristicReadWithValue,
            GattCallbackMethod::DescriptorReadWithValue,
        ]
    );
}

#[test]
fn dex_bytecode_goes_in_memory_from_the_supported_version() {
    assert!(!load_dex_in_memory(25));
    assert!(load_dex_in_memory(26));
    assert!(load_dex_in_memory(33));
}
