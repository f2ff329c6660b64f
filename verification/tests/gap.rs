use h5_transport::gap::{
    GapAddress, GapAddressType, GapConfigRoleCount, GapScanParameters, GapSetId, TxPowerLevel,
};

#[test]
fn gap_address_type_classification() {
    assert_eq!(GapAddressType::from(0), GapAddressType::Public);
    assert_eq!(GapAddressType::from(1), GapAddressType::RandomStatic);
    assert_eq!(GapAddressType::from(2), GapAddressType::PrivateResolvable);
    assert_eq!(GapAddressType::from(3), GapAddressType::PrivateNonResolvable);
    assert_eq!(GapAddressType::from(0x7F), GapAddressType::Anonymous);
    assert_eq!(GapAddressType::from(9), GapAddressType::Unknown(9));
}

#[test]
fn gap_address_from_parts() {
    let address = GapAddress::from_parts(true, 1, [1, 2, 3, 4, 5, 6]);
    assert!(address.address_id_peer);
    assert_eq!(address.address_type, GapAddressType::RandomStatic);
    assert_eq!(address.address, [1, 2, 3, 4, 5, 6]);
}

#[test]
fn tx_power_level_classification() {
    assert_eq!(TxPowerLevel::from(-40i8), TxPowerLevel::Value(-40));
    assert_eq!(TxPowerLevel::from(0i8), TxPowerLevel::Value(0));
    assert_eq!(TxPowerLevel::from(127i8), TxPowerLevel::Invalid);
}

#[test]
fn gap_set_id_classification() {
    assert_eq!(GapSetId::from(3u8), GapSetId::Value(3));
    assert_eq!(GapSetId::from(0xFFu8), GapSetId::NotAvailable);
}

#[test]
fn gap_role_count_defaults() {
    let config = GapConfigRoleCount::default();
    assert_eq!(config.advertising_set_count, 1);
    assert_eq!(config.peripheral_role_count, 1);
    assert_eq!(config.central_role_count, 3);
    assert_eq!(config.central_security_count, 1);
    assert_eq!(config.qos_channel_survey_role_available, 0);
}

#[test]
fn gap_role_count_new_keeps_fields() {
    let config = GapConfigRoleCount::new(2, 4, 6, 8, 1);
    assert_eq!(config.advertising_set_count, 2);
    assert_eq!(config.peripheral_role_count, 4);
    assert_eq!(config.central_role_count, 6);
    assert_eq!(config.central_security_count, 8);
    assert_eq!(config.qos_channel_survey_role_available, 1);
}

#[test]
fn gap_scan_parameters_defaults() {
    let parameters = GapScanParameters::default();
    assert_eq!(parameters.extended, 1);
    assert_eq!(parameters.active, 1);
    assert_eq!(parameters.filter_policy, 0);
    assert_eq!(parameters.scan_phys, 0);
    assert_eq!(parameters.interval, 0xa0);
    assert_eq!(parameters.window, 50);
    assert_eq!(parameters.timeout, 0);
    assert_eq!(parameters.channel_mask, [0; 5]);
}

#[test]
fn gap_scan_parameters_new_keeps_fields() {
    let parameters = GapScanParameters::new(0, 1, 2, 3, 100, 60, 30, [1, 2, 3, 4, 5]);
    assert_eq!(parameters.extended, 0);
    assert_eq!(parameters.active, 1);
    assert_eq!(parameters.filter_policy, 2);
    assert_eq!(parameters.scan_phys, 3);
    assert_eq!(parameters.interval, 100);
    assert_eq!(parameters.window, 60);
    assert_eq!(parameters.timeout, 30);
    assert_eq!(parameters.channel_mask, [1, 2, 3, 4, 5]);
}

#[test]
fn nordic_dongle_port_filter() {
    assert!(h5_transport::transport::is_nordic_dongle(0x1915, 0xC00A));
    assert!(!h5_transport::transport::is_nordic_dongle(0x1915, 0x0000));
    assert!(!h5_transport::transport::is_nordic_dongle(0x0000, 0xC00A));
}
