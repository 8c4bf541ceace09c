use zephyr_rust_wrappers::bluetooth::api::{ApiContainer, Api, RawAdvertisementHandle};
use zephyr_rust_wrappers::bluetooth::data::{BtData, UuidList};
use zephyr_rust_wrappers::bluetooth::le::{
    AddressType, AddressWrapper, AdvertisementFlags, AdvertisementOptions, AdvertisementParameters,
    ConnectionCreationParameters, ConnectionParameters, LeAddress, ScanOptions, ScanParameters,
    ScanType, LE_ADV_OPT_CONNECTABLE, LE_ADV_OPT_USE_NAME, LE_AD_GENERAL, LE_AD_NO_BREDR,
    LE_SCAN_OPT_CODED, LE_SCAN_OPT_FILTER_DUPLICATE, LE_SCAN_TYPE_ACTIVE,
};
use zephyr_rust_wrappers::gpio::pin_mask;
use zephyr_rust_wrappers::sensor::SensorValue;
use zephyr_rust_wrappers::ErrorNumber;

#[test]
fn the_capability_is_handed_out_once() {
    let mut container = ApiContainer::new();
    assert!(container.has_api());
    let first = container.take_api();
    assert!(first.is_some());
    assert!(!container.has_api());
    let second = container.take_api();
    assert!(second.is_none());
}

#[test]
fn enabling_keeps_the_capability_only_on_success() {
    let mut container = ApiContainer::new();
    let api = container.take_api().unwrap();
    let api = api.enabled(0).unwrap();
    assert!(api.host_result(0).is_ok());
    let e = api.host_result(-128).unwrap_err();
    assert_eq!(e.number(), ErrorNumber::NotConnected);
    assert_eq!(e.context_name(), Some("bluetooth"));
    let e = api.enabled(-88).err().unwrap();
    assert_eq!(e.number(), ErrorNumber::NotImplemented);
}

#[test]
fn names_with_a_zero_byte_are_refused() {
    assert!(Api::check_name("sensor").is_ok());
    assert!(Api::check_name("").is_ok());
    let e = Api::check_name("bad\0name").unwrap_err();
    assert_eq!(e.number(), ErrorNumber::NotImplemented);
    assert_eq!(e.message(), "[bluetooth]: 88: Function not implemented");
}

#[test]
fn advertisement_handle_holds_the_raw_records() {
    let options = AdvertisementOptions::from_bits_truncate(LE_ADV_OPT_CONNECTABLE)
        .union(AdvertisementOptions::from_bits_truncate(LE_ADV_OPT_USE_NAME));
    let params = AdvertisementParameters::new(0, 1, 2, options, 0x30, 0x60, None);
    let ad = [
        BtData::Flags(LE_AD_GENERAL | LE_AD_NO_BREDR),
        BtData::UuidAll(UuidList::Short16(vec![0x180D])),
    ];
    let handle = RawAdvertisementHandle::new(&params, Some(&ad), None);
    assert_eq!(handle.ad_len(), 2);
    assert_eq!(handle.sd_len(), 0);
    let raw = handle.raw_ad_data.as_ref().unwrap();
    assert_eq!(raw[0].type_(), 0x01);
    assert_eq!(raw[0].data(), &vec![0x06]);
    assert_eq!(raw[1].type_(), 0x03);
    assert_eq!(raw[1].data(), &vec![0x0D, 0x18]);
    assert!(handle.raw_sd_data.is_none());
    assert_eq!(handle.adv_param.options, 0x09);
    assert_eq!(handle.adv_param.sid, 1);
    assert_eq!(handle.adv_param.secondary_max_skip, 2);
    assert_eq!(handle.adv_param.interval_min, 0x30);
    assert_eq!(handle.adv_param.interval_max, 0x60);
    assert!(handle.adv_param.peer.is_none());
}

#[test]
fn advertisement_peer_is_converted() {
    let peer = LeAddress::new(AddressType::RandomId, [1, 2, 3, 4, 5, 6]);
    let params = AdvertisementParameters::new(
        3,
        0,
        0,
        AdvertisementOptions::from_bits_truncate(0),
        100,
        200,
        Some(peer),
    );
    let raw = params.to_raw();
    assert_eq!(raw.id, 3);
    assert_eq!(raw.options, 0);
    let w = raw.peer.unwrap();
    assert_eq!(w.type_, 0x03);
    assert_eq!(w.address(), &[1, 2, 3, 4, 5, 6]);
    assert_eq!(w.address_type(), AddressType::RandomId);
}

#[test]
fn scan_parameters_flatten_to_bits() {
    let options = ScanOptions::from_bits_truncate(LE_SCAN_OPT_FILTER_DUPLICATE | LE_SCAN_OPT_CODED | 0x100);
    assert_eq!(options.bits(), 0x05);
    assert!(options.contains(ScanOptions::from_bits_truncate(LE_SCAN_OPT_CODED)));
    let p = ScanParameters::new(
        ScanType::from_bits_truncate(LE_SCAN_TYPE_ACTIVE),
        options,
        0x60,
        0x30,
        0,
        0x90,
        0x45,
    );
    let raw = p.to_raw();
    assert_eq!(raw.type_, 0x01);
    assert_eq!(raw.options, 0x05);
    assert_eq!(raw.interval, 0x60);
    assert_eq!(raw.window, 0x30);
    assert_eq!(raw.timeout, 0);
    assert_eq!(raw.interval_coded, 0x90);
    assert_eq!(raw.window_coded, 0x45);
}

#[test]
fn advertisement_flags_are_a_bit_set() {
    let f = AdvertisementFlags::from_bits_truncate(LE_AD_GENERAL)
        .union(AdvertisementFlags::from_bits_truncate(LE_AD_NO_BREDR));
    assert_eq!(f.bits(), 0x06);
    assert!(f.contains(AdvertisementFlags::from_bits_truncate(LE_AD_GENERAL)));
    assert!(!f.contains(AdvertisementFlags::from_bits_truncate(0x01)));
    assert_eq!(AdvertisementFlags::from_bits_truncate(0xF8).bits(), 0);
    assert_eq!(AdvertisementOptions::from_bits_truncate(0xFFFF_FFFF).bits(), 0x0004_0009);
}

#[test]
fn address_types_from_numbers() {
    assert_eq!(AddressType::from(0), AddressType::Public);
    assert_eq!(AddressType::from(1), AddressType::Random);
    assert_eq!(AddressType::from(2), AddressType::PublicId);
    assert_eq!(AddressType::from(3), AddressType::RandomId);
    assert_eq!(AddressType::from(9), AddressType::Other(9));
    assert_eq!(AddressType::Other(9).number(), 9);
    let w = AddressWrapper { type_: 1, val: [6, 5, 4, 3, 2, 1] };
    assert_eq!(w.address_type(), AddressType::Random);
}

#[test]
fn default_connection_parameters() {
    let c = ConnectionParameters::default();
    assert_eq!((c.interval_min, c.interval_max, c.latency, c.timeout), (0x18, 0x28, 0, 400));
    let c = ConnectionCreationParameters::default();
    assert_eq!(c.interval, 0x60);
    assert_eq!(c.window, 0x30);
    assert_eq!((c.options, c.interval_coded, c.window_coded, c.timeout), (0, 0, 0, 0));
}

#[test]
fn sensor_values_from_integers() {
    let v = SensorValue::from(-7);
    assert_eq!(v, SensorValue { val1: -7, val2: 0 });
    assert_eq!(i32::from(SensorValue { val1: 12, val2: 500_000 }), 12);
}

#[test]
fn pin_masks() {
    assert_eq!(pin_mask(0), 1);
    assert_eq!(pin_mask(5), 0x20);
    assert_eq!(pin_mask(31), 0x8000_0000);
}

#[test]
fn address_texts() {
    assert_eq!(AddressType::Public.description(), "public");
    assert_eq!(AddressType::RandomId.description(), "random-id");
    assert_eq!(AddressType::Other(0x2A).description(), "unknown: 0x2a");
    let a = LeAddress::new(AddressType::Random, [0x01, 0x02, 0x03, 0x0a, 0xbc, 0xff]);
    assert_eq!(a.description(), "ff:bc:0a:03:02:01 (random)");
    let w = AddressWrapper { type_: 7, val: [0, 1, 2, 3, 4, 5] };
    assert_eq!(w.description(), "05:04:03:02:01:00 (unknown: 0x07)");
}
