use zephyr_rust_wrappers::bluetooth::gatt::{
    dispatch_read, dispatch_write, gatt_attribute, gatt_characteristic, gatt_primary_service,
    AttributeReadCallback, AttributeWriteCallback, DiscoverParameters, GattAttribute, GattService,
    NotifyParams, ReadDispatch, UserData, WriteDispatch, GATT_DISCOVER_PRIMARY, GATT_PERM_READ,
    GATT_PERM_WRITE,
};
use zephyr_rust_wrappers::bluetooth::uuid::{compare_uuids, uuid16, BtUuid, RawUuid};
use zephyr_rust_wrappers::ErrorNumber;

fn handles(s: &GattService) -> Vec<u16> {
    (0..s.len()).map(|i| s.attribute(i).handle).collect()
}

#[test]
fn auto_assigned_handles_increase_in_declaration_order() {
    let heart_rate = uuid16(0x180D).raw();
    let measurement = uuid16(0x2A37).raw();
    let (decl, value) = gatt_characteristic(
        measurement,
        0x10,
        GATT_PERM_READ,
        Some(AttributeReadCallback::Typed(0)),
        None,
        UserData::Application(7),
    );
    let mut service = GattService::new(vec![gatt_primary_service(heart_rate), decl, value]);
    assert_eq!(handles(&service), vec![0, 0, 0]);
    let last = service.assign_handles(0).unwrap();
    assert_eq!(handles(&service), vec![1, 2, 3]);
    assert_eq!(last, 3);
    assert!(compare_uuids(&service.attribute(0).uuid, &uuid16(0x2800).raw()));
    assert!(compare_uuids(&service.attribute(1).uuid, &uuid16(0x2803).raw()));
    assert!(compare_uuids(&service.attribute(2).uuid, &measurement));
}

#[test]
fn preset_handles_are_kept_and_others_follow() {
    let u = RawUuid::Short16(0x2A00);
    let mut service = GattService::new(vec![
        GattAttribute::new(u, None, None, UserData::Nothing, 0, GATT_PERM_READ),
        GattAttribute::new(u, None, None, UserData::Nothing, 10, GATT_PERM_READ),
        GattAttribute::new(u, None, None, UserData::Nothing, 0, GATT_PERM_READ),
    ]);
    assert_eq!(service.assign_handles(4).unwrap(), 11);
    assert_eq!(handles(&service), vec![5, 10, 11]);
}

#[test]
fn handles_that_do_not_increase_are_refused() {
    let u = RawUuid::Short16(0x2A00);
    let mut service = GattService::new(vec![
        GattAttribute::new(u, None, None, UserData::Nothing, 5, GATT_PERM_READ),
        GattAttribute::new(u, None, None, UserData::Nothing, 5, GATT_PERM_READ),
    ]);
    let e = service.assign_handles(0).unwrap_err();
    assert_eq!(e.number(), ErrorNumber::Other(22));
    assert_eq!(handles(&service), vec![5, 5]);

    let mut full = GattService::new(vec![gatt_attribute(u, GATT_PERM_READ, None, None, UserData::Nothing)]);
    assert!(full.assign_handles(0xFFFF).is_err());
    let mut empty = GattService::new(vec![]);
    assert_eq!(empty.assign_handles(9).unwrap(), 9);
}

#[test]
fn dispatch_picks_the_populated_handler() {
    let u = RawUuid::Short16(0x2A00);
    let a = GattAttribute::new(
        u,
        Some(AttributeReadCallback::Native(3)),
        Some(AttributeWriteCallback::Typed(4)),
        UserData::Application(1),
        0,
        GATT_PERM_READ | GATT_PERM_WRITE,
    );
    assert_eq!(dispatch_read(&a), ReadDispatch::Native(3));
    assert_eq!(dispatch_write(&a), WriteDispatch::Typed(4));
    let s = gatt_primary_service(u);
    assert_eq!(dispatch_read(&s), ReadDispatch::ServiceDeclaration);
    let (d, v) = gatt_characteristic(u, 0x02, GATT_PERM_READ, None, Some(AttributeWriteCallback::Native(9)), UserData::Nothing);
    assert_eq!(dispatch_read(&d), ReadDispatch::CharacteristicDeclaration);
    assert_eq!(dispatch_write(&v), WriteDispatch::Native(9));
    assert!(v.read.is_none());
    match d.user_data {
        UserData::Characteristic(c) => {
            assert_eq!(c.properties, 0x02);
            assert_eq!(c.value_handle, 0);
            assert!(compare_uuids(&c.uuid, &u));
        }
        other => panic!("unexpected {:?}", other),
    }
}

#[test]
fn notify_and_discover_parameters() {
    let uuid = BtUuid::from(0x2A37u16).to_uuid128();
    let n = NotifyParams::by_uuid(&uuid, &[1, 2, 3]);
    assert_eq!(n.len, 3);
    assert_eq!(n.data, vec![1, 2, 3]);
    assert_eq!(n.uuid.val, uuid.val);
    let d = DiscoverParameters::new(&uuid, 2, 1, 0xFFFF, GATT_DISCOVER_PRIMARY);
    assert_eq!((d.discover_cb, d.start_handle, d.end_handle, d.type_), (2, 1, 0xFFFF, 0));
}
