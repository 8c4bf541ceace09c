use zephyr_rust_wrappers::bluetooth::uuid::{
    compare_uuids, uuid16, BtUuid, BtUuid128, BtUuid16, BtUuid32, RawUuid,
};

const BASE_TAIL: [u8; 12] = [0x00, 0x00, 0x10, 0x00, 0x80, 0x00, 0x00, 0x80, 0x5F, 0x9B, 0x34, 0xFB];

#[test]
fn expand_16_bit_uuid_fills_the_base_uuid() {
    let full = BtUuid::from(0x180Du16);
    let bytes = full.as_bytes();
    assert_eq!(&bytes[0..4], &[0x00, 0x00, 0x18, 0x0D]);
    assert_eq!(&bytes[4..16], &BASE_TAIL);
}

#[test]
fn expand_32_bit_uuid_fills_the_base_uuid() {
    let full = BtUuid::from(0x1234_5678u32);
    let bytes = full.as_bytes();
    assert_eq!(&bytes[0..4], &[0x12, 0x34, 0x56, 0x78]);
    assert_eq!(&bytes[4..16], &BASE_TAIL);
}

#[test]
fn short_uuids_round_trip_through_the_full_form() {
    for n in [0u16, 1, 0x180D, 0x2800, 0xFFFF] {
        let full = BtUuid::from(n);
        assert_eq!(BtUuid16::from(full).val, n);
    }
    for n in [0u32, 1, 0x180D, 0x1234_5678, 0xFFFF_FFFF] {
        let full = BtUuid::from(n);
        assert_eq!(BtUuid32::from(full).val, n);
    }
}

#[test]
fn typed_short_uuids_expand_like_their_values() {
    assert_eq!(
        BtUuid::from(uuid16(0x2803)).as_bytes(),
        BtUuid::from(0x2803u16).as_bytes()
    );
    assert_eq!(
        BtUuid::from(BtUuid32 { val: 0xABCD_0001 }).as_bytes(),
        BtUuid::from(0xABCD_0001u32).as_bytes()
    );
}

#[test]
fn service_uuid_32_is_the_expanded_value() {
    let s = BtUuid::service_uuid_32(0x0000_180F);
    assert_eq!(s.as_bytes(), BtUuid::from(0x0000_180Fu32).as_bytes());
    assert_eq!(&s.as_bytes()[0..4], &[0x00, 0x00, 0x18, 0x0F]);
}

#[test]
fn from_uuid_reverses_the_standard_byte_order() {
    let standard = *uuid::Uuid::parse_str("12345678-9abc-def0-1122-334455667788")
        .unwrap()
        .as_bytes();
    let bt = BtUuid::from_uuid(standard);
    let mut reversed = standard;
    reversed.reverse();
    assert_eq!(bt.as_bytes(), reversed);
    assert_eq!(bt.as_bytes()[0], 0x88);
    assert_eq!(bt.as_bytes()[15], 0x12);
}

#[test]
fn from_bytes_keeps_the_order() {
    let bytes: [u8; 16] = [1, 2, 3, 4, 5, 6, 7, 8, 9, 10, 11, 12, 13, 14, 15, 16];
    assert_eq!(BtUuid::from_bytes(bytes).as_bytes(), bytes);
    assert_eq!(BtUuid::from_bytes(bytes).to_uuid128().val, bytes);
    assert_eq!(BtUuid128::from(BtUuid::from_bytes(bytes)).val, bytes);
    assert_eq!(BtUuid::from(BtUuid128 { val: bytes }).as_bytes(), bytes);
}

#[test]
fn reduce_reads_the_leading_field_most_significant_first() {
    let mut bytes = [0u8; 16];
    bytes[0] = 0xAA;
    bytes[1] = 0xBB;
    bytes[2] = 0xCC;
    bytes[3] = 0xDD;
    let full = BtUuid::from_bytes(bytes);
    assert_eq!(BtUuid32::from(full).val, 0xAABB_CCDD);
    assert_eq!(BtUuid16::from(full).val, 0xCCDD);
}

#[test]
fn compare_is_width_sensitive() {
    let a = uuid16(0x1234);
    let b = uuid16(0x1234);
    assert!(compare_uuids(&a.raw(), &b.raw()));
    let c = BtUuid32 { val: 0x1234 };
    assert!(!compare_uuids(&a.raw(), &c.raw()));
    assert!(!compare_uuids(&a.raw(), &uuid16(0x1235).raw()));
}

#[test]
fn compare_full_uuids_by_bytes() {
    let x = BtUuid::from(0x180Du16).to_uuid128();
    let y = BtUuid::from(0x180Du16).to_uuid128();
    let z = BtUuid::from(0x180Eu16).to_uuid128();
    assert!(compare_uuids(&x.raw(), &y.raw()));
    assert!(!compare_uuids(&x.raw(), &z.raw()));
    assert!(compare_uuids(&RawUuid::Short32(7), &RawUuid::Short32(7)));
    assert!(!compare_uuids(&RawUuid::Short32(7), &x.raw()));
}

#[test]
fn full_uuids_compare_by_bytes() {
    assert_eq!(BtUuid::from(0x180Du16), BtUuid::from(0x180Du32));
    assert_ne!(BtUuid::from(0x180Du16), BtUuid::from(0x180Eu16));
}
