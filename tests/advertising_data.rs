use zephyr_rust_wrappers::bluetooth::data::{
    decode_sequence, encode_sequence, parse_record, BtData, UuidList, BT_DATA_UUID128_ALL,
    BT_DATA_UUID16_ALL,
};
use zephyr_rust_wrappers::bluetooth::uuid::BtUuid;
use zephyr_rust_wrappers::network::NetworkBufferSimple;

fn single(bytes: &[u8]) -> BtData {
    let mut v = decode_sequence(bytes);
    assert_eq!(v.len(), 1);
    v.remove(0)
}

#[test]
fn complete_name_encodes_as_type_length_value() {
    let r = BtData::CompleteName("abc".to_string());
    assert_eq!(r.encode(), vec![0x09, 0x04, b'a', b'b', b'c']);
    assert_eq!(r.type_number(), 0x09);
    assert_eq!(r.raw().type_(), 0x09);
    assert_eq!(r.raw().data(), &vec![b'a', b'b', b'c']);
}

#[test]
fn complete_16_bit_uuid_list_encodes_two_bytes_per_uuid() {
    let r = BtData::UuidAll(UuidList::Short16(vec![0x180D]));
    let e = r.encode();
    assert_eq!(e[0], BT_DATA_UUID16_ALL);
    assert_eq!(e[0], 0x03);
    assert_eq!(e.len() - 2, 2 * 1);
    assert_eq!(e, vec![0x03, 0x03, 0x0D, 0x18]);
    let two = BtData::UuidAll(UuidList::Short16(vec![0x180D, 0x180F]));
    assert_eq!(two.data().len(), 2 * 2);
}

#[test]
fn incomplete_and_wider_lists_pick_their_types() {
    assert_eq!(BtData::UuidIncomplete(UuidList::Short16(vec![])).type_number(), 0x02);
    assert_eq!(BtData::UuidIncomplete(UuidList::Short32(vec![1])).type_number(), 0x04);
    assert_eq!(BtData::UuidAll(UuidList::Short32(vec![1])).type_number(), 0x05);
    assert_eq!(BtData::UuidIncomplete(UuidList::Full128(vec![])).type_number(), 0x06);
    assert_eq!(BtData::UuidAll(UuidList::Full128(vec![])).type_number(), BT_DATA_UUID128_ALL);
    assert_eq!(
        BtData::UuidAll(UuidList::Short32(vec![0x0102_0304])).data(),
        vec![0x04, 0x03, 0x02, 0x01]
    );
}

#[test]
fn flags_round_trip_including_zero() {
    for f in [0u8, 0x06, 0xFF] {
        let e = BtData::Flags(f).encode();
        assert_eq!(e, vec![0x01, 0x02, f]);
        match single(&e) {
            BtData::Flags(g) => assert_eq!(g, f),
            other => panic!("unexpected {:?}", other),
        }
    }
}

#[test]
fn names_round_trip_including_empty() {
    for name in ["", "abc", "héllo wörld"] {
        match single(&BtData::CompleteName(name.to_string()).encode()) {
            BtData::CompleteName(s) => assert_eq!(s, name),
            other => panic!("unexpected {:?}", other),
        }
        match single(&BtData::ShortenedName(name.to_string()).encode()) {
            BtData::ShortenedName(s) => assert_eq!(s, name),
            other => panic!("unexpected {:?}", other),
        }
    }
    assert_eq!(BtData::CompleteName(String::new()).encode(), vec![0x09, 0x01]);
}

#[test]
fn invalid_utf8_name_is_decoded_lossily() {
    match single(&[0x08, 0x03, b'a', 0xFF]) {
        BtData::ShortenedName(s) => assert_eq!(s, "a\u{FFFD}"),
        other => panic!("unexpected {:?}", other),
    }
}

#[test]
fn uuid_lists_round_trip() {
    match single(&BtData::UuidAll(UuidList::Short16(vec![0x180D, 0x180F])).encode()) {
        BtData::UuidAll(UuidList::Short16(v)) => assert_eq!(v, vec![0x180D, 0x180F]),
        other => panic!("unexpected {:?}", other),
    }
    match single(&BtData::UuidIncomplete(UuidList::Short32(vec![0xDEAD_BEEF])).encode()) {
        BtData::UuidIncomplete(UuidList::Short32(v)) => assert_eq!(v, vec![0xDEAD_BEEF]),
        other => panic!("unexpected {:?}", other),
    }
    let a = BtUuid::from(0x180Du16);
    let b = BtUuid::from_bytes([9; 16]);
    match single(&BtData::UuidAll(UuidList::Full128(vec![a, b])).encode()) {
        BtData::UuidAll(UuidList::Full128(v)) => {
            assert_eq!(v.len(), 2);
            assert_eq!(v[0].as_bytes(), a.as_bytes());
            assert_eq!(v[1].as_bytes(), b.as_bytes());
        }
        other => panic!("unexpected {:?}", other),
    }
}

#[test]
fn uuid_list_payload_drops_a_partial_trailing_uuid() {
    let mut bytes = vec![0x07, 18];
    bytes.extend_from_slice(&[7u8; 17]);
    match single(&bytes) {
        BtData::UuidAll(UuidList::Full128(v)) => {
            assert_eq!(v.len(), 1);
            assert_eq!(v[0].as_bytes(), [7u8; 16]);
        }
        other => panic!("unexpected {:?}", other),
    }
}

#[test]
fn unknown_types_keep_their_payload() {
    let r = BtData::UnknownType(0xFF, vec![1, 2, 3]);
    assert_eq!(r.encode(), vec![0xFF, 0x04, 1, 2, 3]);
    match single(&r.encode()) {
        BtData::UnknownType(t, p) => {
            assert_eq!(t, 0xFF);
            assert_eq!(p, vec![1, 2, 3]);
        }
        other => panic!("unexpected {:?}", other),
    }
    match single(&[0x01, 0x03, 1, 2]) {
        BtData::UnknownType(t, p) => {
            assert_eq!(t, 0x01);
            assert_eq!(p, vec![1, 2]);
        }
        other => panic!("unexpected {:?}", other),
    }
}

#[test]
fn truncated_header_after_a_record_stops_the_scan() {
    let mut bytes = BtData::CompleteName("abc".to_string()).encode();
    bytes.push(0x01);
    let v = decode_sequence(&bytes);
    assert_eq!(v.len(), 1);
    match &v[0] {
        BtData::CompleteName(s) => assert_eq!(s, "abc"),
        other => panic!("unexpected {:?}", other),
    }
}

#[test]
fn overrunning_payload_and_zero_length_stop_the_scan() {
    let v = decode_sequence(&[0x01, 0x02, 0x06, 0x09, 0x05, b'a']);
    assert_eq!(v.len(), 1);
    assert!(matches!(v[0], BtData::Flags(0x06)));
    let v = decode_sequence(&[0x01, 0x00, 0x01, 0x02, 0x06]);
    assert!(v.is_empty());
    assert!(decode_sequence(&[]).is_empty());
}

#[test]
fn sequences_concatenate_and_decode_in_order() {
    let records = vec![
        BtData::Flags(0x06),
        BtData::UuidAll(UuidList::Short16(vec![0x180D])),
        BtData::CompleteName("hr".to_string()),
    ];
    let bytes = encode_sequence(&records);
    assert_eq!(
        bytes,
        vec![0x01, 0x02, 0x06, 0x03, 0x03, 0x0D, 0x18, 0x09, 0x03, b'h', b'r']
    );
    let back = decode_sequence(&bytes);
    assert_eq!(back.len(), 3);
    assert!(matches!(back[0], BtData::Flags(0x06)));
    assert!(matches!(&back[1], BtData::UuidAll(UuidList::Short16(v)) if v == &vec![0x180D]));
    assert!(matches!(&back[2], BtData::CompleteName(s) if s == "hr"));
}

#[test]
fn parse_record_reports_the_next_position() {
    let bytes = [0x01, 0x02, 0x06, 0x09, 0x02, b'x'];
    let (first, next) = parse_record(&bytes, 0).unwrap();
    assert!(matches!(first, BtData::Flags(0x06)));
    assert_eq!(next, 3);
    let (second, end) = parse_record(&bytes, next).unwrap();
    assert!(matches!(&second, BtData::CompleteName(s) if s == "x"));
    assert_eq!(end, 6);
    assert!(parse_record(&bytes, end).is_none());
}

#[test]
fn from_raw_reads_one_record() {
    assert!(matches!(BtData::from_raw(0x01, &[0x04]), BtData::Flags(0x04)));
    assert!(matches!(BtData::from_raw(0x09, b"ab"), BtData::CompleteName(s) if s == "ab"));
}

#[test]
fn network_buffer_parses_the_bytes_it_holds() {
    let raw = [0x01, 0x02, 0x06, 0x09, 0x02, b'x', 0xEE];
    let buf = NetworkBufferSimple::new(&raw, 6, 32);
    assert_eq!(buf.data(), &raw[0..6]);
    assert_eq!(buf.size(), 32);
    let v = buf.parse_bt_data();
    assert_eq!(v.len(), 2);
    assert!(matches!(&v[1], BtData::CompleteName(s) if s == "x"));
}
