use smbioslib::{
    header_from_bytes, parse_strings, DecodeError, DefinedStruct, DefinedStructTable, Header,
    SMBiosData, SMBiosVersion,
};

fn data(bytes: &[u8]) -> SMBiosData {
    SMBiosData::from_vec_and_version(bytes.to_vec(), None)
}

#[test]
fn end_of_table_alone_decodes_to_one_structure() {
    let d = data(&[127, 4, 0x00, 0x00, 0, 0]);
    let walk = d.walk();
    assert_eq!(walk.structs.len(), 1);
    assert_eq!(walk.error, None);
    assert_eq!(walk.structs[0].byte_length(), 6);
    let (table, error) = d.decode();
    assert_eq!(error, None);
    assert_eq!(table.len(), 1);
    assert!(matches!(table.get(0), Some(DefinedStruct::EndOfTable(_))));
}

#[test]
fn walk_stops_after_end_of_table() {
    let d = data(&[127, 4, 0x00, 0x00, 0, 0, 1, 4, 0x01, 0x00, 0, 0]);
    let walk = d.walk();
    assert_eq!(walk.structs.len(), 1);
    assert_eq!(walk.error, None);
}

#[test]
fn walk_spans_tile_the_table() {
    let bytes = [
        0, 5, 0x01, 0x00, 0x01, b'A', b'B', 0, b'C', 0, 0, // type 0 with two strings
        200, 4, 0x02, 0x00, 0, 0, // OEM type, no strings
        127, 4, 0x03, 0x00, 0, 0,
    ];
    let d = data(&bytes);
    let walk = d.walk();
    assert_eq!(walk.error, None);
    assert_eq!(walk.structs.len(), 3);
    let mut at = 0usize;
    for p in walk.structs.iter() {
        assert_eq!(p.offset(), at);
        at += p.byte_length();
    }
    assert_eq!(at, bytes.len());
    assert_eq!(walk.structs[0].byte_length(), 11);
    assert_eq!(walk.structs[0].string_count(), 2);
    assert_eq!(walk.structs[1].string_count(), 0);
}

#[test]
fn walk_reports_truncated_formatted_area() {
    let d = data(&[127, 4, 0x00, 0x00, 0, 0]);
    assert_eq!(d.walk().error, None);
    let d = data(&[0, 5, 0x01, 0x00, 0x11, 0, 0, 1, 20, 0x02, 0x00]);
    let walk = d.walk();
    assert_eq!(walk.structs.len(), 1);
    assert_eq!(walk.error, Some(DecodeError::TruncatedStructure(7)));
}

#[test]
fn walk_reports_missing_terminator() {
    let d = data(&[1, 4, 0x01, 0x00, b'X', 0]);
    let walk = d.walk();
    assert_eq!(walk.structs.len(), 0);
    assert_eq!(walk.error, Some(DecodeError::TruncatedStructure(0)));
}

#[test]
fn walk_reports_short_header_and_bad_length() {
    let d = data(&[1, 4]);
    assert_eq!(d.walk().error, Some(DecodeError::TruncatedStructure(0)));
    let d = data(&[1, 3, 0x00, 0x00, 0, 0]);
    assert_eq!(d.walk().error, Some(DecodeError::TruncatedStructure(0)));
    let (table, error) = d.decode();
    assert_eq!(table.len(), 0);
    assert_eq!(error, Some(DecodeError::TruncatedStructure(0)));
}

#[test]
fn empty_table_yields_nothing() {
    let d = data(&[]);
    let walk = d.walk();
    assert_eq!(walk.structs.len(), 0);
    assert_eq!(walk.error, None);
}

#[test]
fn string_lookup_by_index() {
    let d = data(&[11, 5, 0x10, 0x00, 3, b'o', b'n', b'e', 0, b't', b'w', b'o', 0, 0]);
    let walk = d.walk();
    let p = &walk.structs[0];
    assert_eq!(p.get_string(0), None);
    assert_eq!(p.get_string(1), Some(&b"one"[..]));
    assert_eq!(p.get_string(2), Some(&b"two"[..]));
    assert_eq!(p.get_string(3), Some(&b""[..]));
    assert_eq!(p.get_string(255), Some(&b""[..]));
    assert_eq!(p.get_field_string(4), Some(Some(&b""[..])));
    assert_eq!(p.get_field_string(5), None);
}

#[test]
fn string_table_keeps_leading_empty_string() {
    let parsed = parse_strings(&[0, b'A', b'B']);
    assert_eq!(parsed.len(), 2);
    assert_eq!(parsed[0], &b""[..]);
    assert_eq!(parsed[1], &b"AB"[..]);
    assert_eq!(parse_strings(&[]).len(), 0);
    assert_eq!(parse_strings(&[b'Q']), vec![&b"Q"[..]]);
}

#[test]
fn fields_past_declared_length_are_absent() {
    let d = data(&[
        2, 9, 0x34, 0x12, 0x01, 0x02, 0x03, 0x04, 0x05, b'S', 0, 0,
    ]);
    let walk = d.walk();
    let p = &walk.structs[0];
    assert_eq!(p.header(), Header { struct_type: 2, length: 9, handle: 0x1234 });
    assert_eq!(p.get_field_byte(8), Some(0x05));
    assert_eq!(p.get_field_byte(9), None);
    assert_eq!(p.get_field_byte(0x20), None);
    assert_eq!(p.get_field_word(4), Some(0x0201));
    assert_eq!(p.get_field_word(7), Some(0x0504));
    assert_eq!(p.get_field_word(8), None);
    assert_eq!(p.get_field_dword(4), Some(0x0403_0201));
    assert_eq!(p.get_field_dword(5), Some(0x0504_0302));
    assert_eq!(p.get_field_dword(6), None);
    assert_eq!(p.get_field_dword(usize::MAX), None);
    assert_eq!(p.get_field_string(4), Some(Some(&b"S"[..])));
    assert_eq!(p.get_field_string(usize::MAX), None);
}

#[test]
fn header_decodes_little_endian_handle() {
    assert_eq!(
        header_from_bytes(&[17, 40, 0xCD, 0xAB]),
        Header { struct_type: 17, length: 40, handle: 0xABCD }
    );
}

#[test]
fn every_discriminant_dispatches() {
    for t in 0..=255u8 {
        let bytes = [t, 4, 0x00, 0x00, 0, 0];
        let d = data(&bytes);
        let walk = d.walk();
        let table = DefinedStructTable::from_parts(walk.structs);
        let s = table.get(0).unwrap();
        assert_eq!(s.struct_type(), t);
        let unknown = matches!(s, DefinedStruct::Unknown(_));
        assert_eq!(unknown, !(t <= 44 || t == 126 || t == 127));
    }
}

#[test]
fn named_discriminants_pick_their_variant() {
    let cases: [(u8, fn(&DefinedStruct) -> bool); 6] = [
        (0, |s| matches!(s, DefinedStruct::Information(_))),
        (1, |s| matches!(s, DefinedStruct::SystemInformation(_))),
        (17, |s| matches!(s, DefinedStruct::MemoryDevice(_))),
        (44, |s| matches!(s, DefinedStruct::ProcessorAdditionalInformation(_))),
        (126, |s| matches!(s, DefinedStruct::Inactive(_))),
        (45, |s| matches!(s, DefinedStruct::Unknown(_))),
    ];
    for (t, check) in cases.iter() {
        let bytes = [*t, 4, 0x00, 0x00, 0, 0];
        let d = data(&bytes);
        let (table, _) = d.decode();
        assert!(check(table.get(0).unwrap()));
    }
}

#[test]
fn lookup_by_handle_and_type() {
    let bytes = [
        4, 4, 0x01, 0x00, 0, 0, //
        7, 4, 0x02, 0x00, 0, 0, //
        4, 4, 0x02, 0x00, 0, 0, // duplicate handle
        127, 4, 0x03, 0x00, 0, 0,
    ];
    let d = data(&bytes);
    let (table, error) = d.decode();
    assert_eq!(error, None);
    assert_eq!(table.len(), 4);
    assert_eq!(table.find_by_handle(2), Some(1));
    assert_eq!(table.find_by_handle(3), Some(3));
    assert_eq!(table.find_by_handle(9), None);
    assert_eq!(table.find_by_type(4), vec![0, 2]);
    assert_eq!(table.find_by_type(7), vec![1]);
    assert_eq!(table.find_by_type(5), Vec::<usize>::new());
    assert_eq!(table.get(1).unwrap().handle(), 2);
    assert!(table.get(4).is_none());
}

#[test]
fn collection_is_built_in_order() {
    let mut t = DefinedStructTable::new();
    assert_eq!(t.len(), 0);
    let d = data(&[9, 4, 0x05, 0x00, 0, 0, 10, 4, 0x06, 0x00, 0, 0]);
    let walk = d.walk();
    for p in walk.structs {
        t.add(DefinedStruct::from_parts(p));
    }
    assert_eq!(t.len(), 2);
    assert!(matches!(t.get(0), Some(DefinedStruct::SystemSlot(_))));
    assert!(matches!(t.get(1), Some(DefinedStruct::OnBoardDeviceInformation(_))));
}

#[test]
fn envelope_payload_walks() {
    let raw = vec![0x00u8, 0x03, 0x03, 0x00, 0x06, 0x00, 0x00, 0x00, 127, 4, 0x00, 0x00, 0, 0];
    let w = smbioslib::WinSMBiosData::new(raw).unwrap();
    let (table, error) = w.smbios_data().decode();
    assert_eq!(error, None);
    assert!(matches!(table.get(0), Some(DefinedStruct::EndOfTable(_))));
    assert_eq!(table.get(0).unwrap().parts().fields(), &[127u8, 4, 0, 0][..]);
}

#[test]
fn version_gated_fields_need_a_reported_version() {
    let bytes = [4, 6, 0x01, 0x00, 0x11, 0x22, 0, 0];
    let with = SMBiosData::from_vec_and_version(
        bytes.to_vec(),
        Some(SMBiosVersion { major: 3, minor: 2, revision: 0 }),
    );
    let walk = with.walk();
    let p = &walk.structs[0];
    assert_eq!(p.version(), Some(SMBiosVersion { major: 3, minor: 2, revision: 0 }));
    assert!(p.version_at_least(3, 2));
    assert!(p.version_at_least(2, 8));
    assert!(!p.version_at_least(3, 3));
    assert_eq!(p.get_field_byte_since(5, 3, 0), Some(0x22));
    assert_eq!(p.get_field_byte_since(5, 3, 4), None);
    assert_eq!(p.get_field_byte_since(6, 2, 0), None);

    let without = data(&bytes);
    let walk = without.walk();
    let p = &walk.structs[0];
    assert!(!p.version_at_least(0, 0));
    assert_eq!(p.get_field_byte_since(5, 2, 0), None);
    assert_eq!(p.get_field_byte(5), Some(0x22));
}

#[test]
fn walk_can_start_at_an_offset() {
    let bytes = [
        4, 4, 0x01, 0x00, 0, 0, //
        7, 4, 0x02, 0x00, 0, 0, //
        127, 4, 0x03, 0x00, 0, 0,
    ];
    let d = data(&bytes);
    let walk = d.walk_at(6);
    assert_eq!(walk.error, None);
    assert_eq!(walk.structs.len(), 2);
    assert_eq!(walk.structs[0].offset(), 6);
    assert_eq!(walk.structs[0].header().handle, 2);
    assert_eq!(walk.structs[1].offset(), 12);
    assert_eq!(d.walk_at(18).structs.len(), 0);
    assert_eq!(d.walk_at(100).error, None);
    let bad = d.walk_at(16);
    assert_eq!(bad.structs.len(), 0);
    assert_eq!(bad.error, Some(DecodeError::TruncatedStructure(16)));
}
