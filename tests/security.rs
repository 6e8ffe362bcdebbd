use winstructs::guid::Guid;
use winstructs::security::{
    check_acl, Ace, AceData, AceFlags, AceObjectFlags, AceType, Acl, Authority, SdControlFlags,
    SecDescHeader, SecurityDescriptor, Sid, SubAuthority, SubAuthorityList,
};
use winstructs::{ByteCursor, Error};

const HEADER_BYTES: [u8; 22] = [
    0x01, 0x00, 0x04, 0x98, 0x98, 0x00, 0x00, 0x00, 0xA4, 0x00, 0x00, 0x00, 0x00, 0x00, 0x00, 0x00,
    0x14, 0x00, 0x00, 0x00, 0x02, 0x00,
];

const SID_LOCAL_SYSTEM: [u8; 12] = [
    0x01, 0x01, 0x00, 0x00, 0x00, 0x00, 0x00, 0x05, 0x12, 0x00, 0x00, 0x00,
];

const BASIC_ACE: [u8; 20] = [
    0x00, 0x00, 0x14, 0x00, 0xff, 0x01, 0x0f, 0x00, 0x01, 0x01, 0x00, 0x00, 0x00, 0x00, 0x00, 0x05,
    0x12, 0x00, 0x00, 0x00,
];

const OBJECT_ACE: [u8; 56] = [
    0x05, 0x12, 0x38, 0x00, 0x30, 0x00, 0x00, 0x00, 0x01, 0x00, 0x00, 0x00, 0x0f, 0xd6, 0x47, 0x5b,
    0x90, 0x60, 0xb2, 0x40, 0x9f, 0x37, 0x2a, 0x4d, 0xe8, 0x8f, 0x30, 0x63, 0x01, 0x05, 0x00, 0x00,
    0x00, 0x00, 0x00, 0x05, 0x15, 0x00, 0x00, 0x00, 0x3a, 0x31, 0xdc, 0x2b, 0x2a, 0x09, 0x33, 0x6f,
    0x41, 0x04, 0xa0, 0x51, 0x0e, 0x02, 0x00, 0x00,
];

/// A self-relative descriptor: header, a DACL with one basic ACE at 20, the owner
/// S-1-5-32-544 at 48 and the group S-1-5-18 at 64.
fn sample_descriptor(control_low: u8, control_high: u8, dacl_offset: u8) -> Vec<u8> {
    let mut b = vec![
        0x01, 0x00, control_low, control_high, 48, 0, 0, 0, 64, 0, 0, 0, 0, 0, 0, 0, dacl_offset,
        0, 0, 0,
    ];
    b.extend_from_slice(&[0x02, 0x00, 28, 0x00, 0x01, 0x00, 0x00, 0x00]);
    b.extend_from_slice(&BASIC_ACE);
    b.extend_from_slice(&[
        0x01, 0x02, 0x00, 0x00, 0x00, 0x00, 0x00, 0x05, 0x20, 0x00, 0x00, 0x00, 0x20, 0x02, 0x00,
        0x00,
    ]);
    b.extend_from_slice(&SID_LOCAL_SYSTEM);
    b
}

#[test]
fn sec_desc_header() {
    let buffer: &[u8] = &HEADER_BYTES;

    let header = match SecDescHeader::from_buffer(&buffer) {
        Ok(header) => header,
        Err(error) => panic!("{:?}", error),
    };

    assert_eq!(header.revision_number, 1);
    assert_eq!(header.padding1, 0);
    assert_eq!(header.owner_sid_offset, 152);
    assert_eq!(header.group_sid_offset, 164);
    assert_eq!(header.sacl_offset, 0);
    assert_eq!(header.dacl_offset, 20);
}

#[test]
fn test_parses_sec_desc_header() {
    let buffer: &[u8] = &HEADER_BYTES;

    let header = SecDescHeader::from_buffer(&buffer).unwrap();

    assert_eq!(header.revision_number, 1);
    assert_eq!(header.padding1, 0);
    assert_eq!(header.owner_sid_offset, 152);
    assert_eq!(header.group_sid_offset, 164);
    assert_eq!(header.sacl_offset, 0);
    assert_eq!(header.dacl_offset, 20);
}

#[test]
fn header_control_flags_drop_unknown_bits() {
    let header = SecDescHeader::from_buffer(&HEADER_BYTES).unwrap();
    // 0x9804 holds the undefined bit 0x1000, which is dropped.
    assert_eq!(header.control_flags.bits, 0x8804);
    assert!(header.control_flags.contains(SdControlFlags::SE_DACL_PRESENT));
    assert!(header.control_flags.contains(SdControlFlags::SE_SELF_RELATIVE));
    assert!(!header.control_flags.contains(SdControlFlags::SE_SACL_PRESENT));
}

#[test]
fn header_short_input_is_io_error() {
    assert_eq!(SecDescHeader::from_buffer(&HEADER_BYTES[..19]), Err(Error::IoError));
}

#[test]
fn authority() {
    let buffer: &[u8] = &[0x00, 0x00, 0x00, 0x00, 0x00, 0x05];

    let authority = match Authority::from_buffer(&buffer) {
        Ok(authority) => authority,
        Err(error) => panic!("{:?}", error),
    };

    assert_eq!(authority.0, 5);
}

#[test]
fn test_parse_authority() {
    let buffer: &[u8] = &[0x00, 0x00, 0x00, 0x00, 0x00, 0x05];

    let authority = Authority::from_buffer(&buffer).unwrap();
    assert_eq!(authority.0, 5);
}

#[test]
fn authority_is_big_endian_over_six_bytes() {
    let authority = Authority::from_buffer(&[0x01, 0x02, 0x03, 0x04, 0x05, 0x06]).unwrap();
    assert_eq!(authority.0, 0x0102_0304_0506);
    assert_eq!(authority.to_string(), "1108152157446");
    assert_eq!(Authority::from_buffer(&[0x00, 0x05]), Err(Error::IoError));
}

#[test]
fn sub_authority() {
    let buffer: &[u8] = &[0x12, 0x00, 0x00, 0x00];

    let sub_authority = match SubAuthority::from_buffer(&buffer) {
        Ok(sub_authority) => sub_authority,
        Err(error) => panic!("{:?}", error),
    };

    assert_eq!(sub_authority.0, 18);
}

#[test]
fn test_parse_sub_authority() {
    let buffer: &[u8] = &[0x12, 0x00, 0x00, 0x00];

    let sub_authority = SubAuthority::from_buffer(&buffer).unwrap();
    assert_eq!(sub_authority.0, 18);
}

#[test]
fn test_parses_sub_authority_list() {
    let buffer: &[u8] = &[
        0x12, 0x00, 0x00, 0x00, 0x00, 0x13, 0x18, 0x00, 0x3F, 0x00, 0x0F, 0x00,
    ];

    let sub_authority = SubAuthorityList::from_buffer(&buffer, 3).unwrap();

    assert_eq!(sub_authority.0[0].0, 18);
    assert_eq!(sub_authority.0[1].0, 1_577_728);
    assert_eq!(sub_authority.0[2].0, 983_103);
}

#[test]
fn sub_authority_list_text_and_short_input() {
    let buffer: &[u8] = &[
        0x12, 0x00, 0x00, 0x00, 0x00, 0x13, 0x18, 0x00, 0x3F, 0x00, 0x0F, 0x00,
    ];
    let list = SubAuthorityList::from_buffer(&buffer, 3).unwrap();
    assert_eq!(list.to_string(), "-18-1577728-983103");
    assert_eq!(SubAuthorityList::from_buffer(&buffer, 0).unwrap().to_string(), "");
    assert_eq!(SubAuthorityList::from_buffer(&buffer, 4), Err(Error::IoError));
    assert_eq!(SubAuthority(4_294_967_295).to_string(), "4294967295");
}

#[test]
fn sid_test_01() {
    let buffer: &[u8] = &SID_LOCAL_SYSTEM;

    let sid = match Sid::from_reader(&mut ByteCursor::new(buffer)) {
        Ok(sid) => sid,
        Err(error) => panic!("{:?}", error),
    };

    assert_eq!(sid.to_string(), "S-1-5-18");
}

#[test]
fn test_parses_sid() {
    let buffer: &[u8] = &SID_LOCAL_SYSTEM;

    let sid = Sid::from_buffer(buffer).unwrap();

    assert_eq!(sid.to_string(), "S-1-5-18");
}

#[test]
fn sid_with_several_sub_authorities() {
    let sid = Sid::from_buffer(&OBJECT_ACE[28..]).unwrap();
    assert_eq!(sid.to_string(), "S-1-5-21-735850810-1865615658-1369441345-526");
}

#[test]
fn sid_reader_stops_after_the_sid() {
    let mut bytes = SID_LOCAL_SYSTEM.to_vec();
    bytes.push(0xAA);
    let mut reader = ByteCursor::from_vec(bytes);
    Sid::from_reader(&mut reader).unwrap();
    assert_eq!(reader.tell(), 12);
}

#[test]
fn sid_short_input_is_io_error() {
    assert_eq!(Sid::from_buffer(&SID_LOCAL_SYSTEM[..11]), Err(Error::IoError));
    assert_eq!(Sid::from_buffer(&[]), Err(Error::IoError));
}

#[test]
fn test_parses_basic_ace() {
    let buffer: &[u8] = &BASIC_ACE;
    let ace = Ace::from_reader(&mut ByteCursor::new(buffer)).unwrap();

    assert_eq!(ace.ace_type, AceType::AccessAllowed);
    assert_eq!(ace.ace_flags.bits, 0);
    assert_eq!(ace.size, 20);
    assert!(ace.ace_type.is_basic());

    if let AceData::Basic(data) = ace.data {
        assert_eq!(data.access_rights, 983551);

        let buffer_sid: &[u8] = &SID_LOCAL_SYSTEM;
        assert_eq!(data.sid, Sid::from_buffer(buffer_sid).unwrap());
        assert_eq!(data.sid.to_string(), "S-1-5-18");
    } else {
        panic!("ACE content does not match ACE type");
    }
}

#[test]
fn test_parses_object_ace() {
    let buffer: &[u8] = &OBJECT_ACE;

    let ace = Ace::from_reader(&mut ByteCursor::new(buffer)).unwrap();

    assert_eq!(ace.ace_type, AceType::AccessAllowedObject);
    assert_eq!(ace.ace_flags.bits, 2);
    assert_eq!(ace.size, 56);
    assert!(ace.ace_type.is_object());

    if let AceData::Object(data) = ace.data {
        assert_eq!(data.access_rights, 48);

        if let Some(ace_guid) = data.object_type {
            let buffer_guid: &[u8] = &[
                0x0f, 0xd6, 0x47, 0x5b, 0x90, 0x60, 0xb2, 0x40, 0x9f, 0x37, 0x2a, 0x4d, 0xe8,
                0x8f, 0x30, 0x63,
            ];
            assert_eq!(ace_guid, Guid::from_buffer(buffer_guid).unwrap());
        } else {
            panic!("ACE contains an object type GUID");
        }

        if let Some(_) = data.inherited_type {
            panic!("ACE does not contain object inherited type");
        }

        let buffer_sid: &[u8] = &OBJECT_ACE[28..];
        assert_eq!(data.sid, Sid::from_buffer(buffer_sid).unwrap());
    } else {
        panic!("ACE content does not match ACE type");
    }
}

#[test]
fn object_ace_with_both_guids() {
    // Object flags 3: both GUIDs follow, object type first.
    let mut bytes = vec![0x06, 0x00, 0x00, 0x00, 0x10, 0x00, 0x00, 0x00, 0x03, 0x00, 0x00, 0x00];
    bytes.extend_from_slice(&[0x11; 16]);
    bytes.extend_from_slice(&[0x22; 16]);
    bytes.extend_from_slice(&SID_LOCAL_SYSTEM);
    let size = bytes.len() as u8;
    bytes[2] = size;
    let ace = Ace::from_buffer(&bytes).unwrap();
    assert_eq!(ace.ace_type, AceType::AccessDeniedObject);
    match ace.data {
        AceData::Object(data) => {
            assert_eq!(data.flags.bits, 3);
            assert_eq!(data.object_type, Some(Guid::from_buffer(&[0x11; 16]).unwrap()));
            assert_eq!(data.inherited_type, Some(Guid::from_buffer(&[0x22; 16]).unwrap()));
            assert_eq!(data.sid.to_string(), "S-1-5-18");
        }
        _ => panic!("expected an object payload"),
    }
}

#[test]
fn object_ace_with_only_inherited_guid() {
    // Object flags 2: only the inherited-object-type GUID follows.
    let mut bytes = vec![0x07, 0x00, 0x00, 0x00, 0x10, 0x00, 0x00, 0x00, 0xF2, 0x00, 0x00, 0x00];
    bytes.extend_from_slice(&[0x22; 16]);
    bytes.extend_from_slice(&SID_LOCAL_SYSTEM);
    let size = bytes.len() as u8;
    bytes[2] = size;
    let ace = Ace::from_buffer(&bytes).unwrap();
    match ace.data {
        AceData::Object(data) => {
            assert_eq!(data.flags.bits, AceObjectFlags::ACE_INHERITED_OBJECT_TYPE_PRESENT);
            assert_eq!(data.object_type, None);
            assert_eq!(data.inherited_type, Some(Guid::from_buffer(&[0x22; 16]).unwrap()));
        }
        _ => panic!("expected an object payload"),
    }
}

#[test]
fn unknown_ace_type_is_rejected() {
    let mut bytes = BASIC_ACE;
    bytes[0] = 0xFF;
    assert_eq!(Ace::from_buffer(&bytes), Err(Error::UnknownAceType { ace_type: 255 }));
    bytes[0] = 0x12;
    assert_eq!(Ace::from_buffer(&bytes), Err(Error::UnknownAceType { ace_type: 0x12 }));
}

#[test]
fn ace_size_below_header_is_rejected() {
    let mut bytes = BASIC_ACE;
    bytes[2] = 0x03;
    assert_eq!(Ace::from_buffer(&bytes), Err(Error::InvalidAceSize { size: 3 }));
}

#[test]
fn ace_payload_past_input_is_io_error() {
    assert_eq!(Ace::from_buffer(&BASIC_ACE[..19]), Err(Error::IoError));
    assert_eq!(Ace::from_buffer(&BASIC_ACE[..3]), Err(Error::IoError));
}

#[test]
fn compound_ace_keeps_raw_payload() {
    let bytes = [0x04, 0x0F, 0x08, 0x00, 0xDE, 0xAD, 0xBE, 0xEF, 0x99];
    let mut reader = ByteCursor::new(&bytes);
    let ace = Ace::from_reader(&mut reader).unwrap();
    assert_eq!(ace.ace_type, AceType::AccessAllowedCompound);
    assert_eq!(ace.ace_flags.bits, 0x0F);
    match ace.data {
        AceData::Unhandled(raw) => assert_eq!(raw.0, vec![0xDE, 0xAD, 0xBE, 0xEF]),
        _ => panic!("expected a raw payload"),
    }
    assert_eq!(reader.tell(), 8);
}

#[test]
fn ace_flags_drop_unknown_bits() {
    let mut bytes = BASIC_ACE;
    bytes[1] = 0xF3;
    let ace = Ace::from_buffer(&bytes).unwrap();
    assert_eq!(ace.ace_flags.bits, 0x03);
    assert!(ace.ace_flags.contains(AceFlags::OBJECT_INHERIT_ACE | AceFlags::CONTAINER_INHERIT_ACE));
    assert!(!ace.ace_flags.contains(AceFlags::INHERIT_ONLY_ACE));
    assert_eq!(AceFlags::from_bits_truncate(0xFF).bits, 0x0F);
}

#[test]
fn ace_type_codes_and_names() {
    for b in 0u8..=0x11 {
        let t = AceType::from_u8(b).unwrap();
        assert_eq!(t.as_u8(), b);
        assert!(t.is_basic() as u8 + t.is_object() as u8 <= 1);
    }
    assert_eq!(AceType::from_u8(0x12), None);
    assert_eq!(AceType::AccessAllowed.as_string(), "ACCESS_ALLOWED");
    assert_eq!(AceType::SystemAlarmCallbackObject.as_string(), "SYSTEM_ALARM_CALLBACK_OBJECT");
    assert!(!AceType::AccessAllowedCompound.is_basic());
    assert!(!AceType::AccessAllowedCompound.is_object());
    assert!(AceType::SystemMandatoryLabel.is_basic());
}

#[test]
fn acl_decodes_count_entries() {
    let mut bytes = vec![0x02, 0x00, 48, 0x00, 0x02, 0x00, 0x00, 0x00];
    bytes.extend_from_slice(&BASIC_ACE);
    bytes.extend_from_slice(&BASIC_ACE);
    bytes.extend_from_slice(&[0xEE; 4]);
    let mut reader = ByteCursor::from_vec(bytes);
    let acl = Acl::from_reader(&mut reader).unwrap();
    assert_eq!(acl.revision, 2);
    assert_eq!(acl.size, 48);
    assert_eq!(acl.count, 2);
    assert_eq!(acl.entries.len(), 2);
    assert_eq!(reader.tell(), 48);
    assert!(!check_acl(&Some(acl)));
    assert!(check_acl(&None));
}

#[test]
fn acl_stops_on_unknown_ace_type() {
    let mut bytes = vec![0x02, 0x00, 48, 0x00, 0x02, 0x00, 0x00, 0x00];
    bytes.extend_from_slice(&BASIC_ACE);
    bytes.extend_from_slice(&BASIC_ACE);
    bytes[28] = 0xFF;
    assert_eq!(
        Acl::from_reader(&mut ByteCursor::from_vec(bytes)),
        Err(Error::UnknownAceType { ace_type: 255 })
    );
}

#[test]
fn empty_acl_has_nothing_to_report() {
    let bytes = [0x02, 0x00, 8, 0x00, 0x00, 0x00, 0x00, 0x00];
    let acl = Acl::from_reader(&mut ByteCursor::new(&bytes)).unwrap();
    assert!(acl.entries.is_empty());
    assert!(check_acl(&Some(acl)));
}

#[test]
fn security_descriptor_follows_offsets() {
    let bytes = sample_descriptor(0x04, 0x80, 20);
    let sd = SecurityDescriptor::from_buffer(&bytes).unwrap();
    assert_eq!(sd.owner_sid.to_string(), "S-1-5-32-544");
    assert_eq!(sd.group_sid.to_string(), "S-1-5-18");
    assert!(sd.sacl.is_none());
    let dacl = sd.dacl.unwrap();
    assert_eq!(dacl.count, 1);
    match &dacl.entries[0].data {
        AceData::Basic(data) => {
            assert_eq!(data.access_rights, 983551);
            assert_eq!(data.sid.to_string(), "S-1-5-18");
        }
        _ => panic!("expected a basic payload"),
    }
}

#[test]
fn security_descriptor_offsets_are_relative_to_its_start() {
    let mut bytes = vec![0xCC; 7];
    bytes.extend_from_slice(&sample_descriptor(0x04, 0x80, 20));
    let mut stream = ByteCursor::from_vec(bytes);
    stream.seek(7);
    let sd = SecurityDescriptor::from_stream(&mut stream).unwrap();
    assert_eq!(sd.owner_sid.to_string(), "S-1-5-32-544");
    assert_eq!(sd.group_sid.to_string(), "S-1-5-18");
    assert_eq!(sd.dacl.unwrap().entries.len(), 1);
}

#[test]
fn zero_dacl_offset_means_no_dacl_whatever_the_flags() {
    // SE_DACL_PRESENT set, offset zero: still no DACL.
    let sd = SecurityDescriptor::from_buffer(&sample_descriptor(0x04, 0x80, 0)).unwrap();
    assert!(sd.dacl.is_none());
    // SE_DACL_PRESENT clear, offset nonzero: the DACL is decoded.
    let sd = SecurityDescriptor::from_buffer(&sample_descriptor(0x00, 0x80, 20)).unwrap();
    assert!(sd.dacl.is_some());
}

#[test]
fn decoding_twice_gives_equal_descriptors() {
    let bytes = sample_descriptor(0x04, 0x80, 20);
    let first = SecurityDescriptor::from_buffer(&bytes).unwrap();
    let second = SecurityDescriptor::from_buffer(&bytes).unwrap();
    assert_eq!(first, second);
}

#[test]
fn security_descriptor_errors() {
    let mut bytes = sample_descriptor(0x04, 0x80, 20);
    bytes.truncate(70);
    assert_eq!(SecurityDescriptor::from_buffer(&bytes), Err(Error::IoError));
    let mut bytes = sample_descriptor(0x04, 0x80, 20);
    bytes[28] = 0x20;
    assert_eq!(
        SecurityDescriptor::from_buffer(&bytes),
        Err(Error::UnknownAceType { ace_type: 0x20 })
    );
    let mut bytes = sample_descriptor(0x04, 0x80, 20);
    bytes[4] = 0xFF;
    bytes[5] = 0xFF;
    bytes[6] = 0xFF;
    bytes[7] = 0xFF;
    assert_eq!(SecurityDescriptor::from_buffer(&bytes), Err(Error::IoError));
}
