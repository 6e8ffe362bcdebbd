use winstructs::guid::Guid;
use winstructs::{ByteCursor, Error};

#[test]
fn guid_text_is_mixed_endian() {
    let raw_guid: &[u8] = &[
        0x25, 0x96, 0x84, 0x54, 0x78, 0x54, 0x94, 0x49, 0xa5, 0xba, 0x3e, 0x3b, 0x3, 0x28, 0xc3, 0xd,
    ];
    let guid = Guid::from_buffer(raw_guid).unwrap();
    assert_eq!(guid.to_string(), "54849625-5478-4994-A5BA-3E3B0328C30D");
    assert_eq!(
        guid,
        Guid::new(0x5484_9625, 0x5478, 0x4994, [0xa5, 0xba, 0x3e, 0x3b, 0x03, 0x28, 0xc3, 0x0d])
    );
}

#[test]
fn guid_short_input_is_io_error() {
    assert_eq!(Guid::from_buffer(&[0u8; 15]), Err(Error::IoError));
    let mut reader = ByteCursor::new(&[0u8; 20]);
    Guid::from_stream(&mut reader).unwrap();
    assert_eq!(reader.tell(), 16);
}
