use winstructs::ntfs::MftReference;
use winstructs::ByteCursor;

#[test]
fn mft_reference_test_mft_reference() {
    let raw_reference = vec![0x73, 0x00, 0x00, 0x00, 0x00, 0x00, 0x68, 0x91];

    let mft_reference = MftReference::from_reader(&mut ByteCursor::from_vec(raw_reference)).unwrap();
    assert_eq!(mft_reference.entry, 115);
    assert_eq!(mft_reference.sequence, 37224);
}

#[test]
fn mft_reference_from_u64_splits_at_48_bits() {
    let r = MftReference::from(10_477_624_533_077_459_059u64);
    assert_eq!(r, MftReference::new(115, 37224));
    let r = MftReference::from(u64::MAX);
    assert_eq!(r.entry, 0xFFFF_FFFF_FFFF);
    assert_eq!(r.sequence, 0xFFFF);
}
