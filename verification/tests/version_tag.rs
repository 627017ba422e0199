use soundfont_compiler::soundfont::info::VersionTag;

#[test]
fn test_to_bytes() {
    let tag = VersionTag::default();
    assert_eq!(tag.to_bytes().len(), 4);
}

#[test]
fn version_bytes_are_little_endian() {
    let tag = VersionTag::new(2, 4);
    assert_eq!(tag.to_bytes(), vec![2, 0, 4, 0]);
    let tag = VersionTag::new(0x1234, 0xABCD);
    assert_eq!(tag.to_bytes(), vec![0x34, 0x12, 0xCD, 0xAB]);
}
