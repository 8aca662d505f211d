use home_companion::sdk::memory::BufferDescriptor;

#[test]
fn test_descriptor_pack_unpack() {
    let descriptor = BufferDescriptor::new(100500, 42);
    assert_eq!(descriptor.split(), (100500, 42));
}

#[test]
fn descriptor_packs_offset_low_and_size_high() {
    let descriptor = BufferDescriptor::new(0x1234_5678, 0x9abc_def0);
    assert_eq!(u64::from(descriptor), 0x9abc_def0_1234_5678);
}

#[test]
fn descriptor_from_raw_splits_halves() {
    let descriptor = BufferDescriptor::from_raw(0xffff_ffff_0000_0001);
    assert_eq!(descriptor.split(), (1, 0xffff_ffff));
    assert_eq!(u64::from(descriptor), 0xffff_ffff_0000_0001);
}

#[test]
fn descriptor_extremes_roundtrip() {
    for (offset, size) in [(0, 0), (u32::MAX, u32::MAX), (0, u32::MAX), (u32::MAX, 0)] {
        let descriptor = BufferDescriptor::new(offset, size);
        assert_eq!(descriptor.split(), (offset, size));
        let raw = u64::from(descriptor);
        assert_eq!(BufferDescriptor::from_raw(raw).split(), (offset, size));
    }
}
