use provenance_slot::slot::copy_bytes;
use provenance_slot::{
    DoubleSlot, MemByte, Provenance, Slot, TaggedByte, DOUBLE_SLOT_BYTES, HALF_BYTES, SLOT_BYTES,
};

const ZERO: TaggedByte = TaggedByte { value: 0, prov: None };

fn numbered(from: u8, alloc: u64) -> Slot<TaggedByte> {
    let mut bytes = [ZERO; 8];
    for (i, b) in bytes.iter_mut().enumerate() {
        *b = TaggedByte { value: from + i as u8, prov: Some(Provenance { alloc }) };
    }
    Slot { bytes }
}

#[test]
fn sizes_are_those_of_a_64_bit_pointer() {
    assert_eq!(SLOT_BYTES, 8);
    assert_eq!(HALF_BYTES, 4);
    assert_eq!(DOUBLE_SLOT_BYTES, 16);
    assert_eq!(2 * HALF_BYTES, SLOT_BYTES);
    assert_eq!(2 * SLOT_BYTES, DOUBLE_SLOT_BYTES);
}

#[test]
fn zeroed_byte_has_value_zero_and_no_provenance() {
    assert_eq!(TaggedByte::zeroed(), ZERO);
}

#[test]
fn fresh_double_slot_reads_as_zero_everywhere() {
    let double = DoubleSlot::<TaggedByte>::zeroed();
    for offset in 0..=8 {
        assert_eq!(double.read(offset).bytes, [ZERO; 8]);
    }
}

#[test]
fn write_then_read_at_the_same_offset_returns_the_slot() {
    let slot = numbered(1, 7);
    for offset in 0..=8 {
        let mut double = DoubleSlot::<TaggedByte>::zeroed();
        double.write(offset, &slot);
        assert_eq!(double.read(offset), slot);
    }
}

#[test]
fn write_in_the_middle_splits_the_slot_between_both_halves() {
    let slot = numbered(1, 7);
    let mut double = DoubleSlot::<TaggedByte>::zeroed();
    double.write(4, &slot);

    let low = double.read(0);
    let high = double.read(8);

    assert_eq!(&low.bytes[..4], &[ZERO; 4]);
    assert_eq!(&low.bytes[4..], &slot.bytes[..4]);
    assert_eq!(&high.bytes[..4], &slot.bytes[4..]);
    assert_eq!(&high.bytes[4..], &[ZERO; 4]);
}

#[test]
fn second_write_leaves_the_first_half_alone() {
    let first = numbered(1, 7);
    let second = numbered(101, 9);
    let mut double = DoubleSlot::<TaggedByte>::zeroed();
    double.write(0, &first);
    double.write(8, &second);

    assert_eq!(double.read(0), first);
    assert_eq!(double.read(8), second);
    let middle = double.read(4);
    assert_eq!(&middle.bytes[..4], &first.bytes[4..]);
    assert_eq!(&middle.bytes[4..], &second.bytes[..4]);
}

#[test]
fn copy_half_overwrites_exactly_four_bytes() {
    let source = numbered(1, 7);
    let mut double = DoubleSlot::<TaggedByte>::zeroed();
    double.write(4, &source);

    let mut target = numbered(101, 9);
    double.copy_half(4, &mut target, 0);
    assert_eq!(&target.bytes[..4], &source.bytes[..4]);
    assert_eq!(&target.bytes[4..], &numbered(101, 9).bytes[4..]);

    let mut target = numbered(101, 9);
    double.copy_half(8, &mut target, 4);
    assert_eq!(&target.bytes[..4], &numbered(101, 9).bytes[..4]);
    assert_eq!(&target.bytes[4..], &source.bytes[4..]);

    let mut target = numbered(101, 9);
    double.copy_half(12, &mut target, 2);
    assert_eq!(&target.bytes[..2], &numbered(101, 9).bytes[..2]);
    assert_eq!(&target.bytes[2..6], &[ZERO; 4]);
    assert_eq!(&target.bytes[6..], &numbered(101, 9).bytes[6..]);
}

#[test]
fn copy_bytes_copies_the_requested_range_only() {
    let src: [u8; 6] = [1, 2, 3, 4, 5, 6];
    let mut dst: [u8; 5] = [9; 5];
    copy_bytes(&src, 2, &mut dst, 1, 3);
    assert_eq!(dst, [9, 3, 4, 5, 9]);

    copy_bytes(&src, 0, &mut dst, 0, 0);
    assert_eq!(dst, [9, 3, 4, 5, 9]);

    copy_bytes(&src, 1, &mut dst, 0, 5);
    assert_eq!(dst, [2, 3, 4, 5, 6]);
}

#[test]
fn slot_is_copied_by_value() {
    let slot = numbered(1, 7);
    let mut copy = slot;
    copy.bytes[0] = ZERO;
    assert_eq!(slot, numbered(1, 7));
    assert_ne!(copy, slot);
    assert_eq!(slot.clone(), slot);
}
