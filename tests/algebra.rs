use rumio::mmio::VolAddr;
use rumio::perm::{ReadOnly, ReadWrite, WriteOnly};
use rumio::register::{BitField, EnumField, FlagsField};
use rumio::{get_bits, set_bits, Field, Value};

#[test]
fn get_bits_examples() {
    let x = 0b011011u32;

    assert_eq!(get_bits(x, (1, 3)), 0b101);
    assert_eq!(get_bits(x, (0, 1)), 0b11);
    assert_eq!(get_bits(x, (4, 6)), 0b001);
}

#[test]
fn set_bits_examples() {
    let x = 0u32;

    let x = set_bits(x, (0, 1), 0b11);
    assert_eq!(x, 0b11);

    let x = set_bits(x, (1, 3), 0b010);
    assert_eq!(x, 0b0101);

    let x = set_bits(x, (0, 4), 0b11001);
    assert_eq!(x, 0b11001);
}

#[test]
fn bits_over_the_whole_width() {
    let x = 0xDEAD_BEEF_0123_4567u64;
    assert_eq!(get_bits(x, (0, 63)), x);
    assert_eq!(set_bits(x, (0, 63), 0x1122_3344_5566_7788), 0x1122_3344_5566_7788);
    assert_eq!(get_bits(x, (63, 63)), 1);
    assert_eq!(get_bits(0xA5u8, (7, 7)), 1);
    assert_eq!(get_bits(0xA5u8, (0, 7)), 0xA5);
    assert_eq!(set_bits(0u16, (15, 15), 1), 0x8000);
}

#[test]
fn set_then_get_round_trip() {
    let written = set_bits(0xFFFFu16, (4, 7), 0xAB);
    assert_eq!(get_bits(written, (4, 7)), 0xB);
    let written = set_bits(0u8, (3, 5), 0xFF);
    assert_eq!(get_bits(written, (3, 5)), 0b111);
}

#[test]
fn set_bits_keeps_other_bits() {
    assert_eq!(set_bits(0b1010_1010u8, (2, 4), 0), 0b1010_0010);
    assert_eq!(set_bits(0xFFFF_FFFFu32, (8, 15), 0), 0xFFFF_00FF);
    // bits of `bits` above the width of the range are dropped
    assert_eq!(set_bits(0u16, (4, 5), 0xFF), 0b11_0000);
}

#[test]
fn value_new_drops_bits_outside_mask() {
    let v = Value::new(0b0110u8, 0b1111);
    assert_eq!(v.mask(), 0b0110);
    assert_eq!(v.bits(), 0b0110);
    let v = Value::new(0xF0u8, 0x0F);
    assert_eq!(v.bits(), 0);
}

#[test]
fn value_modify_keeps_unmasked_bits() {
    let v = Value::new(0b1100u8, 0b1010);
    // (original & !mask) | (bits & mask)
    assert_eq!(v.modify(0b0101), 0b1001);
    assert_eq!(v.modify(0b1111), 0b1011);
    assert_eq!(v.modify(0), 0b1000);
}

#[test]
fn value_modify_is_idempotent() {
    let v = Value::new(0x0FF0u16, 0x1234);
    let once = v.modify(0xABCD);
    assert_eq!(once, 0xA23D);
    assert_eq!(v.modify(once), once);
}

#[test]
fn value_combine_unions_masks_and_bits() {
    let v = Value::new(0b0011u8, 0b0001) | Value::new(0b1100, 0b1000);
    assert_eq!(v.mask(), 0b1111);
    assert_eq!(v.bits(), 0b1001);
    assert_eq!(v.modify(0xF0), 0xF9);
}

#[test]
fn value_combine_overlapping_masks_is_plain_or() {
    let v = Value::new(0b0110u8, 0b0010) | Value::new(0b0011, 0b0001);
    assert_eq!(v.mask(), 0b0111);
    assert_eq!(v.bits(), 0b0011);
}

#[test]
fn field_read_masks_value() {
    let field = Field::<u32, ReadWrite>::new(0b11110);
    let x = 0b10111u32;
    assert_eq!(field.read(x), 0b10110);
}

#[test]
fn combine_read_only_fields() {
    let f: Field<u8, ReadOnly> = Field::<u8, ReadOnly>::new(0b0010) | Field::<u8, ReadOnly>::new(0b0100);
    assert_eq!(f.mask(), 0b0110);
}

#[test]
fn permission_merge_table() {
    let ro: Field<u8, ReadOnly> = Field::<u8, ReadWrite>::new(0b0001) | Field::<u8, ReadOnly>::new(0b0010);
    assert_eq!(ro.mask(), 0b0011);
    let wo: Field<u8, WriteOnly> = Field::<u8, ReadWrite>::new(0b0100) | Field::<u8, WriteOnly>::new(0b1000);
    assert_eq!(wo.mask(), 0b1100);
    let rw: Field<u8, ReadWrite> = Field::<u8, ReadWrite>::new(0b0001) | Field::<u8, ReadWrite>::new(0b1000);
    assert_eq!(rw.mask(), 0b1001);
    let ro2: Field<u8, ReadOnly> = Field::<u8, ReadOnly>::new(0b0001) | Field::<u8, ReadWrite>::new(0b0001);
    assert_eq!(ro2.mask(), 0b0001);
    let wo2: Field<u8, WriteOnly> = Field::<u8, WriteOnly>::new(0b0001) | Field::<u8, ReadWrite>::new(0b0010);
    assert_eq!(wo2.mask(), 0b0011);
}

#[test]
fn flag_group_in_sixteen_bit_register() {
    let flags = FlagsField::<u16, ReadWrite>::new((5, 8), 0b1111);
    let raw = 0b0000_0001_1100_0000u16;
    // B, C and D
    assert_eq!(flags.decode(raw), 0b1110);
    // write back B and C only
    let written = flags.encode(raw, 0b0110);
    assert_eq!(written, 0b0000_0000_1100_0000);
    assert_eq!(written & !0b1_1110_0000, raw & !0b1_1110_0000);
    assert_eq!(flags.decode(written), 0b0110);
}

#[test]
fn flag_group_drops_undeclared_flags() {
    let flags = FlagsField::<u16, ReadWrite>::new((4, 7), 0b0101);
    assert_eq!(flags.decode(0xFFFF), 0b0101);
    assert_eq!(flags.encode(0, 0b1111), 0b0101_0000);
    let v = flags.value(0b1111);
    assert_eq!(v.mask(), 0b1111_0000);
    assert_eq!(v.bits(), 0b0101_0000);
}

#[test]
fn enum_field_without_matching_variant() {
    let mode = EnumField::<u8, ReadWrite>::new((2, 3), vec![0b00, 0b01, 0b11]);
    assert_eq!(mode.decode(0b1000), None);
    assert_eq!(mode.decode(0b1100), Some(2));
    assert_eq!(mode.decode(0b0111), Some(1));
}

#[test]
fn enum_field_first_matching_variant() {
    let mode = EnumField::<u8, ReadWrite>::new((0, 1), vec![0b10, 0b01, 0b10]);
    assert_eq!(mode.decode(0b10), Some(0));
    assert_eq!(mode.decode(0b00), None);
}

#[test]
fn enum_field_encode_and_value() {
    let mode = EnumField::<u16, ReadWrite>::new((4, 6), vec![0b000, 0b101, 0b011]);
    assert_eq!(mode.encode(0xFFFF, 1), 0xFFDF);
    assert_eq!(mode.encode(0, 2), 0b011_0000);
    let v = mode.value(1);
    assert_eq!(v.mask(), 0b111_0000);
    assert_eq!(v.bits(), 0b101_0000);
    assert_eq!(mode.field().mask(), 0b111_0000);
}

#[test]
fn bit_field_value_and_field() {
    let bit = BitField::<u32, ReadWrite>::new(31);
    assert_eq!(bit.field().mask(), 0x8000_0000);
    assert_eq!(bit.value(true).bits(), 0x8000_0000);
    assert_eq!(bit.value(false).bits(), 0);
    assert_eq!(bit.value(false).mask(), 0x8000_0000);
    assert!(bit.extract(0x8000_0000));
    assert!(!bit.extract(0x7FFF_FFFF));
}

#[test]
fn vol_addr_offset_cast_and_compare() {
    let base = VolAddr::<u32>::new(0x100);
    assert_eq!(base.offset(2).addr(), 0x108);
    assert_eq!(base.offset(-1).addr(), 0xFC);
    assert_eq!(base.cast::<u8>().offset(3).addr(), 0x103);
    let high = VolAddr::<u32>::new(usize::MAX - 3);
    assert_eq!(high.offset(2).addr(), 4);
    assert!(base == VolAddr::new(0x100));
    assert!(base != base.offset(1));
    assert!(base < base.offset(1));
}

#[test]
fn bits_of_usize() {
    let x: usize = 0b1011_0000;
    assert_eq!(get_bits(x, (4, 7)), 0b1011);
    assert_eq!(set_bits(x, (0, 3), 0b0110usize), 0b1011_0110);
    let top = (usize::BITS - 1) as usize;
    assert_eq!(get_bits(usize::MAX, (0, top)), usize::MAX);
    assert_eq!(Value::new(0xFFusize, 0x1234).bits(), 0x34);
}

#[test]
fn field_any_set() {
    let field = Field::<u16, ReadOnly>::new(0b0110);
    assert!(field.any_set(0b0100));
    assert!(!field.any_set(0b1001));
    assert!(!field.any_set(0));
}
