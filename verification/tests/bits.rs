use mpeg_header::bits::Bits;
use mpeg_header::utils::access;

#[test]
fn from_bytes_holds_eight_bits_for_each_byte() {
    assert_eq!(Bits::from_bytes(&[]).len(), 0);
    assert_eq!(Bits::from_bytes(&[0x00]).len(), 8);
    assert_eq!(Bits::from_bytes(&[0xFF, 0xFA, 0x10, 0x00]).len(), 32);
}

#[test]
fn from_bytes_starts_at_the_most_significant_bit() {
    let bits = Bits::from_bytes(&[0x80, 0x01]);
    assert_eq!(access(&bits, 0, 1).unwrap().value(), 1);
    assert_eq!(access(&bits, 1, 14).unwrap().value(), 0);
    assert_eq!(access(&bits, 15, 1).unwrap().value(), 1);
}

#[test]
fn from_bytes_keeps_the_order_of_the_bytes() {
    let bits = Bits::from_bytes(&[0x12, 0x34, 0x56, 0x78]);
    assert_eq!(access(&bits, 0, 8).unwrap().value(), 0x12);
    assert_eq!(access(&bits, 8, 8).unwrap().value(), 0x34);
    assert_eq!(access(&bits, 16, 8).unwrap().value(), 0x56);
    assert_eq!(access(&bits, 24, 8).unwrap().value(), 0x78);
}

#[test]
fn a_byte_spells_itself() {
    for byte in 0..=255u8 {
        assert_eq!(Bits::from_bytes(&[byte]).value(), u32::from(byte));
    }
}

#[test]
fn value_reads_the_first_bit_as_the_most_significant() {
    let bits = Bits::from_bytes(&[0b1010_0110]);
    assert_eq!(access(&bits, 0, 4).unwrap().value(), 0b1010);
    assert_eq!(access(&bits, 4, 4).unwrap().value(), 0b0110);
    assert_eq!(access(&bits, 1, 2).unwrap().value(), 0b01);
    assert_eq!(access(&bits, 2, 5).unwrap().value(), 0b10011);
}

#[test]
fn value_of_thirty_two_bits() {
    assert_eq!(Bits::from_bytes(&[0x12, 0x34, 0x56, 0x78]).value(), 0x1234_5678);
    assert_eq!(Bits::from_bytes(&[0xFF, 0xFF, 0xFF, 0xFF]).value(), u32::MAX);
}

#[test]
fn value_of_no_bits_is_zero() {
    let bits = Bits::from_bytes(&[0xFF]);
    let empty = access(&bits, 3, 0).unwrap();
    assert_eq!(empty.len(), 0);
    assert_eq!(empty.value(), 0);
}

#[test]
fn len_counts_the_bits_of_a_group() {
    let bits = Bits::from_bytes(&[0xFF, 0x00, 0xFF]);
    assert_eq!(access(&bits, 5, 12).unwrap().len(), 12);
    assert_eq!(access(&bits, 0, 24).unwrap().len(), 24);
    assert_eq!(access(&bits, 23, 1).unwrap().len(), 1);
}

#[test]
fn equal_sequences_compare_equal() {
    let a = Bits::from_bytes(&[0b0110_0000]);
    let b = Bits::from_bytes(&[0b1101_1000]);
    assert_eq!(access(&a, 1, 2).unwrap(), access(&b, 0, 2).unwrap());
    assert_ne!(access(&a, 0, 2).unwrap(), access(&b, 0, 2).unwrap());
    assert_ne!(access(&a, 1, 2).unwrap(), access(&b, 0, 3).unwrap());
}
