use bobbin_bits::render::{binary_literal, digit_string, hex_literal};
use bobbin_bits::{
    BitField, RangeIndex, R16, R17, R2, R32, U1, U12, U16, U2, U20, U24, U28, U3, U32, U4, U5, U6,
    U7, U8, U9,
};

#[test]
fn test_debug() {
    assert_eq!(U1::try_from_i32(0b1).unwrap().debug_string(), "0b1");
    assert_eq!(U2::try_from_i32(0b11).unwrap().debug_string(), "0b11");
    assert_eq!(U3::try_from_i32(0b111).unwrap().debug_string(), "0b111");
    assert_eq!(U4::try_from_i32(0b1111).unwrap().debug_string(), "0b1111");
    assert_eq!(U5::try_from_i32(0b11111).unwrap().debug_string(), "0b11111");
    assert_eq!(U6::try_from_i32(0b111111).unwrap().debug_string(), "0b111111");
    assert_eq!(U8::try_from_u16(0xffu16).unwrap().debug_string(), "0xff");
    assert_eq!(U12::try_from_u16(0xfffu16).unwrap().debug_string(), "0xfff");
    assert_eq!(U16::try_from_u16(0xffffu16).unwrap().debug_string(), "0xffff");
    assert_eq!(U20::try_from_u32(0xfffffu32).unwrap().debug_string(), "0xfffff");
    assert_eq!(U24::try_from_u32(0xffffffu32).unwrap().debug_string(), "0xffffff");
    assert_eq!(U28::try_from_u32(0xfffffffu32).unwrap().debug_string(), "0xfffffff");
    assert_eq!(U32::try_from_u32(0xffffffffu32).unwrap().debug_string(), "0xffffffff");
}

#[test]
fn test_display() {
    assert_eq!(U1::try_from_i32(0b1).unwrap().display_string(), "1");
    assert_eq!(U2::try_from_i32(0b11).unwrap().display_string(), "3");
    assert_eq!(U3::try_from_i32(0b111).unwrap().display_string(), "7");
    assert_eq!(U4::try_from_i32(0b1111).unwrap().display_string(), "15");
    assert_eq!(U5::try_from_i32(0b11111).unwrap().display_string(), "31");
    assert_eq!(U6::try_from_i32(0b111111).unwrap().display_string(), "63");
    assert_eq!(U8::try_from_u16(0xffu16).unwrap().display_string(), "255");
    assert_eq!(U12::try_from_u16(0xfffu16).unwrap().display_string(), "4095");
    assert_eq!(U16::try_from_u16(0xffffu16).unwrap().display_string(), "65535");
    assert_eq!(U20::try_from_u32(0xfffffu32).unwrap().display_string(), "1048575");
    assert_eq!(U24::try_from_u32(0xffffffu32).unwrap().display_string(), "16777215");
    assert_eq!(U28::try_from_u32(0xfffffffu32).unwrap().display_string(), "268435455");
    assert_eq!(U32::try_from_u32(0xffffffffu32).unwrap().display_string(), "4294967295");
}

#[test]
fn three_bits_five() {
    let x = U3::try_from_u8(0b101).unwrap();
    assert!(x == U3::B101);
    assert_eq!(x.debug_string(), "0b101");
    assert_eq!(x.display_string(), "5");
    assert_eq!(x.lower_hex_string(), "5");
}

#[test]
fn twelve_bits_all_set() {
    let x = U12::try_from_u16(0xfff).unwrap();
    assert_eq!(x.debug_string(), "0xfff");
    assert_eq!(x.display_string(), "4095");
    assert_eq!(x.lower_hex_string(), "fff");
}

#[test]
fn debug_pads_with_zeros() {
    assert_eq!(U3::B001.debug_string(), "0b001");
    assert_eq!(U6::B000000.debug_string(), "0b000000");
    assert_eq!(U7::try_from_u8(5).unwrap().debug_string(), "0x05");
    assert_eq!(U8::try_from_u8(0).unwrap().debug_string(), "0x00");
    assert_eq!(U9::try_from_u8(5).unwrap().debug_string(), "0x005");
    assert_eq!(U12::try_from_u8(0xab).unwrap().debug_string(), "0x0ab");
    assert_eq!(U16::try_from_u8(1).unwrap().debug_string(), "0x0001");
    assert_eq!(U20::try_from_u8(1).unwrap().debug_string(), "0x00001");
    assert_eq!(U24::try_from_u8(1).unwrap().debug_string(), "0x000001");
    assert_eq!(U28::try_from_u8(1).unwrap().debug_string(), "0x0000001");
    assert_eq!(U32::try_from_u8(1).unwrap().debug_string(), "0x00000001");
}

#[test]
fn lower_hex_has_no_padding() {
    assert_eq!(U8::try_from_u8(0xff).unwrap().lower_hex_string(), "ff");
    assert_eq!(U8::try_from_u8(0).unwrap().lower_hex_string(), "0");
    assert_eq!(U16::try_from_u16(0xab).unwrap().lower_hex_string(), "ab");
    assert_eq!(U32::try_from_u32(0xdead_beef).unwrap().lower_hex_string(), "deadbeef");
    assert_eq!(U4::B1010.lower_hex_string(), "a");
    assert_eq!(U4::B1010.display_string(), "10");
    assert_eq!(U1::B0.display_string(), "0");
}

#[test]
fn range_renderings() {
    assert_eq!(R2::X1.debug_string(), "0x1");
    assert_eq!(R16::Xf.debug_string(), "0xf");
    assert_eq!(R17::X01.debug_string(), "0x01");
    assert_eq!(R17::X10.debug_string(), "0x10");
    assert_eq!(R32::X1f.debug_string(), "0x1f");
    assert_eq!(R32::X1f.display_string(), "31");
    assert_eq!(R32::X1f.lower_hex_string(), "1f");
    assert_eq!(R16::Xa.display_string(), "10");
    assert_eq!(R16::Xa.lower_hex_string(), "a");
    assert_eq!(R2::X0.display_string(), "0");
}

#[test]
fn digits_in_a_radix() {
    assert_eq!(digit_string(0, 10), "0");
    assert_eq!(digit_string(4294967295, 10), "4294967295");
    assert_eq!(digit_string(255, 16), "ff");
    assert_eq!(digit_string(5, 2), "101");
    assert_eq!(digit_string(8, 8), "10");
    assert_eq!(binary_literal(5, 3), "0b101");
    assert_eq!(binary_literal(5, 0), "0b");
    assert_eq!(binary_literal(5, 2), "0b01");
    assert_eq!(hex_literal(0xabc, 5), "0x00abc");
    assert_eq!(hex_literal(0xabc, 2), "0xbc");
}
