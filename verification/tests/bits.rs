use bobbin_bits::{BitField, RangeError, U1, U12, U13, U16, U2, U3, U32, U4, U7, U8, U9};

#[test]
fn it_works() {
    assert!(U1::try_from(0) == Ok(U1::B0));
    assert!(U1::try_from(1) == Ok(U1::B1));
    let v: u8 = U1::B0.into();
    assert_eq!(v, 0u8);
    assert_eq!(<U1 as Into<u8>>::into(U1::B1), 1u8);
}

#[test]
fn test_bool_cast() {
    assert_eq!(true as u32, 1);
    assert_eq!(false as u32, 0);
    assert_eq!(0 != 0, false);
    assert_eq!(1 != 0, true);
}

#[test]
fn test_fn_into() {
    fn abc<V: TryInto<U2>>(v: V) -> U2 {
        v.try_into().ok().unwrap()
    }
    assert!(abc(0b00u8) == U2::B00);
    assert!(abc(0b11u8) == U2::B11);

    fn def<V: Into<u8>>(v: V) -> u8 {
        v.into()
    }

    assert_eq!(def(U2::B01), 0b01u8);
    assert_eq!(def(0b01u8), 0b01u8);

    assert!(U1::B0 == U1::from(false));
    assert!(U1::B1 == U1::from(true));
}

#[test]
fn test_b1() {
    let f = U1::B0;
    let t = U1::B1;

    assert!(t.is_set());
    assert!(!f.is_set());

    assert!(t.value() != 0);
    assert!(f.value() == 0);

    assert!(t == 1);
    assert!(f == 0);
}

#[test]
fn test_b16() {
    fn use_b16<V: TryInto<U16>>(v: V) -> U16 {
        v.try_into().ok().unwrap()
    }
    fn use_u16(v: u16) -> u16 {
        v
    }

    let x: U16 = U16::try_from(0).unwrap();
    assert_eq!(x.value(), 0);

    let x: U16 = U16::try_from(0b1111).unwrap();
    assert!(use_b16(x) == x);
    assert!(use_b16(0b1111) == x);

    assert!(x == 0b1111);
    assert!(use_u16(x.into()) == 0b1111u16);

    assert!(U16::try_from(8).unwrap().value() < 9);
}

#[test]
fn methods_agree_with_traits() {
    assert!(U1::try_from_i32(0) == U1::try_from(0i32));
    assert!(U3::try_from_u8(9) == U3::try_from(9u8));
    assert!(U3::try_from_u16(5) == U3::try_from(5u16));
    assert!(U12::try_from_u32(0xfff) == U12::try_from(0xfffu32));
    assert!(U12::try_from_usize(0x1000) == U12::try_from(0x1000usize));
    assert!(U16::from(7u8) == U16::try_from_u8(7).unwrap());
    assert!(U16::from(0xffffu16).value() == 0xffff);
    assert!(U32::from(u32::MAX).value() == u32::MAX);
    assert!(U8::from(0xffu8).value() == 0xff);
    assert!(U13::from(200u8) == U13::try_from(200).unwrap());
    assert_eq!(u8::from(U3::B101), U3::B101.into_u8());
    assert_eq!(u16::from(U3::B101), U3::B101.into_u16());
    assert_eq!(u32::from(U3::B101), U3::B101.into_u32());
    assert_eq!(usize::from(U3::B101), U3::B101.into_usize());
    assert_eq!(i32::from(U3::B101), U3::B101.into_i32());
    let x = U16::try_from(0x100).unwrap();
    assert_eq!(u8::try_from(x), x.try_into_u8());
    assert_eq!(u8::try_from(x), Err(RangeError));
    assert_eq!(u16::from(x), 0x100);
    let top = U32::from(0x8000_0000u32);
    assert_eq!(i32::try_from(top), Err(RangeError));
    assert_eq!(u16::try_from(top), Err(RangeError));
    assert_eq!(u32::from(top), 0x8000_0000);
    assert!(U3::B101 == 5);
    assert!(U3::B101 != 4);
    assert!(U3::B101 != -5);
    assert!(top != i32::MIN);
    assert!(top != -1);
}

#[test]
fn flag_from_bool() {
    assert!(U1::from(true).is_set());
    assert!(!U1::from(false).is_set());
    assert!(U1::from(false).eq_i32(0));
    assert!(U1::from(true).eq_i32(1));
    assert!(!U1::from(true).eq_i32(0));
    let b: U1 = true.into();
    assert!(b == U1::B1);
}

#[test]
fn flag_not_returns_operand() {
    assert!(!U1::B1 == U1::B1);
    assert!(!U1::B0 == U1::B0);
}

#[test]
fn width_four_rejects_twenty() {
    assert!(U4::try_from_u8(20) == Err(RangeError));
    assert!(U4::try_from_u16(20) == Err(RangeError));
    assert!(U4::try_from_u32(20) == Err(RangeError));
    assert!(U4::try_from_usize(20) == Err(RangeError));
    assert!(U4::try_from_i32(20) == Err(RangeError));
    assert!(U4::try_from_u8(15) == Ok(U4::B1111));
    assert!(U4::try_from_u8(16) == Err(RangeError));
}

#[test]
fn negative_is_rejected() {
    assert!(U3::try_from_i32(-1) == Err(RangeError));
    assert!(U8::try_from_i32(-1) == Err(RangeError));
    assert!(U16::try_from_i32(i32::MIN) == Err(RangeError));
    assert!(U32::try_from_i32(-1) == Err(RangeError));
    assert!(U32::try_from_i32(0).unwrap().value() == 0);
    assert!(U32::try_from_i32(i32::MAX).unwrap().value() == 0x7fff_ffff);
}

#[test]
fn seven_bits_reject_the_eighth() {
    assert!(U7::try_from_u8(0x7f).unwrap().value() == 0x7f);
    assert!(U7::try_from_u8(0x80) == Err(RangeError));
    assert!(U7::try_from_u8(0xff) == Err(RangeError));
    assert!(U8::try_from_u8(0xff).unwrap().value() == 0xff);
    assert!(U8::try_from_u16(0x100) == Err(RangeError));
}

#[test]
fn round_trip_through_every_source() {
    for v in 0u16..0x1000 {
        assert_eq!(U12::try_from_u16(v).unwrap().value(), v);
        assert_eq!(U12::try_from_u32(v as u32).unwrap().value(), v);
        assert_eq!(U12::try_from_usize(v as usize).unwrap().value(), v);
        assert_eq!(U12::try_from_i32(v as i32).unwrap().value(), v);
    }
    for v in 0u8..=0xff {
        assert_eq!(U12::try_from_u8(v).unwrap().value(), v as u16);
        assert_eq!(U8::try_from_u8(v).unwrap().value(), v);
    }
    for v in 0u8..8 {
        assert_eq!(U3::try_from_u8(v).unwrap().value(), v);
    }
    for v in 0x1000u32..0x1100 {
        assert!(U12::try_from_u32(v) == Err(RangeError));
    }
    assert!(U12::try_from_usize(usize::MAX) == Err(RangeError));
    assert!(U32::try_from_usize(0xffff_ffff).unwrap().value() == 0xffff_ffff);
    assert!(U32::try_from_u32(u32::MAX).unwrap().value() == u32::MAX);
}

#[test]
fn no_value_has_a_high_bit() {
    for v in 0u32..0x400 {
        match U9::try_from_u32(v) {
            Ok(x) => assert_eq!(x.value() & !0x1ff, 0),
            Err(RangeError) => assert!(v & !0x1ff != 0),
        }
    }
}

#[test]
fn zero_is_the_zero_member() {
    assert!(U1::try_from_u8(0) == Ok(U1::B0));
    assert!(U2::try_from_u8(0) == Ok(U2::B00));
    assert!(U3::try_from_u8(0) == Ok(U3::B000));
    assert!(U4::try_from_u8(0) == Ok(U4::B0000));
    assert!(U3::B101.eq_i32(5));
    assert!(!U3::B101.eq_i32(-5));
    assert!(!U32::try_from_u32(0xffff_ffff).unwrap().eq_i32(-1));
}

#[test]
fn sixteen_bits_export() {
    let x = U16::try_from_i32(0b1111).unwrap();
    assert_eq!(x.into_u16(), 15u16);
    assert_eq!(x.try_into_u8(), Ok(15u8));
    let y = U16::try_from_i32(0x100).unwrap();
    assert_eq!(y.try_into_u8(), Err(RangeError));
    assert_eq!(y.try_into_u16(), Ok(0x100u16));
    assert_eq!(y.into_u32(), 0x100u32);
    assert_eq!(y.into_usize(), 0x100usize);
    assert_eq!(y.into_i32(), 0x100i32);
}

#[test]
fn wide_export_is_checked() {
    let x = U32::try_from_u32(0x1_0000).unwrap();
    assert_eq!(x.try_into_u16(), Err(RangeError));
    assert_eq!(x.try_into_u8(), Err(RangeError));
    assert_eq!(x.try_into_i32(), Ok(0x1_0000));
    let top = U32::try_from_u32(0x8000_0000).unwrap();
    assert_eq!(top.try_into_i32(), Err(RangeError));
    let most = U32::try_from_u32(0x7fff_ffff).unwrap();
    assert_eq!(most.try_into_i32(), Ok(i32::MAX));
    let low = U32::try_from_u32(0xff).unwrap();
    assert_eq!(low.try_into_u8(), Ok(0xffu8));
    assert_eq!(low.try_into_u16(), Ok(0xffu16));
    let edge = U32::try_from_u32(0xffff).unwrap();
    assert_eq!(edge.try_into_u16(), Ok(0xffffu16));
}

#[test]
fn unchecked_keeps_the_number() {
    assert!(U3::from_u8_unchecked(5) == U3::B101);
    assert!(U3::from_u16_unchecked(5) == U3::B101);
    assert!(U3::from_u32_unchecked(5) == U3::B101);
    assert!(U3::from_usize_unchecked(5) == U3::B101);
    assert_eq!(U13::from_u8_unchecked(200).value(), 200);
    assert_eq!(U13::from_u16_unchecked(2000).value(), 2000);
    assert_eq!(U13::from_u32_unchecked(2000).value(), 2000);
    assert_eq!(U13::from_usize_unchecked(2000).value(), 2000);
    let v = 0b0000_0000_1000_0000u32;
    assert!(U4::from_u32_unchecked(v >> 4 & 0b1111) == U4::B1000);
}

#[test]
fn doubling_a_sample() {
    let v = U12::try_from_i32(1000).unwrap();
    let d = U13::try_from_u16(v.value() * 2).unwrap();
    assert!(d == U13::try_from_i32(2000).unwrap());
    assert_eq!(d.value(), 2000u16);
}

#[test]
fn hex_char_by_exhaustive_match() {
    fn to_hex_char<V: TryInto<U4>>(v: V) -> char {
        match v.try_into().ok().unwrap() {
            U4::B0000 => '0',
            U4::B0001 => '1',
            U4::B0010 => '2',
            U4::B0011 => '3',
            U4::B0100 => '4',
            U4::B0101 => '5',
            U4::B0110 => '6',
            U4::B0111 => '7',
            U4::B1000 => '8',
            U4::B1001 => '9',
            U4::B1010 => 'a',
            U4::B1011 => 'b',
            U4::B1100 => 'c',
            U4::B1101 => 'd',
            U4::B1110 => 'e',
            U4::B1111 => 'f',
        }
    }
    assert_eq!(to_hex_char(U4::B1000), '8');
    assert_eq!(to_hex_char(8), '8');
    assert_eq!(to_hex_char(8_u8), '8');
    let v: U4 = 8u32.try_into().unwrap();
    assert_eq!(to_hex_char(v), '8');
    assert_eq!(to_hex_char(U4::from_u32_unchecked(0b0000_0000_1000_0000 >> 4 & 0b1111)), '8');
}
