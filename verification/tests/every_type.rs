use bobbin_bits::{
    BitField, RangeError, RangeIndex, R1, R10, R11, R12, R13, R14, R15, R16, R17, R18, R19, R2,
    R20, R21, R22, R23, R24, R25, R26, R27, R28, R29, R3, R30, R31, R32, R4, R5, R6, R7, R8, R9,
    U1, U10, U11, U12, U13, U14, U15, U16, U17, U18, U19, U2, U20, U21, U22, U23, U24, U25, U26,
    U27, U28, U29, U3, U30, U31, U32, U4, U5, U6, U7, U8, U9,
};

fn bits_edges<T: BitField + PartialEq>(width: u32) {
    assert_eq!(T::bit_width(), width);
    let top: u64 = (1u64 << width) - 1;
    let most = T::try_from_usize(top as usize).ok().unwrap();
    assert_eq!(most.into_u32() as u64, top);
    assert_eq!(most.into_usize() as u64, top);
    assert!(T::try_from_u32(top as u32).ok().unwrap() == most);
    assert!(T::from_u32_unchecked(top as u32) == most);
    assert!(T::try_from_usize((top + 1) as usize) == Err(RangeError));
    assert!(T::try_from_usize(usize::MAX) == Err(RangeError));
    assert!(T::try_from_i32(-1) == Err(RangeError));
    assert!(T::try_from_i32(i32::MIN) == Err(RangeError));
    let zero = T::try_from_u8(0).ok().unwrap();
    assert_eq!(zero.into_u32(), 0);
    assert!(zero.eq_i32(0));
    assert!(!zero.eq_i32(-1));
    assert!(T::try_from_i32(1).ok().unwrap().eq_i32(1));
    if width < 32 {
        assert!(T::try_from_u32((top + 1) as u32) == Err(RangeError));
        assert!(T::try_from_u32(u32::MAX) == Err(RangeError));
    }
    if width < 31 {
        assert!(T::try_from_i32((top + 1) as i32) == Err(RangeError));
        assert!(T::try_from_i32(i32::MAX) == Err(RangeError));
    }
    if width < 16 {
        assert!(T::try_from_u16((top + 1) as u16) == Err(RangeError));
    } else {
        assert_eq!(T::try_from_u16(u16::MAX).ok().unwrap().into_u32(), 0xffff);
    }
    if width < 8 {
        assert!(T::try_from_u8((top + 1) as u8) == Err(RangeError));
    } else {
        assert_eq!(T::try_from_u8(u8::MAX).ok().unwrap().into_u32(), 0xff);
    }
    assert_eq!(most.try_into_u8(), if width <= 8 { Ok(top as u8) } else { Err(RangeError) });
    assert_eq!(most.try_into_u16(), if width <= 16 { Ok(top as u16) } else { Err(RangeError) });
    assert_eq!(most.try_into_i32(), if width <= 31 { Ok(top as i32) } else { Err(RangeError) });
    let digits = if width <= 6 { width as usize } else { ((width + 3) / 4) as usize };
    let text = most.debug_string();
    assert_eq!(text.len(), 2 + digits);
    if width <= 6 {
        assert_eq!(text, format!("0b{:b}", top));
        assert_eq!(zero.debug_string(), format!("0b{}", "0".repeat(digits)));
    } else {
        assert_eq!(text, format!("0x{:0w$x}", top, w = digits));
        assert_eq!(zero.debug_string(), format!("0x{}", "0".repeat(digits)));
    }
    assert_eq!(most.display_string(), format!("{}", top));
    assert_eq!(most.lower_hex_string(), format!("{:x}", top));
}

#[test]
fn every_width_keeps_its_domain() {
    bits_edges::<U1>(1);
    bits_edges::<U2>(2);
    bits_edges::<U3>(3);
    bits_edges::<U4>(4);
    bits_edges::<U5>(5);
    bits_edges::<U6>(6);
    bits_edges::<U7>(7);
    bits_edges::<U8>(8);
    bits_edges::<U9>(9);
    bits_edges::<U10>(10);
    bits_edges::<U11>(11);
    bits_edges::<U12>(12);
    bits_edges::<U13>(13);
    bits_edges::<U14>(14);
    bits_edges::<U15>(15);
    bits_edges::<U16>(16);
    bits_edges::<U17>(17);
    bits_edges::<U18>(18);
    bits_edges::<U19>(19);
    bits_edges::<U20>(20);
    bits_edges::<U21>(21);
    bits_edges::<U22>(22);
    bits_edges::<U23>(23);
    bits_edges::<U24>(24);
    bits_edges::<U25>(25);
    bits_edges::<U26>(26);
    bits_edges::<U27>(27);
    bits_edges::<U28>(28);
    bits_edges::<U29>(29);
    bits_edges::<U30>(30);
    bits_edges::<U31>(31);
    bits_edges::<U32>(32);
}

fn named_members<T: BitField + PartialEq>(width: u32) {
    for v in 0u32..(1 << width) {
        let x = T::try_from_u32(v).ok().unwrap();
        assert_eq!(x.into_u32(), v);
        assert!(T::from_u32_unchecked(v) == x);
        assert_eq!(x.debug_string(), format!("0b{:0w$b}", v, w = width as usize));
    }
}

#[test]
fn every_pattern_has_its_member() {
    named_members::<U1>(1);
    named_members::<U2>(2);
    named_members::<U3>(3);
    named_members::<U4>(4);
    named_members::<U5>(5);
    named_members::<U6>(6);
    assert_eq!(U2::B10.value(), 0b10);
    assert_eq!(U5::B10101.value(), 0b10101);
    assert_eq!(U6::B101010.value(), 42);
    assert_eq!(U6::B111111.value(), 63);
    assert!(U5::try_from_u8(0) == Ok(U5::B00000));
    assert!(U6::try_from_u8(0) == Ok(U6::B000000));
    assert!(U6::try_from_u8(33) == Ok(U6::B100001));
}

fn range_edges<T: RangeIndex + PartialEq>(count: usize) {
    assert_eq!(T::cardinality(), count);
    for i in 0..count {
        let x = T::try_from_usize(i).ok().unwrap();
        assert_eq!(x.into_usize(), i);
        assert!(x.into_usize() < count);
        assert_eq!(x.into_u8() as usize, i);
        assert_eq!(x.into_u16() as usize, i);
        assert_eq!(x.into_u32() as usize, i);
        assert_eq!(x.into_i32() as usize, i);
        assert!(T::from_usize_unchecked(i) == x);
        assert!(T::try_from_u8(i as u8).ok().unwrap() == x);
        assert!(T::try_from_i32(i as i32).ok().unwrap() == x);
        assert!(x.eq_usize(i) && x.eq_u8(i as u8) && x.eq_i32(i as i32));
        assert!(!x.eq_usize(i + 1));
        let text = if count <= 16 { format!("0x{:x}", i) } else { format!("0x{:02x}", i) };
        assert_eq!(x.debug_string(), text);
        assert_eq!(x.display_string(), format!("{}", i));
        assert_eq!(x.lower_hex_string(), format!("{:x}", i));
    }
    assert!(T::try_from_usize(count) == Err(RangeError));
    assert!(T::try_from_u8(count as u8) == Err(RangeError));
    assert!(T::try_from_u16(count as u16) == Err(RangeError));
    assert!(T::try_from_u32(count as u32) == Err(RangeError));
    assert!(T::try_from_i32(count as i32) == Err(RangeError));
    assert!(T::try_from_i32(-1) == Err(RangeError));
    assert!(T::try_from_usize(usize::MAX) == Err(RangeError));
}

#[test]
fn every_range_keeps_its_domain() {
    range_edges::<R1>(1);
    range_edges::<R2>(2);
    range_edges::<R3>(3);
    range_edges::<R4>(4);
    range_edges::<R5>(5);
    range_edges::<R6>(6);
    range_edges::<R7>(7);
    range_edges::<R8>(8);
    range_edges::<R9>(9);
    range_edges::<R10>(10);
    range_edges::<R11>(11);
    range_edges::<R12>(12);
    range_edges::<R13>(13);
    range_edges::<R14>(14);
    range_edges::<R15>(15);
    range_edges::<R16>(16);
    range_edges::<R17>(17);
    range_edges::<R18>(18);
    range_edges::<R19>(19);
    range_edges::<R20>(20);
    range_edges::<R21>(21);
    range_edges::<R22>(22);
    range_edges::<R23>(23);
    range_edges::<R24>(24);
    range_edges::<R25>(25);
    range_edges::<R26>(26);
    range_edges::<R27>(27);
    range_edges::<R28>(28);
    range_edges::<R29>(29);
    range_edges::<R30>(30);
    range_edges::<R31>(31);
    range_edges::<R32>(32);
    assert_eq!(R12::Xb.value(), 11);
    assert_eq!(R6::X5.value(), 5);
    assert_eq!(R32::X1f.value(), 31);
    assert_eq!(R17::X0a.value(), 10);
}
