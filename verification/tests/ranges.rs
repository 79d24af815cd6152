use bobbin_bits::{widen, RangeError, RangeIndex, R1, R16, R17, R2, R3, R32, R4, R6, R7};

#[test]
fn test_r2() {
    let v0 = R2::X0;
    let v1 = R2::X1;

    assert!(v0 == 0);
    assert!(v1 == 1);

    assert!(v0 == 0u8);
    assert!(v1 == 1u8);

    assert!(v0 == 0u16);
    assert!(v1 == 1u16);

    assert!(v0 == 0u32);
    assert!(v1 == 1u32);

    assert!(v0 == 0usize);
    assert!(v1 == 1usize);

    assert!(v0 == R2::try_from(0).unwrap());
    assert!(v1 == R2::try_from(1).unwrap());

    assert!(v0 == R2::try_from(0u8).unwrap());
    assert!(v1 == R2::try_from(1u8).unwrap());

    assert!(v0 == R2::try_from(0u16).unwrap());
    assert!(v1 == R2::try_from(1u16).unwrap());

    assert!(v0 == R2::try_from(0u32).unwrap());
    assert!(v1 == R2::try_from(1u32).unwrap());

    assert!(v0 == R2::try_from(0usize).unwrap());
    assert!(v1 == R2::try_from(1usize).unwrap());

    let x0: usize = v0.into();
    let x1: usize = v1.into();
    assert_eq!(x0, 0usize);
    assert_eq!(x1, 1usize);
}

#[test]
fn range_methods_agree_with_traits() {
    let v1 = R2::X1;
    assert!(v1.eq_i32(1) && v1.eq_u8(1) && v1.eq_u16(1) && v1.eq_u32(1) && v1.eq_usize(1));
    assert!(R4::try_from_i32(-1) == R4::try_from(-1i32));
    assert!(R4::try_from_u8(3) == R4::try_from(3u8));
    assert!(R4::try_from_u16(4) == R4::try_from(4u16));
    assert!(R4::try_from_u32(2) == R4::try_from(2u32));
    assert!(R4::try_from_usize(5) == R4::try_from(5usize));
    assert_eq!(u8::from(R4::X3), 3);
    assert_eq!(u16::from(R4::X3), 3);
    assert_eq!(u32::from(R4::X3), 3);
    assert_eq!(usize::from(R4::X3), 3);
    assert_eq!(i32::from(R4::X3), 3);
    assert!(R4::X3 != 2u8);
    assert!(R4::X3 != -3);
    assert!(R32::X1f == 31usize);
}

#[test]
fn test_range_convert() {
    let r2 = R2::X1;
    let r3: R3 = r2.into();
    let r4: R4 = r3.into();
    assert_eq!(r2.value(), r3.value());
    assert_eq!(r2.value(), r4.value());
}

#[test]
fn widened_index_still_equals_one() {
    let r2 = R2::X1;
    let r4: R4 = r2.into();
    assert!(r4 == R4::X1);
    assert!(r4.eq_u8(1u8));
    assert!(r4.eq_u16(1u16));
    assert!(r4.eq_u32(1u32));
    assert!(r4.eq_usize(1usize));
    assert!(r4.eq_i32(1i32));
    let r32: R32 = widen(r4);
    assert!(r32 == R32::X01);
    let same: R4 = widen(r4);
    assert!(same == r4);
}

#[test]
fn widening_keeps_every_index() {
    for i in 0usize..16 {
        let a = R16::try_from_usize(i).unwrap();
        let b: R17 = a.into();
        let c: R32 = a.into();
        let d: R32 = b.into();
        assert_eq!(b.value(), i);
        assert_eq!(c.value(), i);
        assert_eq!(d.value(), i);
    }
    let last: R7 = R6::X5.into();
    assert!(last == R7::X5);
}

#[test]
fn range_round_trip() {
    for i in 0u8..32 {
        let r = R32::try_from_u8(i).unwrap();
        assert_eq!(r.value(), i as usize);
        assert_eq!(r.into_u8(), i);
        assert_eq!(r.into_u16(), i as u16);
        assert_eq!(r.into_u32(), i as u32);
        assert_eq!(r.into_usize(), i as usize);
        assert_eq!(r.into_i32(), i as i32);
        assert!(r == R32::try_from_u16(i as u16).unwrap());
        assert!(r == R32::try_from_u32(i as u32).unwrap());
        assert!(r == R32::try_from_usize(i as usize).unwrap());
        assert!(r == R32::try_from_i32(i as i32).unwrap());
    }
    assert!(R1::try_from_u8(0) == Ok(R1::X0));
    assert!(R17::try_from_u8(16) == Ok(R17::X10));
    assert!(R16::try_from_u8(10) == Ok(R16::Xa));
}

#[test]
fn range_rejects_the_count_and_above() {
    assert!(R1::try_from_u8(1) == Err(RangeError));
    assert!(R2::try_from_u8(2) == Err(RangeError));
    assert!(R6::try_from_u16(6) == Err(RangeError));
    assert!(R7::try_from_u32(7) == Err(RangeError));
    assert!(R32::try_from_usize(32) == Err(RangeError));
    assert!(R32::try_from_usize(usize::MAX) == Err(RangeError));
    assert!(R32::try_from_u32(u32::MAX) == Err(RangeError));
    assert!(R4::try_from_i32(-1) == Err(RangeError));
    assert!(R4::try_from_i32(4) == Err(RangeError));
    assert!(R4::try_from_i32(3) == Ok(R4::X3));
}

#[test]
fn range_equality_is_numeric() {
    assert!(!R4::X3.eq_i32(-3));
    assert!(!R4::X3.eq_u8(2));
    assert!(!R4::X3.eq_u16(0x103));
    assert!(!R4::X3.eq_u32(0x1_0003));
    assert!(!R4::X0.eq_i32(i32::MIN));
    assert!(R32::X1f.eq_usize(31));
}

#[test]
fn range_unchecked_keeps_the_index() {
    assert!(R4::from_u8_unchecked(2) == R4::X2);
    assert!(R4::from_u16_unchecked(2) == R4::X2);
    assert!(R4::from_u32_unchecked(2) == R4::X2);
    assert!(R4::from_usize_unchecked(2) == R4::X2);
    assert_eq!(R4::cardinality(), 4);
    assert_eq!(R32::cardinality(), 32);
}

#[test]
fn port_lookup() {
    fn port_name(index: R4) -> &'static str {
        match index {
            R4::X0 => "PORTA",
            R4::X1 => "PORTB",
            R4::X2 => "PORTC",
            R4::X3 => "PORTD",
        }
    }
    let addr: [u32; 4] = [0x1000_0000, 0x1000_2000, 0x1000_3000, 0x1000_4000];
    assert_eq!(port_name(R4::try_from_i32(2).unwrap()), "PORTC");
    assert_eq!(port_name(R4::X2), "PORTC");
    assert_eq!(addr[R4::X3.value()], 0x1000_4000);
}
