//! From a native integer to a bit-width value, through the traits of `std`.
//!
//! Where every number of the source type fits in the width, the conversion
//! is `From` and makes no check. Everywhere else it is `TryFrom`, and fails
//! with the range violation exactly when the number is negative or has a
//! bit above the width.

use crate::bits::enums::{U1, U2, U3, U4, U5, U6};
use crate::bits::medium::{U10, U11, U12, U13, U14, U15, U16, U9};
use crate::bits::narrow::{U7, U8};
use crate::bits::wide::{
    U17, U18, U19, U20, U21, U22, U23, U24, U25, U26, U27, U28, U29, U30, U31, U32,
};
use crate::bits::{checked, BitField};
use crate::error::RangeError;
use vstd::prelude::*;
use vstd::std_specs::convert::{FromSpecImpl, TryFromSpecImpl};

verus! {

impl TryFrom<u8> for U1 {
    type Error = RangeError;

    fn try_from(other: u8) -> (r: Result<U1, RangeError>)
        ensures
            r matches Ok(x) ==> x@ == other,
    {
        U1::try_from_u8(other)
    }
}

impl TryFromSpecImpl<u8> for U1 {
    open spec fn obeys_try_from_spec() -> bool {
        true
    }

    open spec fn try_from_spec(other: u8) -> Result<U1, RangeError> {
        checked(other as int)
    }
}

impl TryFrom<u16> for U1 {
    type Error = RangeError;

    fn try_from(other: u16) -> (r: Result<U1, RangeError>)
        ensures
            r matches Ok(x) ==> x@ == other,
    {
        U1::try_from_u16(other)
    }
}

impl TryFromSpecImpl<u16> for U1 {
    open spec fn obeys_try_from_spec() -> bool {
        true
    }

    open spec fn try_from_spec(other: u16) -> Result<U1, RangeError> {
        checked(other as int)
    }
}

impl TryFrom<u32> for U1 {
    type Error = RangeError;

    fn try_from(other: u32) -> (r: Result<U1, RangeError>)
        ensures
            r matches Ok(x) ==> x@ == other,
    {
        U1::try_from_u32(other)
    }
}

impl TryFromSpecImpl<u32> for U1 {
    open spec fn obeys_try_from_spec() -> bool {
        true
    }

    open spec fn try_from_spec(other: u32) -> Result<U1, RangeError> {
        checked(other as int)
    }
}

impl TryFrom<usize> for U1 {
    type Error = RangeError;

    fn try_from(other: usize) -> (r: Result<U1, RangeError>)
        ensures
            r matches Ok(x) ==> x@ == other,
    {
        U1::try_from_usize(other)
    }
}

impl TryFromSpecImpl<usize> for U1 {
    open spec fn obeys_try_from_spec() -> bool {
        true
    }

    open spec fn try_from_spec(other: usize) -> Result<U1, RangeError> {
        checked(other as int)
    }
}

impl TryFrom<i32> for U1 {
    type Error = RangeError;

    fn try_from(other: i32) -> (r: Result<U1, RangeError>)
        ensures
            r matches Ok(x) ==> x@ == other,
    {
        U1::try_from_i32(other)
    }
}

impl TryFromSpecImpl<i32> for U1 {
    open spec fn obeys_try_from_spec() -> bool {
        true
    }

    open spec fn try_from_spec(other: i32) -> Result<U1, RangeError> {
        checked(other as int)
    }
}

impl TryFrom<u8> for U2 {
    type Error = RangeError;

    fn try_from(other: u8) -> (r: Result<U2, RangeError>)
        ensures
            r matches Ok(x) ==> x@ == other,
    {
        U2::try_from_u8(other)
    }
}

impl TryFromSpecImpl<u8> for U2 {
    open spec fn obeys_try_from_spec() -> bool {
        true
    }

    open spec fn try_from_spec(other: u8) -> Result<U2, RangeError> {
        checked(other as int)
    }
}

impl TryFrom<u16> for U2 {
    type Error = RangeError;

    fn try_from(other: u16) -> (r: Result<U2, RangeError>)
        ensures
            r matches Ok(x) ==> x@ == other,
    {
        U2::try_from_u16(other)
    }
}

impl TryFromSpecImpl<u16> for U2 {
    open spec fn obeys_try_from_spec() -> bool {
        true
    }

    open spec fn try_from_spec(other: u16) -> Result<U2, RangeError> {
        checked(other as int)
    }
}

impl TryFrom<u32> for U2 {
    type Error = RangeError;

    fn try_from(other: u32) -> (r: Result<U2, RangeError>)
        ensures
            r matches Ok(x) ==> x@ == other,
    {
        U2::try_from_u32(other)
    }
}

impl TryFromSpecImpl<u32> for U2 {
    open spec fn obeys_try_from_spec() -> bool {
        true
    }

    open spec fn try_from_spec(other: u32) -> Result<U2, RangeError> {
        checked(other as int)
    }
}

impl TryFrom<usize> for U2 {
    type Error = RangeError;

    fn try_from(other: usize) -> (r: Result<U2, RangeError>)
        ensures
            r matches Ok(x) ==> x@ == other,
    {
        U2::try_from_usize(other)
    }
}

impl TryFromSpecImpl<usize> for U2 {
    open spec fn obeys_try_from_spec() -> bool {
        true
    }

    open spec fn try_from_spec(other: usize) -> Result<U2, RangeError> {
        checked(other as int)
    }
}

impl TryFrom<i32> for U2 {
    type Error = RangeError;

    fn try_from(other: i32) -> (r: Result<U2, RangeError>)
        ensures
            r matches Ok(x) ==> x@ == other,
    {
        U2::try_from_i32(other)
    }
}

impl TryFromSpecImpl<i32> for U2 {
    open spec fn obeys_try_from_spec() -> bool {
        true
    }

    open spec fn try_from_spec(other: i32) -> Result<U2, RangeError> {
        checked(other as int)
    }
}

impl TryFrom<u8> for U3 {
    type Error = RangeError;

    fn try_from(other: u8) -> (r: Result<U3, RangeError>)
        ensures
            r matches Ok(x) ==> x@ == other,
    {
        U3::try_from_u8(other)
    }
}

impl TryFromSpecImpl<u8> for U3 {
    open spec fn obeys_try_from_spec() -> bool {
        true
    }

    open spec fn try_from_spec(other: u8) -> Result<U3, RangeError> {
        checked(other as int)
    }
}

impl TryFrom<u16> for U3 {
    type Error = RangeError;

    fn try_from(other: u16) -> (r: Result<U3, RangeError>)
        ensures
            r matches Ok(x) ==> x@ == other,
    {
        U3::try_from_u16(other)
    }
}

impl TryFromSpecImpl<u16> for U3 {
    open spec fn obeys_try_from_spec() -> bool {
        true
    }

    open spec fn try_from_spec(other: u16) -> Result<U3, RangeError> {
        checked(other as int)
    }
}

impl TryFrom<u32> for U3 {
    type Error = RangeError;

    fn try_from(other: u32) -> (r: Result<U3, RangeError>)
        ensures
            r matches Ok(x) ==> x@ == other,
    {
        U3::try_from_u32(other)
    }
}

impl TryFromSpecImpl<u32> for U3 {
    open spec fn obeys_try_from_spec() -> bool {
        true
    }

    open spec fn try_from_spec(other: u32) -> Result<U3, RangeError> {
        checked(other as int)
    }
}

impl TryFrom<usize> for U3 {
    type Error = RangeError;

    fn try_from(other: usize) -> (r: Result<U3, RangeError>)
        ensures
            r matches Ok(x) ==> x@ == other,
    {
        U3::try_from_usize(other)
    }
}

impl TryFromSpecImpl<usize> for U3 {
    open spec fn obeys_try_from_spec() -> bool {
        true
    }

    open spec fn try_from_spec(other: usize) -> Result<U3, RangeError> {
        checked(other as int)
    }
}

impl TryFrom<i32> for U3 {
    type Error = RangeError;

    fn try_from(other: i32) -> (r: Result<U3, RangeError>)
        ensures
            r matches Ok(x) ==> x@ == other,
    {
        U3::try_from_i32(other)
    }
}

impl TryFromSpecImpl<i32> for U3 {
    open spec fn obeys_try_from_spec() -> bool {
        true
    }

    open spec fn try_from_spec(other: i32) -> Result<U3, RangeError> {
        checked(other as int)
    }
}

impl TryFrom<u8> for U4 {
    type Error = RangeError;

    fn try_from(other: u8) -> (r: Result<U4, RangeError>)
        ensures
            r matches Ok(x) ==> x@ == other,
    {
        U4::try_from_u8(other)
    }
}

impl TryFromSpecImpl<u8> for U4 {
    open spec fn obeys_try_from_spec() -> bool {
        true
    }

    open spec fn try_from_spec(other: u8) -> Result<U4, RangeError> {
        checked(other as int)
    }
}

impl TryFrom<u16> for U4 {
    type Error = RangeError;

    fn try_from(other: u16) -> (r: Result<U4, RangeError>)
        ensures
            r matches Ok(x) ==> x@ == other,
    {
        U4::try_from_u16(other)
    }
}

impl TryFromSpecImpl<u16> for U4 {
    open spec fn obeys_try_from_spec() -> bool {
        true
    }

    open spec fn try_from_spec(other: u16) -> Result<U4, RangeError> {
        checked(other as int)
    }
}

impl TryFrom<u32> for U4 {
    type Error = RangeError;

    fn try_from(other: u32) -> (r: Result<U4, RangeError>)
        ensures
            r matches Ok(x) ==> x@ == other,
    {
        U4::try_from_u32(other)
    }
}

impl TryFromSpecImpl<u32> for U4 {
    open spec fn obeys_try_from_spec() -> bool {
        true
    }

    open spec fn try_from_spec(other: u32) -> Result<U4, RangeError> {
        checked(other as int)
    }
}

impl TryFrom<usize> for U4 {
    type Error = RangeError;

    fn try_from(other: usize) -> (r: Result<U4, RangeError>)
        ensures
            r matches Ok(x) ==> x@ == other,
    {
        U4::try_from_usize(other)
    }
}

impl TryFromSpecImpl<usize> for U4 {
    open spec fn obeys_try_from_spec() -> bool {
        true
    }

    open spec fn try_from_spec(other: usize) -> Result<U4, RangeError> {
        checked(other as int)
    }
}

impl TryFrom<i32> for U4 {
    type Error = RangeError;

    fn try_from(other: i32) -> (r: Result<U4, RangeError>)
        ensures
            r matches Ok(x) ==> x@ == other,
    {
        U4::try_from_i32(other)
    }
}

impl TryFromSpecImpl<i32> for U4 {
    open spec fn obeys_try_from_spec() -> bool {
        true
    }

    open spec fn try_from_spec(other: i32) -> Result<U4, RangeError> {
        checked(other as int)
    }
}

impl TryFrom<u8> for U5 {
    type Error = RangeError;

    fn try_from(other: u8) -> (r: Result<U5, RangeError>)
        ensures
            r matches Ok(x) ==> x@ == other,
    {
        U5::try_from_u8(other)
    }
}

impl TryFromSpecImpl<u8> for U5 {
    open spec fn obeys_try_from_spec() -> bool {
        true
    }

    open spec fn try_from_spec(other: u8) -> Result<U5, RangeError> {
        checked(other as int)
    }
}

impl TryFrom<u16> for U5 {
    type Error = RangeError;

    fn try_from(other: u16) -> (r: Result<U5, RangeError>)
        ensures
            r matches Ok(x) ==> x@ == other,
    {
        U5::try_from_u16(other)
    }
}

impl TryFromSpecImpl<u16> for U5 {
    open spec fn obeys_try_from_spec() -> bool {
        true
    }

    open spec fn try_from_spec(other: u16) -> Result<U5, RangeError> {
        checked(other as int)
    }
}

impl TryFrom<u32> for U5 {
    type Error = RangeError;

    fn try_from(other: u32) -> (r: Result<U5, RangeError>)
        ensures
            r matches Ok(x) ==> x@ == other,
    {
        U5::try_from_u32(other)
    }
}

impl TryFromSpecImpl<u32> for U5 {
    open spec fn obeys_try_from_spec() -> bool {
        true
    }

    open spec fn try_from_spec(other: u32) -> Result<U5, RangeError> {
        checked(other as int)
    }
}

impl TryFrom<usize> for U5 {
    type Error = RangeError;

    fn try_from(other: usize) -> (r: Result<U5, RangeError>)
        ensures
            r matches Ok(x) ==> x@ == other,
    {
        U5::try_from_usize(other)
    }
}

impl TryFromSpecImpl<usize> for U5 {
    open spec fn obeys_try_from_spec() -> bool {
        true
    }

    open spec fn try_from_spec(other: usize) -> Result<U5, RangeError> {
        checked(other as int)
    }
}

impl TryFrom<i32> for U5 {
    type Error = RangeError;

    fn try_from(other: i32) -> (r: Result<U5, RangeError>)
        ensures
            r matches Ok(x) ==> x@ == other,
    {
        U5::try_from_i32(other)
    }
}

impl TryFromSpecImpl<i32> for U5 {
    open spec fn obeys_try_from_spec() -> bool {
        true
    }

    open spec fn try_from_spec(other: i32) -> Result<U5, RangeError> {
        checked(other as int)
    }
}

impl TryFrom<u8> for U6 {
    type Error = RangeError;

    fn try_from(other: u8) -> (r: Result<U6, RangeError>)
        ensures
            r matches Ok(x) ==> x@ == other,
    {
        U6::try_from_u8(other)
    }
}

impl TryFromSpecImpl<u8> for U6 {
    open spec fn obeys_try_from_spec() -> bool {
        true
    }

    open spec fn try_from_spec(other: u8) -> Result<U6, RangeError> {
        checked(other as int)
    }
}

impl TryFrom<u16> for U6 {
    type Error = RangeError;

    fn try_from(other: u16) -> (r: Result<U6, RangeError>)
        ensures
            r matches Ok(x) ==> x@ == other,
    {
        U6::try_from_u16(other)
    }
}

impl TryFromSpecImpl<u16> for U6 {
    open spec fn obeys_try_from_spec() -> bool {
        true
    }

    open spec fn try_from_spec(other: u16) -> Result<U6, RangeError> {
        checked(other as int)
    }
}

impl TryFrom<u32> for U6 {
    type Error = RangeError;

    fn try_from(other: u32) -> (r: Result<U6, RangeError>)
        ensures
            r matches Ok(x) ==> x@ == other,
    {
        U6::try_from_u32(other)
    }
}

impl TryFromSpecImpl<u32> for U6 {
    open spec fn obeys_try_from_spec() -> bool {
        true
    }

    open spec fn try_from_spec(other: u32) -> Result<U6, RangeError> {
        checked(other as int)
    }
}

impl TryFrom<usize> for U6 {
    type Error = RangeError;

    fn try_from(other: usize) -> (r: Result<U6, RangeError>)
        ensures
            r matches Ok(x) ==> x@ == other,
    {
        U6::try_from_usize(other)
    }
}

impl TryFromSpecImpl<usize> for U6 {
    open spec fn obeys_try_from_spec() -> bool {
        true
    }

    open spec fn try_from_spec(other: usize) -> Result<U6, RangeError> {
        checked(other as int)
    }
}

impl TryFrom<i32> for U6 {
    type Error = RangeError;

    fn try_from(other: i32) -> (r: Result<U6, RangeError>)
        ensures
            r matches Ok(x) ==> x@ == other,
    {
        U6::try_from_i32(other)
    }
}

impl TryFromSpecImpl<i32> for U6 {
    open spec fn obeys_try_from_spec() -> bool {
        true
    }

    open spec fn try_from_spec(other: i32) -> Result<U6, RangeError> {
        checked(other as int)
    }
}

impl TryFrom<u8> for U7 {
    type Error = RangeError;

    fn try_from(other: u8) -> (r: Result<U7, RangeError>)
        ensures
            r matches Ok(x) ==> x@ == other,
    {
        U7::try_from_u8(other)
    }
}

impl TryFromSpecImpl<u8> for U7 {
    open spec fn obeys_try_from_spec() -> bool {
        true
    }

    open spec fn try_from_spec(other: u8) -> Result<U7, RangeError> {
        checked(other as int)
    }
}

impl TryFrom<u16> for U7 {
    type Error = RangeError;

    fn try_from(other: u16) -> (r: Result<U7, RangeError>)
        ensures
            r matches Ok(x) ==> x@ == other,
    {
        U7::try_from_u16(other)
    }
}

impl TryFromSpecImpl<u16> for U7 {
    open spec fn obeys_try_from_spec() -> bool {
        true
    }

    open spec fn try_from_spec(other: u16) -> Result<U7, RangeError> {
        checked(other as int)
    }
}

impl TryFrom<u32> for U7 {
    type Error = RangeError;

    fn try_from(other: u32) -> (r: Result<U7, RangeError>)
        ensures
            r matches Ok(x) ==> x@ == other,
    {
        U7::try_from_u32(other)
    }
}

impl TryFromSpecImpl<u32> for U7 {
    open spec fn obeys_try_from_spec() -> bool {
        true
    }

    open spec fn try_from_spec(other: u32) -> Result<U7, RangeError> {
        checked(other as int)
    }
}

impl TryFrom<usize> for U7 {
    type Error = RangeError;

    fn try_from(other: usize) -> (r: Result<U7, RangeError>)
        ensures
            r matches Ok(x) ==> x@ == other,
    {
        U7::try_from_usize(other)
    }
}

impl TryFromSpecImpl<usize> for U7 {
    open spec fn obeys_try_from_spec() -> bool {
        true
    }

    open spec fn try_from_spec(other: usize) -> Result<U7, RangeError> {
        checked(other as int)
    }
}

impl TryFrom<i32> for U7 {
    type Error = RangeError;

    fn try_from(other: i32) -> (r: Result<U7, RangeError>)
        ensures
            r matches Ok(x) ==> x@ == other,
    {
        U7::try_from_i32(other)
    }
}

impl TryFromSpecImpl<i32> for U7 {
    open spec fn obeys_try_from_spec() -> bool {
        true
    }

    open spec fn try_from_spec(other: i32) -> Result<U7, RangeError> {
        checked(other as int)
    }
}

impl From<u8> for U8 {
    fn from(other: u8) -> (r: U8)
        ensures
            r@ == other,
    {
        U8::from_u8_unchecked(other)
    }
}

impl FromSpecImpl<u8> for U8 {
    open spec fn obeys_from_spec() -> bool {
        true
    }

    open spec fn from_spec(other: u8) -> U8 {
        U8::from_nat(other as nat)
    }
}

impl TryFrom<u16> for U8 {
    type Error = RangeError;

    fn try_from(other: u16) -> (r: Result<U8, RangeError>)
        ensures
            r matches Ok(x) ==> x@ == other,
    {
        U8::try_from_u16(other)
    }
}

impl TryFromSpecImpl<u16> for U8 {
    open spec fn obeys_try_from_spec() -> bool {
        true
    }

    open spec fn try_from_spec(other: u16) -> Result<U8, RangeError> {
        checked(other as int)
    }
}

impl TryFrom<u32> for U8 {
    type Error = RangeError;

    fn try_from(other: u32) -> (r: Result<U8, RangeError>)
        ensures
            r matches Ok(x) ==> x@ == other,
    {
        U8::try_from_u32(other)
    }
}

impl TryFromSpecImpl<u32> for U8 {
    open spec fn obeys_try_from_spec() -> bool {
        true
    }

    open spec fn try_from_spec(other: u32) -> Result<U8, RangeError> {
        checked(other as int)
    }
}

impl TryFrom<usize> for U8 {
    type Error = RangeError;

    fn try_from(other: usize) -> (r: Result<U8, RangeError>)
        ensures
            r matches Ok(x) ==> x@ == other,
    {
        U8::try_from_usize(other)
    }
}

impl TryFromSpecImpl<usize> for U8 {
    open spec fn obeys_try_from_spec() -> bool {
        true
    }

    open spec fn try_from_spec(other: usize) -> Result<U8, RangeError> {
        checked(other as int)
    }
}

impl TryFrom<i32> for U8 {
    type Error = RangeError;

    fn try_from(other: i32) -> (r: Result<U8, RangeError>)
        ensures
            r matches Ok(x) ==> x@ == other,
    {
        U8::try_from_i32(other)
    }
}

impl TryFromSpecImpl<i32> for U8 {
    open spec fn obeys_try_from_spec() -> bool {
        true
    }

    open spec fn try_from_spec(other: i32) -> Result<U8, RangeError> {
        checked(other as int)
    }
}

impl From<u8> for U9 {
    fn from(other: u8) -> (r: U9)
        ensures
            r@ == other,
    {
        U9::from_u8_unchecked(other)
    }
}

impl FromSpecImpl<u8> for U9 {
    open spec fn obeys_from_spec() -> bool {
        true
    }

    open spec fn from_spec(other: u8) -> U9 {
        U9::from_nat(other as nat)
    }
}

impl TryFrom<u16> for U9 {
    type Error = RangeError;

    fn try_from(other: u16) -> (r: Result<U9, RangeError>)
        ensures
            r matches Ok(x) ==> x@ == other,
    {
        U9::try_from_u16(other)
    }
}

impl TryFromSpecImpl<u16> for U9 {
    open spec fn obeys_try_from_spec() -> bool {
        true
    }

    open spec fn try_from_spec(other: u16) -> Result<U9, RangeError> {
        checked(other as int)
    }
}

impl TryFrom<u32> for U9 {
    type Error = RangeError;

    fn try_from(other: u32) -> (r: Result<U9, RangeError>)
        ensures
            r matches Ok(x) ==> x@ == other,
    {
        U9::try_from_u32(other)
    }
}

impl TryFromSpecImpl<u32> for U9 {
    open spec fn obeys_try_from_spec() -> bool {
        true
    }

    open spec fn try_from_spec(other: u32) -> Result<U9, RangeError> {
        checked(other as int)
    }
}

impl TryFrom<usize> for U9 {
    type Error = RangeError;

    fn try_from(other: usize) -> (r: Result<U9, RangeError>)
        ensures
            r matches Ok(x) ==> x@ == other,
    {
        U9::try_from_usize(other)
    }
}

impl TryFromSpecImpl<usize> for U9 {
    open spec fn obeys_try_from_spec() -> bool {
        true
    }

    open spec fn try_from_spec(other: usize) -> Result<U9, RangeError> {
        checked(other as int)
    }
}

impl TryFrom<i32> for U9 {
    type Error = RangeError;

    fn try_from(other: i32) -> (r: Result<U9, RangeError>)
        ensures
            r matches Ok(x) ==> x@ == other,
    {
        U9::try_from_i32(other)
    }
}

impl TryFromSpecImpl<i32> for U9 {
    open spec fn obeys_try_from_spec() -> bool {
        true
    }

    open spec fn try_from_spec(other: i32) -> Result<U9, RangeError> {
        checked(other as int)
    }
}

impl From<u8> for U10 {
    fn from(other: u8) -> (r: U10)
        ensures
            r@ == other,
    {
        U10::from_u8_unchecked(other)
    }
}

impl FromSpecImpl<u8> for U10 {
    open spec fn obeys_from_spec() -> bool {
        true
    }

    open spec fn from_spec(other: u8) -> U10 {
        U10::from_nat(other as nat)
    }
}

impl TryFrom<u16> for U10 {
    type Error = RangeError;

    fn try_from(other: u16) -> (r: Result<U10, RangeError>)
        ensures
            r matches Ok(x) ==> x@ == other,
    {
        U10::try_from_u16(other)
    }
}

impl TryFromSpecImpl<u16> for U10 {
    open spec fn obeys_try_from_spec() -> bool {
        true
    }

    open spec fn try_from_spec(other: u16) -> Result<U10, RangeError> {
        checked(other as int)
    }
}

impl TryFrom<u32> for U10 {
    type Error = RangeError;

    fn try_from(other: u32) -> (r: Result<U10, RangeError>)
        ensures
            r matches Ok(x) ==> x@ == other,
    {
        U10::try_from_u32(other)
    }
}

impl TryFromSpecImpl<u32> for U10 {
    open spec fn obeys_try_from_spec() -> bool {
        true
    }

    open spec fn try_from_spec(other: u32) -> Result<U10, RangeError> {
        checked(other as int)
    }
}

impl TryFrom<usize> for U10 {
    type Error = RangeError;

    fn try_from(other: usize) -> (r: Result<U10, RangeError>)
        ensures
            r matches Ok(x) ==> x@ == other,
    {
        U10::try_from_usize(other)
    }
}

impl TryFromSpecImpl<usize> for U10 {
    open spec fn obeys_try_from_spec() -> bool {
        true
    }

    open spec fn try_from_spec(other: usize) -> Result<U10, RangeError> {
        checked(other as int)
    }
}

impl TryFrom<i32> for U10 {
    type Error = RangeError;

    fn try_from(other: i32) -> (r: Result<U10, RangeError>)
        ensures
            r matches Ok(x) ==> x@ == other,
    {
        U10::try_from_i32(other)
    }
}

impl TryFromSpecImpl<i32> for U10 {
    open spec fn obeys_try_from_spec() -> bool {
        true
    }

    open spec fn try_from_spec(other: i32) -> Result<U10, RangeError> {
        checked(other as int)
    }
}

impl From<u8> for U11 {
    fn from(other: u8) -> (r: U11)
        ensures
            r@ == other,
    {
        U11::from_u8_unchecked(other)
    }
}

impl FromSpecImpl<u8> for U11 {
    open spec fn obeys_from_spec() -> bool {
        true
    }

    open spec fn from_spec(other: u8) -> U11 {
        U11::from_nat(other as nat)
    }
}

impl TryFrom<u16> for U11 {
    type Error = RangeError;

    fn try_from(other: u16) -> (r: Result<U11, RangeError>)
        ensures
            r matches Ok(x) ==> x@ == other,
    {
        U11::try_from_u16(other)
    }
}

impl TryFromSpecImpl<u16> for U11 {
    open spec fn obeys_try_from_spec() -> bool {
        true
    }

    open spec fn try_from_spec(other: u16) -> Result<U11, RangeError> {
        checked(other as int)
    }
}

impl TryFrom<u32> for U11 {
    type Error = RangeError;

    fn try_from(other: u32) -> (r: Result<U11, RangeError>)
        ensures
            r matches Ok(x) ==> x@ == other,
    {
        U11::try_from_u32(other)
    }
}

impl TryFromSpecImpl<u32> for U11 {
    open spec fn obeys_try_from_spec() -> bool {
        true
    }

    open spec fn try_from_spec(other: u32) -> Result<U11, RangeError> {
        checked(other as int)
    }
}

impl TryFrom<usize> for U11 {
    type Error = RangeError;

    fn try_from(other: usize) -> (r: Result<U11, RangeError>)
        ensures
            r matches Ok(x) ==> x@ == other,
    {
        U11::try_from_usize(other)
    }
}

impl TryFromSpecImpl<usize> for U11 {
    open spec fn obeys_try_from_spec() -> bool {
        true
    }

    open spec fn try_from_spec(other: usize) -> Result<U11, RangeError> {
        checked(other as int)
    }
}

impl TryFrom<i32> for U11 {
    type Error = RangeError;

    fn try_from(other: i32) -> (r: Result<U11, RangeError>)
        ensures
            r matches Ok(x) ==> x@ == other,
    {
        U11::try_from_i32(other)
    }
}

impl TryFromSpecImpl<i32> for U11 {
    open spec fn obeys_try_from_spec() -> bool {
        true
    }

    open spec fn try_from_spec(other: i32) -> Result<U11, RangeError> {
        checked(other as int)
    }
}

impl From<u8> for U12 {
    fn from(other: u8) -> (r: U12)
        ensures
            r@ == other,
    {
        U12::from_u8_unchecked(other)
    }
}

impl FromSpecImpl<u8> for U12 {
    open spec fn obeys_from_spec() -> bool {
        true
    }

    open spec fn from_spec(other: u8) -> U12 {
        U12::from_nat(other as nat)
    }
}

impl TryFrom<u16> for U12 {
    type Error = RangeError;

    fn try_from(other: u16) -> (r: Result<U12, RangeError>)
        ensures
            r matches Ok(x) ==> x@ == other,
    {
        U12::try_from_u16(other)
    }
}

impl TryFromSpecImpl<u16> for U12 {
    open spec fn obeys_try_from_spec() -> bool {
        true
    }

    open spec fn try_from_spec(other: u16) -> Result<U12, RangeError> {
        checked(other as int)
    }
}

impl TryFrom<u32> for U12 {
    type Error = RangeError;

    fn try_from(other: u32) -> (r: Result<U12, RangeError>)
        ensures
            r matches Ok(x) ==> x@ == other,
    {
        U12::try_from_u32(other)
    }
}

impl TryFromSpecImpl<u32> for U12 {
    open spec fn obeys_try_from_spec() -> bool {
        true
    }

    open spec fn try_from_spec(other: u32) -> Result<U12, RangeError> {
        checked(other as int)
    }
}

impl TryFrom<usize> for U12 {
    type Error = RangeError;

    fn try_from(other: usize) -> (r: Result<U12, RangeError>)
        ensures
            r matches Ok(x) ==> x@ == other,
    {
        U12::try_from_usize(other)
    }
}

impl TryFromSpecImpl<usize> for U12 {
    open spec fn obeys_try_from_spec() -> bool {
        true
    }

    open spec fn try_from_spec(other: usize) -> Result<U12, RangeError> {
        checked(other as int)
    }
}

impl TryFrom<i32> for U12 {
    type Error = RangeError;

    fn try_from(other: i32) -> (r: Result<U12, RangeError>)
        ensures
            r matches Ok(x) ==> x@ == other,
    {
        U12::try_from_i32(other)
    }
}

impl TryFromSpecImpl<i32> for U12 {
    open spec fn obeys_try_from_spec() -> bool {
        true
    }

    open spec fn try_from_spec(other: i32) -> Result<U12, RangeError> {
        checked(other as int)
    }
}

impl From<u8> for U13 {
    fn from(other: u8) -> (r: U13)
        ensures
            r@ == other,
    {
        U13::from_u8_unchecked(other)
    }
}

impl FromSpecImpl<u8> for U13 {
    open spec fn obeys_from_spec() -> bool {
        true
    }

    open spec fn from_spec(other: u8) -> U13 {
        U13::from_nat(other as nat)
    }
}

impl TryFrom<u16> for U13 {
    type Error = RangeError;

    fn try_from(other: u16) -> (r: Result<U13, RangeError>)
        ensures
            r matches Ok(x) ==> x@ == other,
    {
        U13::try_from_u16(other)
    }
}

impl TryFromSpecImpl<u16> for U13 {
    open spec fn obeys_try_from_spec() -> bool {
        true
    }

    open spec fn try_from_spec(other: u16) -> Result<U13, RangeError> {
        checked(other as int)
    }
}

impl TryFrom<u32> for U13 {
    type Error = RangeError;

    fn try_from(other: u32) -> (r: Result<U13, RangeError>)
        ensures
            r matches Ok(x) ==> x@ == other,
    {
        U13::try_from_u32(other)
    }
}

impl TryFromSpecImpl<u32> for U13 {
    open spec fn obeys_try_from_spec() -> bool {
        true
    }

    open spec fn try_from_spec(other: u32) -> Result<U13, RangeError> {
        checked(other as int)
    }
}

impl TryFrom<usize> for U13 {
    type Error = RangeError;

    fn try_from(other: usize) -> (r: Result<U13, RangeError>)
        ensures
            r matches Ok(x) ==> x@ == other,
    {
        U13::try_from_usize(other)
    }
}

impl TryFromSpecImpl<usize> for U13 {
    open spec fn obeys_try_from_spec() -> bool {
        true
    }

    open spec fn try_from_spec(other: usize) -> Result<U13, RangeError> {
        checked(other as int)
    }
}

impl TryFrom<i32> for U13 {
    type Error = RangeError;

    fn try_from(other: i32) -> (r: Result<U13, RangeError>)
        ensures
            r matches Ok(x) ==> x@ == other,
    {
        U13::try_from_i32(other)
    }
}

impl TryFromSpecImpl<i32> for U13 {
    open spec fn obeys_try_from_spec() -> bool {
        true
    }

    open spec fn try_from_spec(other: i32) -> Result<U13, RangeError> {
        checked(other as int)
    }
}

impl From<u8> for U14 {
    fn from(other: u8) -> (r: U14)
        ensures
            r@ == other,
    {
        U14::from_u8_unchecked(other)
    }
}

impl FromSpecImpl<u8> for U14 {
    open spec fn obeys_from_spec() -> bool {
        true
    }

    open spec fn from_spec(other: u8) -> U14 {
        U14::from_nat(other as nat)
    }
}

impl TryFrom<u16> for U14 {
    type Error = RangeError;

    fn try_from(other: u16) -> (r: Result<U14, RangeError>)
        ensures
            r matches Ok(x) ==> x@ == other,
    {
        U14::try_from_u16(other)
    }
}

impl TryFromSpecImpl<u16> for U14 {
    open spec fn obeys_try_from_spec() -> bool {
        true
    }

    open spec fn try_from_spec(other: u16) -> Result<U14, RangeError> {
        checked(other as int)
    }
}

impl TryFrom<u32> for U14 {
    type Error = RangeError;

    fn try_from(other: u32) -> (r: Result<U14, RangeError>)
        ensures
            r matches Ok(x) ==> x@ == other,
    {
        U14::try_from_u32(other)
    }
}

impl TryFromSpecImpl<u32> for U14 {
    open spec fn obeys_try_from_spec() -> bool {
        true
    }

    open spec fn try_from_spec(other: u32) -> Result<U14, RangeError> {
        checked(other as int)
    }
}

impl TryFrom<usize> for U14 {
    type Error = RangeError;

    fn try_from(other: usize) -> (r: Result<U14, RangeError>)
        ensures
            r matches Ok(x) ==> x@ == other,
    {
        U14::try_from_usize(other)
    }
}

impl TryFromSpecImpl<usize> for U14 {
    open spec fn obeys_try_from_spec() -> bool {
        true
    }

    open spec fn try_from_spec(other: usize) -> Result<U14, RangeError> {
        checked(other as int)
    }
}

impl TryFrom<i32> for U14 {
    type Error = RangeError;

    fn try_from(other: i32) -> (r: Result<U14, RangeError>)
        ensures
            r matches Ok(x) ==> x@ == other,
    {
        U14::try_from_i32(other)
    }
}

impl TryFromSpecImpl<i32> for U14 {
    open spec fn obeys_try_from_spec() -> bool {
        true
    }

    open spec fn try_from_spec(other: i32) -> Result<U14, RangeError> {
        checked(other as int)
    }
}

impl From<u8> for U15 {
    fn from(other: u8) -> (r: U15)
        ensures
            r@ == other,
    {
        U15::from_u8_unchecked(other)
    }
}

impl FromSpecImpl<u8> for U15 {
    open spec fn obeys_from_spec() -> bool {
        true
    }

    open spec fn from_spec(other: u8) -> U15 {
        U15::from_nat(other as nat)
    }
}

impl TryFrom<u16> for U15 {
    type Error = RangeError;

    fn try_from(other: u16) -> (r: Result<U15, RangeError>)
        ensures
            r matches Ok(x) ==> x@ == other,
    {
        U15::try_from_u16(other)
    }
}

impl TryFromSpecImpl<u16> for U15 {
    open spec fn obeys_try_from_spec() -> bool {
        true
    }

    open spec fn try_from_spec(other: u16) -> Result<U15, RangeError> {
        checked(other as int)
    }
}

impl TryFrom<u32> for U15 {
    type Error = RangeError;

    fn try_from(other: u32) -> (r: Result<U15, RangeError>)
        ensures
            r matches Ok(x) ==> x@ == other,
    {
        U15::try_from_u32(other)
    }
}

impl TryFromSpecImpl<u32> for U15 {
    open spec fn obeys_try_from_spec() -> bool {
        true
    }

    open spec fn try_from_spec(other: u32) -> Result<U15, RangeError> {
        checked(other as int)
    }
}

impl TryFrom<usize> for U15 {
    type Error = RangeError;

    fn try_from(other: usize) -> (r: Result<U15, RangeError>)
        ensures
            r matches Ok(x) ==> x@ == other,
    {
        U15::try_from_usize(other)
    }
}

impl TryFromSpecImpl<usize> for U15 {
    open spec fn obeys_try_from_spec() -> bool {
        true
    }

    open spec fn try_from_spec(other: usize) -> Result<U15, RangeError> {
        checked(other as int)
    }
}

impl TryFrom<i32> for U15 {
    type Error = RangeError;

    fn try_from(other: i32) -> (r: Result<U15, RangeError>)
        ensures
            r matches Ok(x) ==> x@ == other,
    {
        U15::try_from_i32(other)
    }
}

impl TryFromSpecImpl<i32> for U15 {
    open spec fn obeys_try_from_spec() -> bool {
        true
    }

    open spec fn try_from_spec(other: i32) -> Result<U15, RangeError> {
        checked(other as int)
    }
}

impl From<u8> for U16 {
    fn from(other: u8) -> (r: U16)
        ensures
            r@ == other,
    {
        U16::from_u8_unchecked(other)
    }
}

impl FromSpecImpl<u8> for U16 {
    open spec fn obeys_from_spec() -> bool {
        true
    }

    open spec fn from_spec(other: u8) -> U16 {
        U16::from_nat(other as nat)
    }
}

impl From<u16> for U16 {
    fn from(other: u16) -> (r: U16)
        ensures
            r@ == other,
    {
        U16::from_u16_unchecked(other)
    }
}

impl FromSpecImpl<u16> for U16 {
    open spec fn obeys_from_spec() -> bool {
        true
    }

    open spec fn from_spec(other: u16) -> U16 {
        U16::from_nat(other as nat)
    }
}

impl TryFrom<u32> for U16 {
    type Error = RangeError;

    fn try_from(other: u32) -> (r: Result<U16, RangeError>)
        ensures
            r matches Ok(x) ==> x@ == other,
    {
        U16::try_from_u32(other)
    }
}

impl TryFromSpecImpl<u32> for U16 {
    open spec fn obeys_try_from_spec() -> bool {
        true
    }

    open spec fn try_from_spec(other: u32) -> Result<U16, RangeError> {
        checked(other as int)
    }
}

impl TryFrom<usize> for U16 {
    type Error = RangeError;

    fn try_from(other: usize) -> (r: Result<U16, RangeError>)
        ensures
            r matches Ok(x) ==> x@ == other,
    {
        U16::try_from_usize(other)
    }
}

impl TryFromSpecImpl<usize> for U16 {
    open spec fn obeys_try_from_spec() -> bool {
        true
    }

    open spec fn try_from_spec(other: usize) -> Result<U16, RangeError> {
        checked(other as int)
    }
}

impl TryFrom<i32> for U16 {
    type Error = RangeError;

    fn try_from(other: i32) -> (r: Result<U16, RangeError>)
        ensures
            r matches Ok(x) ==> x@ == other,
    {
        U16::try_from_i32(other)
    }
}

impl TryFromSpecImpl<i32> for U16 {
    open spec fn obeys_try_from_spec() -> bool {
        true
    }

    open spec fn try_from_spec(other: i32) -> Result<U16, RangeError> {
        checked(other as int)
    }
}

impl From<u8> for U17 {
    fn from(other: u8) -> (r: U17)
        ensures
            r@ == other,
    {
        U17::from_u8_unchecked(other)
    }
}

impl FromSpecImpl<u8> for U17 {
    open spec fn obeys_from_spec() -> bool {
        true
    }

    open spec fn from_spec(other: u8) -> U17 {
        U17::from_nat(other as nat)
    }
}

impl From<u16> for U17 {
    fn from(other: u16) -> (r: U17)
        ensures
            r@ == other,
    {
        U17::from_u16_unchecked(other)
    }
}

impl FromSpecImpl<u16> for U17 {
    open spec fn obeys_from_spec() -> bool {
        true
    }

    open spec fn from_spec(other: u16) -> U17 {
        U17::from_nat(other as nat)
    }
}

impl TryFrom<u32> for U17 {
    type Error = RangeError;

    fn try_from(other: u32) -> (r: Result<U17, RangeError>)
        ensures
            r matches Ok(x) ==> x@ == other,
    {
        U17::try_from_u32(other)
    }
}

impl TryFromSpecImpl<u32> for U17 {
    open spec fn obeys_try_from_spec() -> bool {
        true
    }

    open spec fn try_from_spec(other: u32) -> Result<U17, RangeError> {
        checked(other as int)
    }
}

impl TryFrom<usize> for U17 {
    type Error = RangeError;

    fn try_from(other: usize) -> (r: Result<U17, RangeError>)
        ensures
            r matches Ok(x) ==> x@ == other,
    {
        U17::try_from_usize(other)
    }
}

impl TryFromSpecImpl<usize> for U17 {
    open spec fn obeys_try_from_spec() -> bool {
        true
    }

    open spec fn try_from_spec(other: usize) -> Result<U17, RangeError> {
        checked(other as int)
    }
}

impl TryFrom<i32> for U17 {
    type Error = RangeError;

    fn try_from(other: i32) -> (r: Result<U17, RangeError>)
        ensures
            r matches Ok(x) ==> x@ == other,
    {
        U17::try_from_i32(other)
    }
}

impl TryFromSpecImpl<i32> for U17 {
    open spec fn obeys_try_from_spec() -> bool {
        true
    }

    open spec fn try_from_spec(other: i32) -> Result<U17, RangeError> {
        checked(other as int)
    }
}

impl From<u8> for U18 {
    fn from(other: u8) -> (r: U18)
        ensures
            r@ == other,
    {
        U18::from_u8_unchecked(other)
    }
}

impl FromSpecImpl<u8> for U18 {
    open spec fn obeys_from_spec() -> bool {
        true
    }

    open spec fn from_spec(other: u8) -> U18 {
        U18::from_nat(other as nat)
    }
}

impl From<u16> for U18 {
    fn from(other: u16) -> (r: U18)
        ensures
            r@ == other,
    {
        U18::from_u16_unchecked(other)
    }
}

impl FromSpecImpl<u16> for U18 {
    open spec fn obeys_from_spec() -> bool {
        true
    }

    open spec fn from_spec(other: u16) -> U18 {
        U18::from_nat(other as nat)
    }
}

impl TryFrom<u32> for U18 {
    type Error = RangeError;

    fn try_from(other: u32) -> (r: Result<U18, RangeError>)
        ensures
            r matches Ok(x) ==> x@ == other,
    {
        U18::try_from_u32(other)
    }
}

impl TryFromSpecImpl<u32> for U18 {
    open spec fn obeys_try_from_spec() -> bool {
        true
    }

    open spec fn try_from_spec(other: u32) -> Result<U18, RangeError> {
        checked(other as int)
    }
}

impl TryFrom<usize> for U18 {
    type Error = RangeError;

    fn try_from(other: usize) -> (r: Result<U18, RangeError>)
        ensures
            r matches Ok(x) ==> x@ == other,
    {
        U18::try_from_usize(other)
    }
}

impl TryFromSpecImpl<usize> for U18 {
    open spec fn obeys_try_from_spec() -> bool {
        true
    }

    open spec fn try_from_spec(other: usize) -> Result<U18, RangeError> {
        checked(other as int)
    }
}

impl TryFrom<i32> for U18 {
    type Error = RangeError;

    fn try_from(other: i32) -> (r: Result<U18, RangeError>)
        ensures
            r matches Ok(x) ==> x@ == other,
    {
        U18::try_from_i32(other)
    }
}

impl TryFromSpecImpl<i32> for U18 {
    open spec fn obeys_try_from_spec() -> bool {
        true
    }

    open spec fn try_from_spec(other: i32) -> Result<U18, RangeError> {
        checked(other as int)
    }
}

impl From<u8> for U19 {
    fn from(other: u8) -> (r: U19)
        ensures
            r@ == other,
    {
        U19::from_u8_unchecked(other)
    }
}

impl FromSpecImpl<u8> for U19 {
    open spec fn obeys_from_spec() -> bool {
        true
    }

    open spec fn from_spec(other: u8) -> U19 {
        U19::from_nat(other as nat)
    }
}

impl From<u16> for U19 {
    fn from(other: u16) -> (r: U19)
        ensures
            r@ == other,
    {
        U19::from_u16_unchecked(other)
    }
}

impl FromSpecImpl<u16> for U19 {
    open spec fn obeys_from_spec() -> bool {
        true
    }

    open spec fn from_spec(other: u16) -> U19 {
        U19::from_nat(other as nat)
    }
}

impl TryFrom<u32> for U19 {
    type Error = RangeError;

    fn try_from(other: u32) -> (r: Result<U19, RangeError>)
        ensures
            r matches Ok(x) ==> x@ == other,
    {
        U19::try_from_u32(other)
    }
}

impl TryFromSpecImpl<u32> for U19 {
    open spec fn obeys_try_from_spec() -> bool {
        true
    }

    open spec fn try_from_spec(other: u32) -> Result<U19, RangeError> {
        checked(other as int)
    }
}

impl TryFrom<usize> for U19 {
    type Error = RangeError;

    fn try_from(other: usize) -> (r: Result<U19, RangeError>)
        ensures
            r matches Ok(x) ==> x@ == other,
    {
        U19::try_from_usize(other)
    }
}

impl TryFromSpecImpl<usize> for U19 {
    open spec fn obeys_try_from_spec() -> bool {
        true
    }

    open spec fn try_from_spec(other: usize) -> Result<U19, RangeError> {
        checked(other as int)
    }
}

impl TryFrom<i32> for U19 {
    type Error = RangeError;

    fn try_from(other: i32) -> (r: Result<U19, RangeError>)
        ensures
            r matches Ok(x) ==> x@ == other,
    {
        U19::try_from_i32(other)
    }
}

impl TryFromSpecImpl<i32> for U19 {
    open spec fn obeys_try_from_spec() -> bool {
        true
    }

    open spec fn try_from_spec(other: i32) -> Result<U19, RangeError> {
        checked(other as int)
    }
}

impl From<u8> for U20 {
    fn from(other: u8) -> (r: U20)
        ensures
            r@ == other,
    {
        U20::from_u8_unchecked(other)
    }
}

impl FromSpecImpl<u8> for U20 {
    open spec fn obeys_from_spec() -> bool {
        true
    }

    open spec fn from_spec(other: u8) -> U20 {
        U20::from_nat(other as nat)
    }
}

impl From<u16> for U20 {
    fn from(other: u16) -> (r: U20)
        ensures
            r@ == other,
    {
        U20::from_u16_unchecked(other)
    }
}

impl FromSpecImpl<u16> for U20 {
    open spec fn obeys_from_spec() -> bool {
        true
    }

    open spec fn from_spec(other: u16) -> U20 {
        U20::from_nat(other as nat)
    }
}

impl TryFrom<u32> for U20 {
    type Error = RangeError;

    fn try_from(other: u32) -> (r: Result<U20, RangeError>)
        ensures
            r matches Ok(x) ==> x@ == other,
    {
        U20::try_from_u32(other)
    }
}

impl TryFromSpecImpl<u32> for U20 {
    open spec fn obeys_try_from_spec() -> bool {
        true
    }

    open spec fn try_from_spec(other: u32) -> Result<U20, RangeError> {
        checked(other as int)
    }
}

impl TryFrom<usize> for U20 {
    type Error = RangeError;

    fn try_from(other: usize) -> (r: Result<U20, RangeError>)
        ensures
            r matches Ok(x) ==> x@ == other,
    {
        U20::try_from_usize(other)
    }
}

impl TryFromSpecImpl<usize> for U20 {
    open spec fn obeys_try_from_spec() -> bool {
        true
    }

    open spec fn try_from_spec(other: usize) -> Result<U20, RangeError> {
        checked(other as int)
    }
}

impl TryFrom<i32> for U20 {
    type Error = RangeError;

    fn try_from(other: i32) -> (r: Result<U20, RangeError>)
        ensures
            r matches Ok(x) ==> x@ == other,
    {
        U20::try_from_i32(other)
    }
}

impl TryFromSpecImpl<i32> for U20 {
    open spec fn obeys_try_from_spec() -> bool {
        true
    }

    open spec fn try_from_spec(other: i32) -> Result<U20, RangeError> {
        checked(other as int)
    }
}

impl From<u8> for U21 {
    fn from(other: u8) -> (r: U21)
        ensures
            r@ == other,
    {
        U21::from_u8_unchecked(other)
    }
}

impl FromSpecImpl<u8> for U21 {
    open spec fn obeys_from_spec() -> bool {
        true
    }

    open spec fn from_spec(other: u8) -> U21 {
        U21::from_nat(other as nat)
    }
}

impl From<u16> for U21 {
    fn from(other: u16) -> (r: U21)
        ensures
            r@ == other,
    {
        U21::from_u16_unchecked(other)
    }
}

impl FromSpecImpl<u16> for U21 {
    open spec fn obeys_from_spec() -> bool {
        true
    }

    open spec fn from_spec(other: u16) -> U21 {
        U21::from_nat(other as nat)
    }
}

impl TryFrom<u32> for U21 {
    type Error = RangeError;

    fn try_from(other: u32) -> (r: Result<U21, RangeError>)
        ensures
            r matches Ok(x) ==> x@ == other,
    {
        U21::try_from_u32(other)
    }
}

impl TryFromSpecImpl<u32> for U21 {
    open spec fn obeys_try_from_spec() -> bool {
        true
    }

    open spec fn try_from_spec(other: u32) -> Result<U21, RangeError> {
        checked(other as int)
    }
}

impl TryFrom<usize> for U21 {
    type Error = RangeError;

    fn try_from(other: usize) -> (r: Result<U21, RangeError>)
        ensures
            r matches Ok(x) ==> x@ == other,
    {
        U21::try_from_usize(other)
    }
}

impl TryFromSpecImpl<usize> for U21 {
    open spec fn obeys_try_from_spec() -> bool {
        true
    }

    open spec fn try_from_spec(other: usize) -> Result<U21, RangeError> {
        checked(other as int)
    }
}

impl TryFrom<i32> for U21 {
    type Error = RangeError;

    fn try_from(other: i32) -> (r: Result<U21, RangeError>)
        ensures
            r matches Ok(x) ==> x@ == other,
    {
        U21::try_from_i32(other)
    }
}

impl TryFromSpecImpl<i32> for U21 {
    open spec fn obeys_try_from_spec() -> bool {
        true
    }

    open spec fn try_from_spec(other: i32) -> Result<U21, RangeError> {
        checked(other as int)
    }
}

impl From<u8> for U22 {
    fn from(other: u8) -> (r: U22)
        ensures
            r@ == other,
    {
        U22::from_u8_unchecked(other)
    }
}

impl FromSpecImpl<u8> for U22 {
    open spec fn obeys_from_spec() -> bool {
        true
    }

    open spec fn from_spec(other: u8) -> U22 {
        U22::from_nat(other as nat)
    }
}

impl From<u16> for U22 {
    fn from(other: u16) -> (r: U22)
        ensures
            r@ == other,
    {
        U22::from_u16_unchecked(other)
    }
}

impl FromSpecImpl<u16> for U22 {
    open spec fn obeys_from_spec() -> bool {
        true
    }

    open spec fn from_spec(other: u16) -> U22 {
        U22::from_nat(other as nat)
    }
}

impl TryFrom<u32> for U22 {
    type Error = RangeError;

    fn try_from(other: u32) -> (r: Result<U22, RangeError>)
        ensures
            r matches Ok(x) ==> x@ == other,
    {
        U22::try_from_u32(other)
    }
}

impl TryFromSpecImpl<u32> for U22 {
    open spec fn obeys_try_from_spec() -> bool {
        true
    }

    open spec fn try_from_spec(other: u32) -> Result<U22, RangeError> {
        checked(other as int)
    }
}

impl TryFrom<usize> for U22 {
    type Error = RangeError;

    fn try_from(other: usize) -> (r: Result<U22, RangeError>)
        ensures
            r matches Ok(x) ==> x@ == other,
    {
        U22::try_from_usize(other)
    }
}

impl TryFromSpecImpl<usize> for U22 {
    open spec fn obeys_try_from_spec() -> bool {
        true
    }

    open spec fn try_from_spec(other: usize) -> Result<U22, RangeError> {
        checked(other as int)
    }
}

impl TryFrom<i32> for U22 {
    type Error = RangeError;

    fn try_from(other: i32) -> (r: Result<U22, RangeError>)
        ensures
            r matches Ok(x) ==> x@ == other,
    {
        U22::try_from_i32(other)
    }
}

impl TryFromSpecImpl<i32> for U22 {
    open spec fn obeys_try_from_spec() -> bool {
        true
    }

    open spec fn try_from_spec(other: i32) -> Result<U22, RangeError> {
        checked(other as int)
    }
}

impl From<u8> for U23 {
    fn from(other: u8) -> (r: U23)
        ensures
            r@ == other,
    {
        U23::from_u8_unchecked(other)
    }
}

impl FromSpecImpl<u8> for U23 {
    open spec fn obeys_from_spec() -> bool {
        true
    }

    open spec fn from_spec(other: u8) -> U23 {
        U23::from_nat(other as nat)
    }
}

impl From<u16> for U23 {
    fn from(other: u16) -> (r: U23)
        ensures
            r@ == other,
    {
        U23::from_u16_unchecked(other)
    }
}

impl FromSpecImpl<u16> for U23 {
    open spec fn obeys_from_spec() -> bool {
        true
    }

    open spec fn from_spec(other: u16) -> U23 {
        U23::from_nat(other as nat)
    }
}

impl TryFrom<u32> for U23 {
    type Error = RangeError;

    fn try_from(other: u32) -> (r: Result<U23, RangeError>)
        ensures
            r matches Ok(x) ==> x@ == other,
    {
        U23::try_from_u32(other)
    }
}

impl TryFromSpecImpl<u32> for U23 {
    open spec fn obeys_try_from_spec() -> bool {
        true
    }

    open spec fn try_from_spec(other: u32) -> Result<U23, RangeError> {
        checked(other as int)
    }
}

impl TryFrom<usize> for U23 {
    type Error = RangeError;

    fn try_from(other: usize) -> (r: Result<U23, RangeError>)
        ensures
            r matches Ok(x) ==> x@ == other,
    {
        U23::try_from_usize(other)
    }
}

impl TryFromSpecImpl<usize> for U23 {
    open spec fn obeys_try_from_spec() -> bool {
        true
    }

    open spec fn try_from_spec(other: usize) -> Result<U23, RangeError> {
        checked(other as int)
    }
}

impl TryFrom<i32> for U23 {
    type Error = RangeError;

    fn try_from(other: i32) -> (r: Result<U23, RangeError>)
        ensures
            r matches Ok(x) ==> x@ == other,
    {
        U23::try_from_i32(other)
    }
}

impl TryFromSpecImpl<i32> for U23 {
    open spec fn obeys_try_from_spec() -> bool {
        true
    }

    open spec fn try_from_spec(other: i32) -> Result<U23, RangeError> {
        checked(other as int)
    }
}

impl From<u8> for U24 {
    fn from(other: u8) -> (r: U24)
        ensures
            r@ == other,
    {
        U24::from_u8_unchecked(other)
    }
}

impl FromSpecImpl<u8> for U24 {
    open spec fn obeys_from_spec() -> bool {
        true
    }

    open spec fn from_spec(other: u8) -> U24 {
        U24::from_nat(other as nat)
    }
}

impl From<u16> for U24 {
    fn from(other: u16) -> (r: U24)
        ensures
            r@ == other,
    {
        U24::from_u16_unchecked(other)
    }
}

impl FromSpecImpl<u16> for U24 {
    open spec fn obeys_from_spec() -> bool {
        true
    }

    open spec fn from_spec(other: u16) -> U24 {
        U24::from_nat(other as nat)
    }
}

impl TryFrom<u32> for U24 {
    type Error = RangeError;

    fn try_from(other: u32) -> (r: Result<U24, RangeError>)
        ensures
            r matches Ok(x) ==> x@ == other,
    {
        U24::try_from_u32(other)
    }
}

impl TryFromSpecImpl<u32> for U24 {
    open spec fn obeys_try_from_spec() -> bool {
        true
    }

    open spec fn try_from_spec(other: u32) -> Result<U24, RangeError> {
        checked(other as int)
    }
}

impl TryFrom<usize> for U24 {
    type Error = RangeError;

    fn try_from(other: usize) -> (r: Result<U24, RangeError>)
        ensures
            r matches Ok(x) ==> x@ == other,
    {
        U24::try_from_usize(other)
    }
}

impl TryFromSpecImpl<usize> for U24 {
    open spec fn obeys_try_from_spec() -> bool {
        true
    }

    open spec fn try_from_spec(other: usize) -> Result<U24, RangeError> {
        checked(other as int)
    }
}

impl TryFrom<i32> for U24 {
    type Error = RangeError;

    fn try_from(other: i32) -> (r: Result<U24, RangeError>)
        ensures
            r matches Ok(x) ==> x@ == other,
    {
        U24::try_from_i32(other)
    }
}

impl TryFromSpecImpl<i32> for U24 {
    open spec fn obeys_try_from_spec() -> bool {
        true
    }

    open spec fn try_from_spec(other: i32) -> Result<U24, RangeError> {
        checked(other as int)
    }
}

impl From<u8> for U25 {
    fn from(other: u8) -> (r: U25)
        ensures
            r@ == other,
    {
        U25::from_u8_unchecked(other)
    }
}

impl FromSpecImpl<u8> for U25 {
    open spec fn obeys_from_spec() -> bool {
        true
    }

    open spec fn from_spec(other: u8) -> U25 {
        U25::from_nat(other as nat)
    }
}

impl From<u16> for U25 {
    fn from(other: u16) -> (r: U25)
        ensures
            r@ == other,
    {
        U25::from_u16_unchecked(other)
    }
}

impl FromSpecImpl<u16> for U25 {
    open spec fn obeys_from_spec() -> bool {
        true
    }

    open spec fn from_spec(other: u16) -> U25 {
        U25::from_nat(other as nat)
    }
}

impl TryFrom<u32> for U25 {
    type Error = RangeError;

    fn try_from(other: u32) -> (r: Result<U25, RangeError>)
        ensures
            r matches Ok(x) ==> x@ == other,
    {
        U25::try_from_u32(other)
    }
}

impl TryFromSpecImpl<u32> for U25 {
    open spec fn obeys_try_from_spec() -> bool {
        true
    }

    open spec fn try_from_spec(other: u32) -> Result<U25, RangeError> {
        checked(other as int)
    }
}

impl TryFrom<usize> for U25 {
    type Error = RangeError;

    fn try_from(other: usize) -> (r: Result<U25, RangeError>)
        ensures
            r matches Ok(x) ==> x@ == other,
    {
        U25::try_from_usize(other)
    }
}

impl TryFromSpecImpl<usize> for U25 {
    open spec fn obeys_try_from_spec() -> bool {
        true
    }

    open spec fn try_from_spec(other: usize) -> Result<U25, RangeError> {
        checked(other as int)
    }
}

impl TryFrom<i32> for U25 {
    type Error = RangeError;

    fn try_from(other: i32) -> (r: Result<U25, RangeError>)
        ensures
            r matches Ok(x) ==> x@ == other,
    {
        U25::try_from_i32(other)
    }
}

impl TryFromSpecImpl<i32> for U25 {
    open spec fn obeys_try_from_spec() -> bool {
        true
    }

    open spec fn try_from_spec(other: i32) -> Result<U25, RangeError> {
        checked(other as int)
    }
}

impl From<u8> for U26 {
    fn from(other: u8) -> (r: U26)
        ensures
            r@ == other,
    {
        U26::from_u8_unchecked(other)
    }
}

impl FromSpecImpl<u8> for U26 {
    open spec fn obeys_from_spec() -> bool {
        true
    }

    open spec fn from_spec(other: u8) -> U26 {
        U26::from_nat(other as nat)
    }
}

impl From<u16> for U26 {
    fn from(other: u16) -> (r: U26)
        ensures
            r@ == other,
    {
        U26::from_u16_unchecked(other)
    }
}

impl FromSpecImpl<u16> for U26 {
    open spec fn obeys_from_spec() -> bool {
        true
    }

    open spec fn from_spec(other: u16) -> U26 {
        U26::from_nat(other as nat)
    }
}

impl TryFrom<u32> for U26 {
    type Error = RangeError;

    fn try_from(other: u32) -> (r: Result<U26, RangeError>)
        ensures
            r matches Ok(x) ==> x@ == other,
    {
        U26::try_from_u32(other)
    }
}

impl TryFromSpecImpl<u32> for U26 {
    open spec fn obeys_try_from_spec() -> bool {
        true
    }

    open spec fn try_from_spec(other: u32) -> Result<U26, RangeError> {
        checked(other as int)
    }
}

impl TryFrom<usize> for U26 {
    type Error = RangeError;

    fn try_from(other: usize) -> (r: Result<U26, RangeError>)
        ensures
            r matches Ok(x) ==> x@ == other,
    {
        U26::try_from_usize(other)
    }
}

impl TryFromSpecImpl<usize> for U26 {
    open spec fn obeys_try_from_spec() -> bool {
        true
    }

    open spec fn try_from_spec(other: usize) -> Result<U26, RangeError> {
        checked(other as int)
    }
}

impl TryFrom<i32> for U26 {
    type Error = RangeError;

    fn try_from(other: i32) -> (r: Result<U26, RangeError>)
        ensures
            r matches Ok(x) ==> x@ == other,
    {
        U26::try_from_i32(other)
    }
}

impl TryFromSpecImpl<i32> for U26 {
    open spec fn obeys_try_from_spec() -> bool {
        true
    }

    open spec fn try_from_spec(other: i32) -> Result<U26, RangeError> {
        checked(other as int)
    }
}

impl From<u8> for U27 {
    fn from(other: u8) -> (r: U27)
        ensures
            r@ == other,
    {
        U27::from_u8_unchecked(other)
    }
}

impl FromSpecImpl<u8> for U27 {
    open spec fn obeys_from_spec() -> bool {
        true
    }

    open spec fn from_spec(other: u8) -> U27 {
        U27::from_nat(other as nat)
    }
}

impl From<u16> for U27 {
    fn from(other: u16) -> (r: U27)
        ensures
            r@ == other,
    {
        U27::from_u16_unchecked(other)
    }
}

impl FromSpecImpl<u16> for U27 {
    open spec fn obeys_from_spec() -> bool {
        true
    }

    open spec fn from_spec(other: u16) -> U27 {
        U27::from_nat(other as nat)
    }
}

impl TryFrom<u32> for U27 {
    type Error = RangeError;

    fn try_from(other: u32) -> (r: Result<U27, RangeError>)
        ensures
            r matches Ok(x) ==> x@ == other,
    {
        U27::try_from_u32(other)
    }
}

impl TryFromSpecImpl<u32> for U27 {
    open spec fn obeys_try_from_spec() -> bool {
        true
    }

    open spec fn try_from_spec(other: u32) -> Result<U27, RangeError> {
        checked(other as int)
    }
}

impl TryFrom<usize> for U27 {
    type Error = RangeError;

    fn try_from(other: usize) -> (r: Result<U27, RangeError>)
        ensures
            r matches Ok(x) ==> x@ == other,
    {
        U27::try_from_usize(other)
    }
}

impl TryFromSpecImpl<usize> for U27 {
    open spec fn obeys_try_from_spec() -> bool {
        true
    }

    open spec fn try_from_spec(other: usize) -> Result<U27, RangeError> {
        checked(other as int)
    }
}

impl TryFrom<i32> for U27 {
    type Error = RangeError;

    fn try_from(other: i32) -> (r: Result<U27, RangeError>)
        ensures
            r matches Ok(x) ==> x@ == other,
    {
        U27::try_from_i32(other)
    }
}

impl TryFromSpecImpl<i32> for U27 {
    open spec fn obeys_try_from_spec() -> bool {
        true
    }

    open spec fn try_from_spec(other: i32) -> Result<U27, RangeError> {
        checked(other as int)
    }
}

impl From<u8> for U28 {
    fn from(other: u8) -> (r: U28)
        ensures
            r@ == other,
    {
        U28::from_u8_unchecked(other)
    }
}

impl FromSpecImpl<u8> for U28 {
    open spec fn obeys_from_spec() -> bool {
        true
    }

    open spec fn from_spec(other: u8) -> U28 {
        U28::from_nat(other as nat)
    }
}

impl From<u16> for U28 {
    fn from(other: u16) -> (r: U28)
        ensures
            r@ == other,
    {
        U28::from_u16_unchecked(other)
    }
}

impl FromSpecImpl<u16> for U28 {
    open spec fn obeys_from_spec() -> bool {
        true
    }

    open spec fn from_spec(other: u16) -> U28 {
        U28::from_nat(other as nat)
    }
}

impl TryFrom<u32> for U28 {
    type Error = RangeError;

    fn try_from(other: u32) -> (r: Result<U28, RangeError>)
        ensures
            r matches Ok(x) ==> x@ == other,
    {
        U28::try_from_u32(other)
    }
}

impl TryFromSpecImpl<u32> for U28 {
    open spec fn obeys_try_from_spec() -> bool {
        true
    }

    open spec fn try_from_spec(other: u32) -> Result<U28, RangeError> {
        checked(other as int)
    }
}

impl TryFrom<usize> for U28 {
    type Error = RangeError;

    fn try_from(other: usize) -> (r: Result<U28, RangeError>)
        ensures
            r matches Ok(x) ==> x@ == other,
    {
        U28::try_from_usize(other)
    }
}

impl TryFromSpecImpl<usize> for U28 {
    open spec fn obeys_try_from_spec() -> bool {
        true
    }

    open spec fn try_from_spec(other: usize) -> Result<U28, RangeError> {
        checked(other as int)
    }
}

impl TryFrom<i32> for U28 {
    type Error = RangeError;

    fn try_from(other: i32) -> (r: Result<U28, RangeError>)
        ensures
            r matches Ok(x) ==> x@ == other,
    {
        U28::try_from_i32(other)
    }
}

impl TryFromSpecImpl<i32> for U28 {
    open spec fn obeys_try_from_spec() -> bool {
        true
    }

    open spec fn try_from_spec(other: i32) -> Result<U28, RangeError> {
        checked(other as int)
    }
}

impl From<u8> for U29 {
    fn from(other: u8) -> (r: U29)
        ensures
            r@ == other,
    {
        U29::from_u8_unchecked(other)
    }
}

impl FromSpecImpl<u8> for U29 {
    open spec fn obeys_from_spec() -> bool {
        true
    }

    open spec fn from_spec(other: u8) -> U29 {
        U29::from_nat(other as nat)
    }
}

impl From<u16> for U29 {
    fn from(other: u16) -> (r: U29)
        ensures
            r@ == other,
    {
        U29::from_u16_unchecked(other)
    }
}

impl FromSpecImpl<u16> for U29 {
    open spec fn obeys_from_spec() -> bool {
        true
    }

    open spec fn from_spec(other: u16) -> U29 {
        U29::from_nat(other as nat)
    }
}

impl TryFrom<u32> for U29 {
    type Error = RangeError;

    fn try_from(other: u32) -> (r: Result<U29, RangeError>)
        ensures
            r matches Ok(x) ==> x@ == other,
    {
        U29::try_from_u32(other)
    }
}

impl TryFromSpecImpl<u32> for U29 {
    open spec fn obeys_try_from_spec() -> bool {
        true
    }

    open spec fn try_from_spec(other: u32) -> Result<U29, RangeError> {
        checked(other as int)
    }
}

impl TryFrom<usize> for U29 {
    type Error = RangeError;

    fn try_from(other: usize) -> (r: Result<U29, RangeError>)
        ensures
            r matches Ok(x) ==> x@ == other,
    {
        U29::try_from_usize(other)
    }
}

impl TryFromSpecImpl<usize> for U29 {
    open spec fn obeys_try_from_spec() -> bool {
        true
    }

    open spec fn try_from_spec(other: usize) -> Result<U29, RangeError> {
        checked(other as int)
    }
}

impl TryFrom<i32> for U29 {
    type Error = RangeError;

    fn try_from(other: i32) -> (r: Result<U29, RangeError>)
        ensures
            r matches Ok(x) ==> x@ == other,
    {
        U29::try_from_i32(other)
    }
}

impl TryFromSpecImpl<i32> for U29 {
    open spec fn obeys_try_from_spec() -> bool {
        true
    }

    open spec fn try_from_spec(other: i32) -> Result<U29, RangeError> {
        checked(other as int)
    }
}

impl From<u8> for U30 {
    fn from(other: u8) -> (r: U30)
        ensures
            r@ == other,
    {
        U30::from_u8_unchecked(other)
    }
}

impl FromSpecImpl<u8> for U30 {
    open spec fn obeys_from_spec() -> bool {
        true
    }

    open spec fn from_spec(other: u8) -> U30 {
        U30::from_nat(other as nat)
    }
}

impl From<u16> for U30 {
    fn from(other: u16) -> (r: U30)
        ensures
            r@ == other,
    {
        U30::from_u16_unchecked(other)
    }
}

impl FromSpecImpl<u16> for U30 {
    open spec fn obeys_from_spec() -> bool {
        true
    }

    open spec fn from_spec(other: u16) -> U30 {
        U30::from_nat(other as nat)
    }
}

impl TryFrom<u32> for U30 {
    type Error = RangeError;

    fn try_from(other: u32) -> (r: Result<U30, RangeError>)
        ensures
            r matches Ok(x) ==> x@ == other,
    {
        U30::try_from_u32(other)
    }
}

impl TryFromSpecImpl<u32> for U30 {
    open spec fn obeys_try_from_spec() -> bool {
        true
    }

    open spec fn try_from_spec(other: u32) -> Result<U30, RangeError> {
        checked(other as int)
    }
}

impl TryFrom<usize> for U30 {
    type Error = RangeError;

    fn try_from(other: usize) -> (r: Result<U30, RangeError>)
        ensures
            r matches Ok(x) ==> x@ == other,
    {
        U30::try_from_usize(other)
    }
}

impl TryFromSpecImpl<usize> for U30 {
    open spec fn obeys_try_from_spec() -> bool {
        true
    }

    open spec fn try_from_spec(other: usize) -> Result<U30, RangeError> {
        checked(other as int)
    }
}

impl TryFrom<i32> for U30 {
    type Error = RangeError;

    fn try_from(other: i32) -> (r: Result<U30, RangeError>)
        ensures
            r matches Ok(x) ==> x@ == other,
    {
        U30::try_from_i32(other)
    }
}

impl TryFromSpecImpl<i32> for U30 {
    open spec fn obeys_try_from_spec() -> bool {
        true
    }

    open spec fn try_from_spec(other: i32) -> Result<U30, RangeError> {
        checked(other as int)
    }
}

impl From<u8> for U31 {
    fn from(other: u8) -> (r: U31)
        ensures
            r@ == other,
    {
        U31::from_u8_unchecked(other)
    }
}

impl FromSpecImpl<u8> for U31 {
    open spec fn obeys_from_spec() -> bool {
        true
    }

    open spec fn from_spec(other: u8) -> U31 {
        U31::from_nat(other as nat)
    }
}

impl From<u16> for U31 {
    fn from(other: u16) -> (r: U31)
        ensures
            r@ == other,
    {
        U31::from_u16_unchecked(other)
    }
}

impl FromSpecImpl<u16> for U31 {
    open spec fn obeys_from_spec() -> bool {
        true
    }

    open spec fn from_spec(other: u16) -> U31 {
        U31::from_nat(other as nat)
    }
}

impl TryFrom<u32> for U31 {
    type Error = RangeError;

    fn try_from(other: u32) -> (r: Result<U31, RangeError>)
        ensures
            r matches Ok(x) ==> x@ == other,
    {
        U31::try_from_u32(other)
    }
}

impl TryFromSpecImpl<u32> for U31 {
    open spec fn obeys_try_from_spec() -> bool {
        true
    }

    open spec fn try_from_spec(other: u32) -> Result<U31, RangeError> {
        checked(other as int)
    }
}

impl TryFrom<usize> for U31 {
    type Error = RangeError;

    fn try_from(other: usize) -> (r: Result<U31, RangeError>)
        ensures
            r matches Ok(x) ==> x@ == other,
    {
        U31::try_from_usize(other)
    }
}

impl TryFromSpecImpl<usize> for U31 {
    open spec fn obeys_try_from_spec() -> bool {
        true
    }

    open spec fn try_from_spec(other: usize) -> Result<U31, RangeError> {
        checked(other as int)
    }
}

impl TryFrom<i32> for U31 {
    type Error = RangeError;

    fn try_from(other: i32) -> (r: Result<U31, RangeError>)
        ensures
            r matches Ok(x) ==> x@ == other,
    {
        U31::try_from_i32(other)
    }
}

impl TryFromSpecImpl<i32> for U31 {
    open spec fn obeys_try_from_spec() -> bool {
        true
    }

    open spec fn try_from_spec(other: i32) -> Result<U31, RangeError> {
        checked(other as int)
    }
}

impl From<u8> for U32 {
    fn from(other: u8) -> (r: U32)
        ensures
            r@ == other,
    {
        U32::from_u8_unchecked(other)
    }
}

impl FromSpecImpl<u8> for U32 {
    open spec fn obeys_from_spec() -> bool {
        true
    }

    open spec fn from_spec(other: u8) -> U32 {
        U32::from_nat(other as nat)
    }
}

impl From<u16> for U32 {
    fn from(other: u16) -> (r: U32)
        ensures
            r@ == other,
    {
        U32::from_u16_unchecked(other)
    }
}

impl FromSpecImpl<u16> for U32 {
    open spec fn obeys_from_spec() -> bool {
        true
    }

    open spec fn from_spec(other: u16) -> U32 {
        U32::from_nat(other as nat)
    }
}

impl From<u32> for U32 {
    fn from(other: u32) -> (r: U32)
        ensures
            r@ == other,
    {
        U32::from_u32_unchecked(other)
    }
}

impl FromSpecImpl<u32> for U32 {
    open spec fn obeys_from_spec() -> bool {
        true
    }

    open spec fn from_spec(other: u32) -> U32 {
        U32::from_nat(other as nat)
    }
}

impl TryFrom<usize> for U32 {
    type Error = RangeError;

    fn try_from(other: usize) -> (r: Result<U32, RangeError>)
        ensures
            r matches Ok(x) ==> x@ == other,
    {
        U32::try_from_usize(other)
    }
}

impl TryFromSpecImpl<usize> for U32 {
    open spec fn obeys_try_from_spec() -> bool {
        true
    }

    open spec fn try_from_spec(other: usize) -> Result<U32, RangeError> {
        checked(other as int)
    }
}

impl TryFrom<i32> for U32 {
    type Error = RangeError;

    fn try_from(other: i32) -> (r: Result<U32, RangeError>)
        ensures
            r matches Ok(x) ==> x@ == other,
    {
        U32::try_from_i32(other)
    }
}

impl TryFromSpecImpl<i32> for U32 {
    open spec fn obeys_try_from_spec() -> bool {
        true
    }

    open spec fn try_from_spec(other: i32) -> Result<U32, RangeError> {
        checked(other as int)
    }
}

} // verus!
