//! From a native integer to an index, through `TryFrom`: the conversion
//! fails with the range violation exactly when the number is negative or
//! not below the number of items.

use crate::range::large::{
    R17, R18, R19, R20, R21, R22, R23, R24, R25, R26, R27, R28, R29, R30, R31, R32,
};
use crate::range::small::{R1, R10, R11, R12, R13, R14, R15, R16, R2, R3, R4, R5, R6, R7, R8, R9};
use crate::error::RangeError;
use crate::range::{checked, RangeIndex};
use vstd::prelude::*;
use vstd::std_specs::convert::TryFromSpecImpl;

verus! {

impl TryFrom<u8> for R1 {
    type Error = RangeError;

    fn try_from(other: u8) -> (r: Result<R1, RangeError>)
        ensures
            r matches Ok(x) ==> x@ == other,
    {
        R1::try_from_u8(other)
    }
}

impl TryFromSpecImpl<u8> for R1 {
    open spec fn obeys_try_from_spec() -> bool {
        true
    }

    open spec fn try_from_spec(other: u8) -> Result<R1, RangeError> {
        checked(other as int)
    }
}

impl TryFrom<u16> for R1 {
    type Error = RangeError;

    fn try_from(other: u16) -> (r: Result<R1, RangeError>)
        ensures
            r matches Ok(x) ==> x@ == other,
    {
        R1::try_from_u16(other)
    }
}

impl TryFromSpecImpl<u16> for R1 {
    open spec fn obeys_try_from_spec() -> bool {
        true
    }

    open spec fn try_from_spec(other: u16) -> Result<R1, RangeError> {
        checked(other as int)
    }
}

impl TryFrom<u32> for R1 {
    type Error = RangeError;

    fn try_from(other: u32) -> (r: Result<R1, RangeError>)
        ensures
            r matches Ok(x) ==> x@ == other,
    {
        R1::try_from_u32(other)
    }
}

impl TryFromSpecImpl<u32> for R1 {
    open spec fn obeys_try_from_spec() -> bool {
        true
    }

    open spec fn try_from_spec(other: u32) -> Result<R1, RangeError> {
        checked(other as int)
    }
}

impl TryFrom<usize> for R1 {
    type Error = RangeError;

    fn try_from(other: usize) -> (r: Result<R1, RangeError>)
        ensures
            r matches Ok(x) ==> x@ == other,
    {
        R1::try_from_usize(other)
    }
}

impl TryFromSpecImpl<usize> for R1 {
    open spec fn obeys_try_from_spec() -> bool {
        true
    }

    open spec fn try_from_spec(other: usize) -> Result<R1, RangeError> {
        checked(other as int)
    }
}

impl TryFrom<i32> for R1 {
    type Error = RangeError;

    fn try_from(other: i32) -> (r: Result<R1, RangeError>)
        ensures
            r matches Ok(x) ==> x@ == other,
    {
        R1::try_from_i32(other)
    }
}

impl TryFromSpecImpl<i32> for R1 {
    open spec fn obeys_try_from_spec() -> bool {
        true
    }

    open spec fn try_from_spec(other: i32) -> Result<R1, RangeError> {
        checked(other as int)
    }
}

impl TryFrom<u8> for R2 {
    type Error = RangeError;

    fn try_from(other: u8) -> (r: Result<R2, RangeError>)
        ensures
            r matches Ok(x) ==> x@ == other,
    {
        R2::try_from_u8(other)
    }
}

impl TryFromSpecImpl<u8> for R2 {
    open spec fn obeys_try_from_spec() -> bool {
        true
    }

    open spec fn try_from_spec(other: u8) -> Result<R2, RangeError> {
        checked(other as int)
    }
}

impl TryFrom<u16> for R2 {
    type Error = RangeError;

    fn try_from(other: u16) -> (r: Result<R2, RangeError>)
        ensures
            r matches Ok(x) ==> x@ == other,
    {
        R2::try_from_u16(other)
    }
}

impl TryFromSpecImpl<u16> for R2 {
    open spec fn obeys_try_from_spec() -> bool {
        true
    }

    open spec fn try_from_spec(other: u16) -> Result<R2, RangeError> {
        checked(other as int)
    }
}

impl TryFrom<u32> for R2 {
    type Error = RangeError;

    fn try_from(other: u32) -> (r: Result<R2, RangeError>)
        ensures
            r matches Ok(x) ==> x@ == other,
    {
        R2::try_from_u32(other)
    }
}

impl TryFromSpecImpl<u32> for R2 {
    open spec fn obeys_try_from_spec() -> bool {
        true
    }

    open spec fn try_from_spec(other: u32) -> Result<R2, RangeError> {
        checked(other as int)
    }
}

impl TryFrom<usize> for R2 {
    type Error = RangeError;

    fn try_from(other: usize) -> (r: Result<R2, RangeError>)
        ensures
            r matches Ok(x) ==> x@ == other,
    {
        R2::try_from_usize(other)
    }
}

impl TryFromSpecImpl<usize> for R2 {
    open spec fn obeys_try_from_spec() -> bool {
        true
    }

    open spec fn try_from_spec(other: usize) -> Result<R2, RangeError> {
        checked(other as int)
    }
}

impl TryFrom<i32> for R2 {
    type Error = RangeError;

    fn try_from(other: i32) -> (r: Result<R2, RangeError>)
        ensures
            r matches Ok(x) ==> x@ == other,
    {
        R2::try_from_i32(other)
    }
}

impl TryFromSpecImpl<i32> for R2 {
    open spec fn obeys_try_from_spec() -> bool {
        true
    }

    open spec fn try_from_spec(other: i32) -> Result<R2, RangeError> {
        checked(other as int)
    }
}

impl TryFrom<u8> for R3 {
    type Error = RangeError;

    fn try_from(other: u8) -> (r: Result<R3, RangeError>)
        ensures
            r matches Ok(x) ==> x@ == other,
    {
        R3::try_from_u8(other)
    }
}

impl TryFromSpecImpl<u8> for R3 {
    open spec fn obeys_try_from_spec() -> bool {
        true
    }

    open spec fn try_from_spec(other: u8) -> Result<R3, RangeError> {
        checked(other as int)
    }
}

impl TryFrom<u16> for R3 {
    type Error = RangeError;

    fn try_from(other: u16) -> (r: Result<R3, RangeError>)
        ensures
            r matches Ok(x) ==> x@ == other,
    {
        R3::try_from_u16(other)
    }
}

impl TryFromSpecImpl<u16> for R3 {
    open spec fn obeys_try_from_spec() -> bool {
        true
    }

    open spec fn try_from_spec(other: u16) -> Result<R3, RangeError> {
        checked(other as int)
    }
}

impl TryFrom<u32> for R3 {
    type Error = RangeError;

    fn try_from(other: u32) -> (r: Result<R3, RangeError>)
        ensures
            r matches Ok(x) ==> x@ == other,
    {
        R3::try_from_u32(other)
    }
}

impl TryFromSpecImpl<u32> for R3 {
    open spec fn obeys_try_from_spec() -> bool {
        true
    }

    open spec fn try_from_spec(other: u32) -> Result<R3, RangeError> {
        checked(other as int)
    }
}

impl TryFrom<usize> for R3 {
    type Error = RangeError;

    fn try_from(other: usize) -> (r: Result<R3, RangeError>)
        ensures
            r matches Ok(x) ==> x@ == other,
    {
        R3::try_from_usize(other)
    }
}

impl TryFromSpecImpl<usize> for R3 {
    open spec fn obeys_try_from_spec() -> bool {
        true
    }

    open spec fn try_from_spec(other: usize) -> Result<R3, RangeError> {
        checked(other as int)
    }
}

impl TryFrom<i32> for R3 {
    type Error = RangeError;

    fn try_from(other: i32) -> (r: Result<R3, RangeError>)
        ensures
            r matches Ok(x) ==> x@ == other,
    {
        R3::try_from_i32(other)
    }
}

impl TryFromSpecImpl<i32> for R3 {
    open spec fn obeys_try_from_spec() -> bool {
        true
    }

    open spec fn try_from_spec(other: i32) -> Result<R3, RangeError> {
        checked(other as int)
    }
}

impl TryFrom<u8> for R4 {
    type Error = RangeError;

    fn try_from(other: u8) -> (r: Result<R4, RangeError>)
        ensures
            r matches Ok(x) ==> x@ == other,
    {
        R4::try_from_u8(other)
    }
}

impl TryFromSpecImpl<u8> for R4 {
    open spec fn obeys_try_from_spec() -> bool {
        true
    }

    open spec fn try_from_spec(other: u8) -> Result<R4, RangeError> {
        checked(other as int)
    }
}

impl TryFrom<u16> for R4 {
    type Error = RangeError;

    fn try_from(other: u16) -> (r: Result<R4, RangeError>)
        ensures
            r matches Ok(x) ==> x@ == other,
    {
        R4::try_from_u16(other)
    }
}

impl TryFromSpecImpl<u16> for R4 {
    open spec fn obeys_try_from_spec() -> bool {
        true
    }

    open spec fn try_from_spec(other: u16) -> Result<R4, RangeError> {
        checked(other as int)
    }
}

impl TryFrom<u32> for R4 {
    type Error = RangeError;

    fn try_from(other: u32) -> (r: Result<R4, RangeError>)
        ensures
            r matches Ok(x) ==> x@ == other,
    {
        R4::try_from_u32(other)
    }
}

impl TryFromSpecImpl<u32> for R4 {
    open spec fn obeys_try_from_spec() -> bool {
        true
    }

    open spec fn try_from_spec(other: u32) -> Result<R4, RangeError> {
        checked(other as int)
    }
}

impl TryFrom<usize> for R4 {
    type Error = RangeError;

    fn try_from(other: usize) -> (r: Result<R4, RangeError>)
        ensures
            r matches Ok(x) ==> x@ == other,
    {
        R4::try_from_usize(other)
    }
}

impl TryFromSpecImpl<usize> for R4 {
    open spec fn obeys_try_from_spec() -> bool {
        true
    }

    open spec fn try_from_spec(other: usize) -> Result<R4, RangeError> {
        checked(other as int)
    }
}

impl TryFrom<i32> for R4 {
    type Error = RangeError;

    fn try_from(other: i32) -> (r: Result<R4, RangeError>)
        ensures
            r matches Ok(x) ==> x@ == other,
    {
        R4::try_from_i32(other)
    }
}

impl TryFromSpecImpl<i32> for R4 {
    open spec fn obeys_try_from_spec() -> bool {
        true
    }

    open spec fn try_from_spec(other: i32) -> Result<R4, RangeError> {
        checked(other as int)
    }
}

impl TryFrom<u8> for R5 {
    type Error = RangeError;

    fn try_from(other: u8) -> (r: Result<R5, RangeError>)
        ensures
            r matches Ok(x) ==> x@ == other,
    {
        R5::try_from_u8(other)
    }
}

impl TryFromSpecImpl<u8> for R5 {
    open spec fn obeys_try_from_spec() -> bool {
        true
    }

    open spec fn try_from_spec(other: u8) -> Result<R5, RangeError> {
        checked(other as int)
    }
}

impl TryFrom<u16> for R5 {
    type Error = RangeError;

    fn try_from(other: u16) -> (r: Result<R5, RangeError>)
        ensures
            r matches Ok(x) ==> x@ == other,
    {
        R5::try_from_u16(other)
    }
}

impl TryFromSpecImpl<u16> for R5 {
    open spec fn obeys_try_from_spec() -> bool {
        true
    }

    open spec fn try_from_spec(other: u16) -> Result<R5, RangeError> {
        checked(other as int)
    }
}

impl TryFrom<u32> for R5 {
    type Error = RangeError;

    fn try_from(other: u32) -> (r: Result<R5, RangeError>)
        ensures
            r matches Ok(x) ==> x@ == other,
    {
        R5::try_from_u32(other)
    }
}

impl TryFromSpecImpl<u32> for R5 {
    open spec fn obeys_try_from_spec() -> bool {
        true
    }

    open spec fn try_from_spec(other: u32) -> Result<R5, RangeError> {
        checked(other as int)
    }
}

impl TryFrom<usize> for R5 {
    type Error = RangeError;

    fn try_from(other: usize) -> (r: Result<R5, RangeError>)
        ensures
            r matches Ok(x) ==> x@ == other,
    {
        R5::try_from_usize(other)
    }
}

impl TryFromSpecImpl<usize> for R5 {
    open spec fn obeys_try_from_spec() -> bool {
        true
    }

    open spec fn try_from_spec(other: usize) -> Result<R5, RangeError> {
        checked(other as int)
    }
}

impl TryFrom<i32> for R5 {
    type Error = RangeError;

    fn try_from(other: i32) -> (r: Result<R5, RangeError>)
        ensures
            r matches Ok(x) ==> x@ == other,
    {
        R5::try_from_i32(other)
    }
}

impl TryFromSpecImpl<i32> for R5 {
    open spec fn obeys_try_from_spec() -> bool {
        true
    }

    open spec fn try_from_spec(other: i32) -> Result<R5, RangeError> {
        checked(other as int)
    }
}

impl TryFrom<u8> for R6 {
    type Error = RangeError;

    fn try_from(other: u8) -> (r: Result<R6, RangeError>)
        ensures
            r matches Ok(x) ==> x@ == other,
    {
        R6::try_from_u8(other)
    }
}

impl TryFromSpecImpl<u8> for R6 {
    open spec fn obeys_try_from_spec() -> bool {
        true
    }

    open spec fn try_from_spec(other: u8) -> Result<R6, RangeError> {
        checked(other as int)
    }
}

impl TryFrom<u16> for R6 {
    type Error = RangeError;

    fn try_from(other: u16) -> (r: Result<R6, RangeError>)
        ensures
            r matches Ok(x) ==> x@ == other,
    {
        R6::try_from_u16(other)
    }
}

impl TryFromSpecImpl<u16> for R6 {
    open spec fn obeys_try_from_spec() -> bool {
        true
    }

    open spec fn try_from_spec(other: u16) -> Result<R6, RangeError> {
        checked(other as int)
    }
}

impl TryFrom<u32> for R6 {
    type Error = RangeError;

    fn try_from(other: u32) -> (r: Result<R6, RangeError>)
        ensures
            r matches Ok(x) ==> x@ == other,
    {
        R6::try_from_u32(other)
    }
}

impl TryFromSpecImpl<u32> for R6 {
    open spec fn obeys_try_from_spec() -> bool {
        true
    }

    open spec fn try_from_spec(other: u32) -> Result<R6, RangeError> {
        checked(other as int)
    }
}

impl TryFrom<usize> for R6 {
    type Error = RangeError;

    fn try_from(other: usize) -> (r: Result<R6, RangeError>)
        ensures
            r matches Ok(x) ==> x@ == other,
    {
        R6::try_from_usize(other)
    }
}

impl TryFromSpecImpl<usize> for R6 {
    open spec fn obeys_try_from_spec() -> bool {
        true
    }

    open spec fn try_from_spec(other: usize) -> Result<R6, RangeError> {
        checked(other as int)
    }
}

impl TryFrom<i32> for R6 {
    type Error = RangeError;

    fn try_from(other: i32) -> (r: Result<R6, RangeError>)
        ensures
            r matches Ok(x) ==> x@ == other,
    {
        R6::try_from_i32(other)
    }
}

impl TryFromSpecImpl<i32> for R6 {
    open spec fn obeys_try_from_spec() -> bool {
        true
    }

    open spec fn try_from_spec(other: i32) -> Result<R6, RangeError> {
        checked(other as int)
    }
}

impl TryFrom<u8> for R7 {
    type Error = RangeError;

    fn try_from(other: u8) -> (r: Result<R7, RangeError>)
        ensures
            r matches Ok(x) ==> x@ == other,
    {
        R7::try_from_u8(other)
    }
}

impl TryFromSpecImpl<u8> for R7 {
    open spec fn obeys_try_from_spec() -> bool {
        true
    }

    open spec fn try_from_spec(other: u8) -> Result<R7, RangeError> {
        checked(other as int)
    }
}

impl TryFrom<u16> for R7 {
    type Error = RangeError;

    fn try_from(other: u16) -> (r: Result<R7, RangeError>)
        ensures
            r matches Ok(x) ==> x@ == other,
    {
        R7::try_from_u16(other)
    }
}

impl TryFromSpecImpl<u16> for R7 {
    open spec fn obeys_try_from_spec() -> bool {
        true
    }

    open spec fn try_from_spec(other: u16) -> Result<R7, RangeError> {
        checked(other as int)
    }
}

impl TryFrom<u32> for R7 {
    type Error = RangeError;

    fn try_from(other: u32) -> (r: Result<R7, RangeError>)
        ensures
            r matches Ok(x) ==> x@ == other,
    {
        R7::try_from_u32(other)
    }
}

impl TryFromSpecImpl<u32> for R7 {
    open spec fn obeys_try_from_spec() -> bool {
        true
    }

    open spec fn try_from_spec(other: u32) -> Result<R7, RangeError> {
        checked(other as int)
    }
}

impl TryFrom<usize> for R7 {
    type Error = RangeError;

    fn try_from(other: usize) -> (r: Result<R7, RangeError>)
        ensures
            r matches Ok(x) ==> x@ == other,
    {
        R7::try_from_usize(other)
    }
}

impl TryFromSpecImpl<usize> for R7 {
    open spec fn obeys_try_from_spec() -> bool {
        true
    }

    open spec fn try_from_spec(other: usize) -> Result<R7, RangeError> {
        checked(other as int)
    }
}

impl TryFrom<i32> for R7 {
    type Error = RangeError;

    fn try_from(other: i32) -> (r: Result<R7, RangeError>)
        ensures
            r matches Ok(x) ==> x@ == other,
    {
        R7::try_from_i32(other)
    }
}

impl TryFromSpecImpl<i32> for R7 {
    open spec fn obeys_try_from_spec() -> bool {
        true
    }

    open spec fn try_from_spec(other: i32) -> Result<R7, RangeError> {
        checked(other as int)
    }
}

impl TryFrom<u8> for R8 {
    type Error = RangeError;

    fn try_from(other: u8) -> (r: Result<R8, RangeError>)
        ensures
            r matches Ok(x) ==> x@ == other,
    {
        R8::try_from_u8(other)
    }
}

impl TryFromSpecImpl<u8> for R8 {
    open spec fn obeys_try_from_spec() -> bool {
        true
    }

    open spec fn try_from_spec(other: u8) -> Result<R8, RangeError> {
        checked(other as int)
    }
}

impl TryFrom<u16> for R8 {
    type Error = RangeError;

    fn try_from(other: u16) -> (r: Result<R8, RangeError>)
        ensures
            r matches Ok(x) ==> x@ == other,
    {
        R8::try_from_u16(other)
    }
}

impl TryFromSpecImpl<u16> for R8 {
    open spec fn obeys_try_from_spec() -> bool {
        true
    }

    open spec fn try_from_spec(other: u16) -> Result<R8, RangeError> {
        checked(other as int)
    }
}

impl TryFrom<u32> for R8 {
    type Error = RangeError;

    fn try_from(other: u32) -> (r: Result<R8, RangeError>)
        ensures
            r matches Ok(x) ==> x@ == other,
    {
        R8::try_from_u32(other)
    }
}

impl TryFromSpecImpl<u32> for R8 {
    open spec fn obeys_try_from_spec() -> bool {
        true
    }

    open spec fn try_from_spec(other: u32) -> Result<R8, RangeError> {
        checked(other as int)
    }
}

impl TryFrom<usize> for R8 {
    type Error = RangeError;

    fn try_from(other: usize) -> (r: Result<R8, RangeError>)
        ensures
            r matches Ok(x) ==> x@ == other,
    {
        R8::try_from_usize(other)
    }
}

impl TryFromSpecImpl<usize> for R8 {
    open spec fn obeys_try_from_spec() -> bool {
        true
    }

    open spec fn try_from_spec(other: usize) -> Result<R8, RangeError> {
        checked(other as int)
    }
}

impl TryFrom<i32> for R8 {
    type Error = RangeError;

    fn try_from(other: i32) -> (r: Result<R8, RangeError>)
        ensures
            r matches Ok(x) ==> x@ == other,
    {
        R8::try_from_i32(other)
    }
}

impl TryFromSpecImpl<i32> for R8 {
    open spec fn obeys_try_from_spec() -> bool {
        true
    }

    open spec fn try_from_spec(other: i32) -> Result<R8, RangeError> {
        checked(other as int)
    }
}

impl TryFrom<u8> for R9 {
    type Error = RangeError;

    fn try_from(other: u8) -> (r: Result<R9, RangeError>)
        ensures
            r matches Ok(x) ==> x@ == other,
    {
        R9::try_from_u8(other)
    }
}

impl TryFromSpecImpl<u8> for R9 {
    open spec fn obeys_try_from_spec() -> bool {
        true
    }

    open spec fn try_from_spec(other: u8) -> Result<R9, RangeError> {
        checked(other as int)
    }
}

impl TryFrom<u16> for R9 {
    type Error = RangeError;

    fn try_from(other: u16) -> (r: Result<R9, RangeError>)
        ensures
            r matches Ok(x) ==> x@ == other,
    {
        R9::try_from_u16(other)
    }
}

impl TryFromSpecImpl<u16> for R9 {
    open spec fn obeys_try_from_spec() -> bool {
        true
    }

    open spec fn try_from_spec(other: u16) -> Result<R9, RangeError> {
        checked(other as int)
    }
}

impl TryFrom<u32> for R9 {
    type Error = RangeError;

    fn try_from(other: u32) -> (r: Result<R9, RangeError>)
        ensures
            r matches Ok(x) ==> x@ == other,
    {
        R9::try_from_u32(other)
    }
}

impl TryFromSpecImpl<u32> for R9 {
    open spec fn obeys_try_from_spec() -> bool {
        true
    }

    open spec fn try_from_spec(other: u32) -> Result<R9, RangeError> {
        checked(other as int)
    }
}

impl TryFrom<usize> for R9 {
    type Error = RangeError;

    fn try_from(other: usize) -> (r: Result<R9, RangeError>)
        ensures
            r matches Ok(x) ==> x@ == other,
    {
        R9::try_from_usize(other)
    }
}

impl TryFromSpecImpl<usize> for R9 {
    open spec fn obeys_try_from_spec() -> bool {
        true
    }

    open spec fn try_from_spec(other: usize) -> Result<R9, RangeError> {
        checked(other as int)
    }
}

impl TryFrom<i32> for R9 {
    type Error = RangeError;

    fn try_from(other: i32) -> (r: Result<R9, RangeError>)
        ensures
            r matches Ok(x) ==> x@ == other,
    {
        R9::try_from_i32(other)
    }
}

impl TryFromSpecImpl<i32> for R9 {
    open spec fn obeys_try_from_spec() -> bool {
        true
    }

    open spec fn try_from_spec(other: i32) -> Result<R9, RangeError> {
        checked(other as int)
    }
}

impl TryFrom<u8> for R10 {
    type Error = RangeError;

    fn try_from(other: u8) -> (r: Result<R10, RangeError>)
        ensures
            r matches Ok(x) ==> x@ == other,
    {
        R10::try_from_u8(other)
    }
}

impl TryFromSpecImpl<u8> for R10 {
    open spec fn obeys_try_from_spec() -> bool {
        true
    }

    open spec fn try_from_spec(other: u8) -> Result<R10, RangeError> {
        checked(other as int)
    }
}

impl TryFrom<u16> for R10 {
    type Error = RangeError;

    fn try_from(other: u16) -> (r: Result<R10, RangeError>)
        ensures
            r matches Ok(x) ==> x@ == other,
    {
        R10::try_from_u16(other)
    }
}

impl TryFromSpecImpl<u16> for R10 {
    open spec fn obeys_try_from_spec() -> bool {
        true
    }

    open spec fn try_from_spec(other: u16) -> Result<R10, RangeError> {
        checked(other as int)
    }
}

impl TryFrom<u32> for R10 {
    type Error = RangeError;

    fn try_from(other: u32) -> (r: Result<R10, RangeError>)
        ensures
            r matches Ok(x) ==> x@ == other,
    {
        R10::try_from_u32(other)
    }
}

impl TryFromSpecImpl<u32> for R10 {
    open spec fn obeys_try_from_spec() -> bool {
        true
    }

    open spec fn try_from_spec(other: u32) -> Result<R10, RangeError> {
        checked(other as int)
    }
}

impl TryFrom<usize> for R10 {
    type Error = RangeError;

    fn try_from(other: usize) -> (r: Result<R10, RangeError>)
        ensures
            r matches Ok(x) ==> x@ == other,
    {
        R10::try_from_usize(other)
    }
}

impl TryFromSpecImpl<usize> for R10 {
    open spec fn obeys_try_from_spec() -> bool {
        true
    }

    open spec fn try_from_spec(other: usize) -> Result<R10, RangeError> {
        checked(other as int)
    }
}

impl TryFrom<i32> for R10 {
    type Error = RangeError;

    fn try_from(other: i32) -> (r: Result<R10, RangeError>)
        ensures
            r matches Ok(x) ==> x@ == other,
    {
        R10::try_from_i32(other)
    }
}

impl TryFromSpecImpl<i32> for R10 {
    open spec fn obeys_try_from_spec() -> bool {
        true
    }

    open spec fn try_from_spec(other: i32) -> Result<R10, RangeError> {
        checked(other as int)
    }
}

impl TryFrom<u8> for R11 {
    type Error = RangeError;

    fn try_from(other: u8) -> (r: Result<R11, RangeError>)
        ensures
            r matches Ok(x) ==> x@ == other,
    {
        R11::try_from_u8(other)
    }
}

impl TryFromSpecImpl<u8> for R11 {
    open spec fn obeys_try_from_spec() -> bool {
        true
    }

    open spec fn try_from_spec(other: u8) -> Result<R11, RangeError> {
        checked(other as int)
    }
}

impl TryFrom<u16> for R11 {
    type Error = RangeError;

    fn try_from(other: u16) -> (r: Result<R11, RangeError>)
        ensures
            r matches Ok(x) ==> x@ == other,
    {
        R11::try_from_u16(other)
    }
}

impl TryFromSpecImpl<u16> for R11 {
    open spec fn obeys_try_from_spec() -> bool {
        true
    }

    open spec fn try_from_spec(other: u16) -> Result<R11, RangeError> {
        checked(other as int)
    }
}

impl TryFrom<u32> for R11 {
    type Error = RangeError;

    fn try_from(other: u32) -> (r: Result<R11, RangeError>)
        ensures
            r matches Ok(x) ==> x@ == other,
    {
        R11::try_from_u32(other)
    }
}

impl TryFromSpecImpl<u32> for R11 {
    open spec fn obeys_try_from_spec() -> bool {
        true
    }

    open spec fn try_from_spec(other: u32) -> Result<R11, RangeError> {
        checked(other as int)
    }
}

impl TryFrom<usize> for R11 {
    type Error = RangeError;

    fn try_from(other: usize) -> (r: Result<R11, RangeError>)
        ensures
            r matches Ok(x) ==> x@ == other,
    {
        R11::try_from_usize(other)
    }
}

impl TryFromSpecImpl<usize> for R11 {
    open spec fn obeys_try_from_spec() -> bool {
        true
    }

    open spec fn try_from_spec(other: usize) -> Result<R11, RangeError> {
        checked(other as int)
    }
}

impl TryFrom<i32> for R11 {
    type Error = RangeError;

    fn try_from(other: i32) -> (r: Result<R11, RangeError>)
        ensures
            r matches Ok(x) ==> x@ == other,
    {
        R11::try_from_i32(other)
    }
}

impl TryFromSpecImpl<i32> for R11 {
    open spec fn obeys_try_from_spec() -> bool {
        true
    }

    open spec fn try_from_spec(other: i32) -> Result<R11, RangeError> {
        checked(other as int)
    }
}

impl TryFrom<u8> for R12 {
    type Error = RangeError;

    fn try_from(other: u8) -> (r: Result<R12, RangeError>)
        ensures
            r matches Ok(x) ==> x@ == other,
    {
        R12::try_from_u8(other)
    }
}

impl TryFromSpecImpl<u8> for R12 {
    open spec fn obeys_try_from_spec() -> bool {
        true
    }

    open spec fn try_from_spec(other: u8) -> Result<R12, RangeError> {
        checked(other as int)
    }
}

impl TryFrom<u16> for R12 {
    type Error = RangeError;

    fn try_from(other: u16) -> (r: Result<R12, RangeError>)
        ensures
            r matches Ok(x) ==> x@ == other,
    {
        R12::try_from_u16(other)
    }
}

impl TryFromSpecImpl<u16> for R12 {
    open spec fn obeys_try_from_spec() -> bool {
        true
    }

    open spec fn try_from_spec(other: u16) -> Result<R12, RangeError> {
        checked(other as int)
    }
}

impl TryFrom<u32> for R12 {
    type Error = RangeError;

    fn try_from(other: u32) -> (r: Result<R12, RangeError>)
        ensures
            r matches Ok(x) ==> x@ == other,
    {
        R12::try_from_u32(other)
    }
}

impl TryFromSpecImpl<u32> for R12 {
    open spec fn obeys_try_from_spec() -> bool {
        true
    }

    open spec fn try_from_spec(other: u32) -> Result<R12, RangeError> {
        checked(other as int)
    }
}

impl TryFrom<usize> for R12 {
    type Error = RangeError;

    fn try_from(other: usize) -> (r: Result<R12, RangeError>)
        ensures
            r matches Ok(x) ==> x@ == other,
    {
        R12::try_from_usize(other)
    }
}

impl TryFromSpecImpl<usize> for R12 {
    open spec fn obeys_try_from_spec() -> bool {
        true
    }

    open spec fn try_from_spec(other: usize) -> Result<R12, RangeError> {
        checked(other as int)
    }
}

impl TryFrom<i32> for R12 {
    type Error = RangeError;

    fn try_from(other: i32) -> (r: Result<R12, RangeError>)
        ensures
            r matches Ok(x) ==> x@ == other,
    {
        R12::try_from_i32(other)
    }
}

impl TryFromSpecImpl<i32> for R12 {
    open spec fn obeys_try_from_spec() -> bool {
        true
    }

    open spec fn try_from_spec(other: i32) -> Result<R12, RangeError> {
        checked(other as int)
    }
}

impl TryFrom<u8> for R13 {
    type Error = RangeError;

    fn try_from(other: u8) -> (r: Result<R13, RangeError>)
        ensures
            r matches Ok(x) ==> x@ == other,
    {
        R13::try_from_u8(other)
    }
}

impl TryFromSpecImpl<u8> for R13 {
    open spec fn obeys_try_from_spec() -> bool {
        true
    }

    open spec fn try_from_spec(other: u8) -> Result<R13, RangeError> {
        checked(other as int)
    }
}

impl TryFrom<u16> for R13 {
    type Error = RangeError;

    fn try_from(other: u16) -> (r: Result<R13, RangeError>)
        ensures
            r matches Ok(x) ==> x@ == other,
    {
        R13::try_from_u16(other)
    }
}

impl TryFromSpecImpl<u16> for R13 {
    open spec fn obeys_try_from_spec() -> bool {
        true
    }

    open spec fn try_from_spec(other: u16) -> Result<R13, RangeError> {
        checked(other as int)
    }
}

impl TryFrom<u32> for R13 {
    type Error = RangeError;

    fn try_from(other: u32) -> (r: Result<R13, RangeError>)
        ensures
            r matches Ok(x) ==> x@ == other,
    {
        R13::try_from_u32(other)
    }
}

impl TryFromSpecImpl<u32> for R13 {
    open spec fn obeys_try_from_spec() -> bool {
        true
    }

    open spec fn try_from_spec(other: u32) -> Result<R13, RangeError> {
        checked(other as int)
    }
}

impl TryFrom<usize> for R13 {
    type Error = RangeError;

    fn try_from(other: usize) -> (r: Result<R13, RangeError>)
        ensures
            r matches Ok(x) ==> x@ == other,
    {
        R13::try_from_usize(other)
    }
}

impl TryFromSpecImpl<usize> for R13 {
    open spec fn obeys_try_from_spec() -> bool {
        true
    }

    open spec fn try_from_spec(other: usize) -> Result<R13, RangeError> {
        checked(other as int)
    }
}

impl TryFrom<i32> for R13 {
    type Error = RangeError;

    fn try_from(other: i32) -> (r: Result<R13, RangeError>)
        ensures
            r matches Ok(x) ==> x@ == other,
    {
        R13::try_from_i32(other)
    }
}

impl TryFromSpecImpl<i32> for R13 {
    open spec fn obeys_try_from_spec() -> bool {
        true
    }

    open spec fn try_from_spec(other: i32) -> Result<R13, RangeError> {
        checked(other as int)
    }
}

impl TryFrom<u8> for R14 {
    type Error = RangeError;

    fn try_from(other: u8) -> (r: Result<R14, RangeError>)
        ensures
            r matches Ok(x) ==> x@ == other,
    {
        R14::try_from_u8(other)
    }
}

impl TryFromSpecImpl<u8> for R14 {
    open spec fn obeys_try_from_spec() -> bool {
        true
    }

    open spec fn try_from_spec(other: u8) -> Result<R14, RangeError> {
        checked(other as int)
    }
}

impl TryFrom<u16> for R14 {
    type Error = RangeError;

    fn try_from(other: u16) -> (r: Result<R14, RangeError>)
        ensures
            r matches Ok(x) ==> x@ == other,
    {
        R14::try_from_u16(other)
    }
}

impl TryFromSpecImpl<u16> for R14 {
    open spec fn obeys_try_from_spec() -> bool {
        true
    }

    open spec fn try_from_spec(other: u16) -> Result<R14, RangeError> {
        checked(other as int)
    }
}

impl TryFrom<u32> for R14 {
    type Error = RangeError;

    fn try_from(other: u32) -> (r: Result<R14, RangeError>)
        ensures
            r matches Ok(x) ==> x@ == other,
    {
        R14::try_from_u32(other)
    }
}

impl TryFromSpecImpl<u32> for R14 {
    open spec fn obeys_try_from_spec() -> bool {
        true
    }

    open spec fn try_from_spec(other: u32) -> Result<R14, RangeError> {
        checked(other as int)
    }
}

impl TryFrom<usize> for R14 {
    type Error = RangeError;

    fn try_from(other: usize) -> (r: Result<R14, RangeError>)
        ensures
            r matches Ok(x) ==> x@ == other,
    {
        R14::try_from_usize(other)
    }
}

impl TryFromSpecImpl<usize> for R14 {
    open spec fn obeys_try_from_spec() -> bool {
        true
    }

    open spec fn try_from_spec(other: usize) -> Result<R14, RangeError> {
        checked(other as int)
    }
}

impl TryFrom<i32> for R14 {
    type Error = RangeError;

    fn try_from(other: i32) -> (r: Result<R14, RangeError>)
        ensures
            r matches Ok(x) ==> x@ == other,
    {
        R14::try_from_i32(other)
    }
}

impl TryFromSpecImpl<i32> for R14 {
    open spec fn obeys_try_from_spec() -> bool {
        true
    }

    open spec fn try_from_spec(other: i32) -> Result<R14, RangeError> {
        checked(other as int)
    }
}

impl TryFrom<u8> for R15 {
    type Error = RangeError;

    fn try_from(other: u8) -> (r: Result<R15, RangeError>)
        ensures
            r matches Ok(x) ==> x@ == other,
    {
        R15::try_from_u8(other)
    }
}

impl TryFromSpecImpl<u8> for R15 {
    open spec fn obeys_try_from_spec() -> bool {
        true
    }

    open spec fn try_from_spec(other: u8) -> Result<R15, RangeError> {
        checked(other as int)
    }
}

impl TryFrom<u16> for R15 {
    type Error = RangeError;

    fn try_from(other: u16) -> (r: Result<R15, RangeError>)
        ensures
            r matches Ok(x) ==> x@ == other,
    {
        R15::try_from_u16(other)
    }
}

impl TryFromSpecImpl<u16> for R15 {
    open spec fn obeys_try_from_spec() -> bool {
        true
    }

    open spec fn try_from_spec(other: u16) -> Result<R15, RangeError> {
        checked(other as int)
    }
}

impl TryFrom<u32> for R15 {
    type Error = RangeError;

    fn try_from(other: u32) -> (r: Result<R15, RangeError>)
        ensures
            r matches Ok(x) ==> x@ == other,
    {
        R15::try_from_u32(other)
    }
}

impl TryFromSpecImpl<u32> for R15 {
    open spec fn obeys_try_from_spec() -> bool {
        true
    }

    open spec fn try_from_spec(other: u32) -> Result<R15, RangeError> {
        checked(other as int)
    }
}

impl TryFrom<usize> for R15 {
    type Error = RangeError;

    fn try_from(other: usize) -> (r: Result<R15, RangeError>)
        ensures
            r matches Ok(x) ==> x@ == other,
    {
        R15::try_from_usize(other)
    }
}

impl TryFromSpecImpl<usize> for R15 {
    open spec fn obeys_try_from_spec() -> bool {
        true
    }

    open spec fn try_from_spec(other: usize) -> Result<R15, RangeError> {
        checked(other as int)
    }
}

impl TryFrom<i32> for R15 {
    type Error = RangeError;

    fn try_from(other: i32) -> (r: Result<R15, RangeError>)
        ensures
            r matches Ok(x) ==> x@ == other,
    {
        R15::try_from_i32(other)
    }
}

impl TryFromSpecImpl<i32> for R15 {
    open spec fn obeys_try_from_spec() -> bool {
        true
    }

    open spec fn try_from_spec(other: i32) -> Result<R15, RangeError> {
        checked(other as int)
    }
}

impl TryFrom<u8> for R16 {
    type Error = RangeError;

    fn try_from(other: u8) -> (r: Result<R16, RangeError>)
        ensures
            r matches Ok(x) ==> x@ == other,
    {
        R16::try_from_u8(other)
    }
}

impl TryFromSpecImpl<u8> for R16 {
    open spec fn obeys_try_from_spec() -> bool {
        true
    }

    open spec fn try_from_spec(other: u8) -> Result<R16, RangeError> {
        checked(other as int)
    }
}

impl TryFrom<u16> for R16 {
    type Error = RangeError;

    fn try_from(other: u16) -> (r: Result<R16, RangeError>)
        ensures
            r matches Ok(x) ==> x@ == other,
    {
        R16::try_from_u16(other)
    }
}

impl TryFromSpecImpl<u16> for R16 {
    open spec fn obeys_try_from_spec() -> bool {
        true
    }

    open spec fn try_from_spec(other: u16) -> Result<R16, RangeError> {
        checked(other as int)
    }
}

impl TryFrom<u32> for R16 {
    type Error = RangeError;

    fn try_from(other: u32) -> (r: Result<R16, RangeError>)
        ensures
            r matches Ok(x) ==> x@ == other,
    {
        R16::try_from_u32(other)
    }
}

impl TryFromSpecImpl<u32> for R16 {
    open spec fn obeys_try_from_spec() -> bool {
        true
    }

    open spec fn try_from_spec(other: u32) -> Result<R16, RangeError> {
        checked(other as int)
    }
}

impl TryFrom<usize> for R16 {
    type Error = RangeError;

    fn try_from(other: usize) -> (r: Result<R16, RangeError>)
        ensures
            r matches Ok(x) ==> x@ == other,
    {
        R16::try_from_usize(other)
    }
}

impl TryFromSpecImpl<usize> for R16 {
    open spec fn obeys_try_from_spec() -> bool {
        true
    }

    open spec fn try_from_spec(other: usize) -> Result<R16, RangeError> {
        checked(other as int)
    }
}

impl TryFrom<i32> for R16 {
    type Error = RangeError;

    fn try_from(other: i32) -> (r: Result<R16, RangeError>)
        ensures
            r matches Ok(x) ==> x@ == other,
    {
        R16::try_from_i32(other)
    }
}

impl TryFromSpecImpl<i32> for R16 {
    open spec fn obeys_try_from_spec() -> bool {
        true
    }

    open spec fn try_from_spec(other: i32) -> Result<R16, RangeError> {
        checked(other as int)
    }
}

impl TryFrom<u8> for R17 {
    type Error = RangeError;

    fn try_from(other: u8) -> (r: Result<R17, RangeError>)
        ensures
            r matches Ok(x) ==> x@ == other,
    {
        R17::try_from_u8(other)
    }
}

impl TryFromSpecImpl<u8> for R17 {
    open spec fn obeys_try_from_spec() -> bool {
        true
    }

    open spec fn try_from_spec(other: u8) -> Result<R17, RangeError> {
        checked(other as int)
    }
}

impl TryFrom<u16> for R17 {
    type Error = RangeError;

    fn try_from(other: u16) -> (r: Result<R17, RangeError>)
        ensures
            r matches Ok(x) ==> x@ == other,
    {
        R17::try_from_u16(other)
    }
}

impl TryFromSpecImpl<u16> for R17 {
    open spec fn obeys_try_from_spec() -> bool {
        true
    }

    open spec fn try_from_spec(other: u16) -> Result<R17, RangeError> {
        checked(other as int)
    }
}

impl TryFrom<u32> for R17 {
    type Error = RangeError;

    fn try_from(other: u32) -> (r: Result<R17, RangeError>)
        ensures
            r matches Ok(x) ==> x@ == other,
    {
        R17::try_from_u32(other)
    }
}

impl TryFromSpecImpl<u32> for R17 {
    open spec fn obeys_try_from_spec() -> bool {
        true
    }

    open spec fn try_from_spec(other: u32) -> Result<R17, RangeError> {
        checked(other as int)
    }
}

impl TryFrom<usize> for R17 {
    type Error = RangeError;

    fn try_from(other: usize) -> (r: Result<R17, RangeError>)
        ensures
            r matches Ok(x) ==> x@ == other,
    {
        R17::try_from_usize(other)
    }
}

impl TryFromSpecImpl<usize> for R17 {
    open spec fn obeys_try_from_spec() -> bool {
        true
    }

    open spec fn try_from_spec(other: usize) -> Result<R17, RangeError> {
        checked(other as int)
    }
}

impl TryFrom<i32> for R17 {
    type Error = RangeError;

    fn try_from(other: i32) -> (r: Result<R17, RangeError>)
        ensures
            r matches Ok(x) ==> x@ == other,
    {
        R17::try_from_i32(other)
    }
}

impl TryFromSpecImpl<i32> for R17 {
    open spec fn obeys_try_from_spec() -> bool {
        true
    }

    open spec fn try_from_spec(other: i32) -> Result<R17, RangeError> {
        checked(other as int)
    }
}

impl TryFrom<u8> for R18 {
    type Error = RangeError;

    fn try_from(other: u8) -> (r: Result<R18, RangeError>)
        ensures
            r matches Ok(x) ==> x@ == other,
    {
        R18::try_from_u8(other)
    }
}

impl TryFromSpecImpl<u8> for R18 {
    open spec fn obeys_try_from_spec() -> bool {
        true
    }

    open spec fn try_from_spec(other: u8) -> Result<R18, RangeError> {
        checked(other as int)
    }
}

impl TryFrom<u16> for R18 {
    type Error = RangeError;

    fn try_from(other: u16) -> (r: Result<R18, RangeError>)
        ensures
            r matches Ok(x) ==> x@ == other,
    {
        R18::try_from_u16(other)
    }
}

impl TryFromSpecImpl<u16> for R18 {
    open spec fn obeys_try_from_spec() -> bool {
        true
    }

    open spec fn try_from_spec(other: u16) -> Result<R18, RangeError> {
        checked(other as int)
    }
}

impl TryFrom<u32> for R18 {
    type Error = RangeError;

    fn try_from(other: u32) -> (r: Result<R18, RangeError>)
        ensures
            r matches Ok(x) ==> x@ == other,
    {
        R18::try_from_u32(other)
    }
}

impl TryFromSpecImpl<u32> for R18 {
    open spec fn obeys_try_from_spec() -> bool {
        true
    }

    open spec fn try_from_spec(other: u32) -> Result<R18, RangeError> {
        checked(other as int)
    }
}

impl TryFrom<usize> for R18 {
    type Error = RangeError;

    fn try_from(other: usize) -> (r: Result<R18, RangeError>)
        ensures
            r matches Ok(x) ==> x@ == other,
    {
        R18::try_from_usize(other)
    }
}

impl TryFromSpecImpl<usize> for R18 {
    open spec fn obeys_try_from_spec() -> bool {
        true
    }

    open spec fn try_from_spec(other: usize) -> Result<R18, RangeError> {
        checked(other as int)
    }
}

impl TryFrom<i32> for R18 {
    type Error = RangeError;

    fn try_from(other: i32) -> (r: Result<R18, RangeError>)
        ensures
            r matches Ok(x) ==> x@ == other,
    {
        R18::try_from_i32(other)
    }
}

impl TryFromSpecImpl<i32> for R18 {
    open spec fn obeys_try_from_spec() -> bool {
        true
    }

    open spec fn try_from_spec(other: i32) -> Result<R18, RangeError> {
        checked(other as int)
    }
}

impl TryFrom<u8> for R19 {
    type Error = RangeError;

    fn try_from(other: u8) -> (r: Result<R19, RangeError>)
        ensures
            r matches Ok(x) ==> x@ == other,
    {
        R19::try_from_u8(other)
    }
}

impl TryFromSpecImpl<u8> for R19 {
    open spec fn obeys_try_from_spec() -> bool {
        true
    }

    open spec fn try_from_spec(other: u8) -> Result<R19, RangeError> {
        checked(other as int)
    }
}

impl TryFrom<u16> for R19 {
    type Error = RangeError;

    fn try_from(other: u16) -> (r: Result<R19, RangeError>)
        ensures
            r matches Ok(x) ==> x@ == other,
    {
        R19::try_from_u16(other)
    }
}

impl TryFromSpecImpl<u16> for R19 {
    open spec fn obeys_try_from_spec() -> bool {
        true
    }

    open spec fn try_from_spec(other: u16) -> Result<R19, RangeError> {
        checked(other as int)
    }
}

impl TryFrom<u32> for R19 {
    type Error = RangeError;

    fn try_from(other: u32) -> (r: Result<R19, RangeError>)
        ensures
            r matches Ok(x) ==> x@ == other,
    {
        R19::try_from_u32(other)
    }
}

impl TryFromSpecImpl<u32> for R19 {
    open spec fn obeys_try_from_spec() -> bool {
        true
    }

    open spec fn try_from_spec(other: u32) -> Result<R19, RangeError> {
        checked(other as int)
    }
}

impl TryFrom<usize> for R19 {
    type Error = RangeError;

    fn try_from(other: usize) -> (r: Result<R19, RangeError>)
        ensures
            r matches Ok(x) ==> x@ == other,
    {
        R19::try_from_usize(other)
    }
}

impl TryFromSpecImpl<usize> for R19 {
    open spec fn obeys_try_from_spec() -> bool {
        true
    }

    open spec fn try_from_spec(other: usize) -> Result<R19, RangeError> {
        checked(other as int)
    }
}

impl TryFrom<i32> for R19 {
    type Error = RangeError;

    fn try_from(other: i32) -> (r: Result<R19, RangeError>)
        ensures
            r matches Ok(x) ==> x@ == other,
    {
        R19::try_from_i32(other)
    }
}

impl TryFromSpecImpl<i32> for R19 {
    open spec fn obeys_try_from_spec() -> bool {
        true
    }

    open spec fn try_from_spec(other: i32) -> Result<R19, RangeError> {
        checked(other as int)
    }
}

impl TryFrom<u8> for R20 {
    type Error = RangeError;

    fn try_from(other: u8) -> (r: Result<R20, RangeError>)
        ensures
            r matches Ok(x) ==> x@ == other,
    {
        R20::try_from_u8(other)
    }
}

impl TryFromSpecImpl<u8> for R20 {
    open spec fn obeys_try_from_spec() -> bool {
        true
    }

    open spec fn try_from_spec(other: u8) -> Result<R20, RangeError> {
        checked(other as int)
    }
}

impl TryFrom<u16> for R20 {
    type Error = RangeError;

    fn try_from(other: u16) -> (r: Result<R20, RangeError>)
        ensures
            r matches Ok(x) ==> x@ == other,
    {
        R20::try_from_u16(other)
    }
}

impl TryFromSpecImpl<u16> for R20 {
    open spec fn obeys_try_from_spec() -> bool {
        true
    }

    open spec fn try_from_spec(other: u16) -> Result<R20, RangeError> {
        checked(other as int)
    }
}

impl TryFrom<u32> for R20 {
    type Error = RangeError;

    fn try_from(other: u32) -> (r: Result<R20, RangeError>)
        ensures
            r matches Ok(x) ==> x@ == other,
    {
        R20::try_from_u32(other)
    }
}

impl TryFromSpecImpl<u32> for R20 {
    open spec fn obeys_try_from_spec() -> bool {
        true
    }

    open spec fn try_from_spec(other: u32) -> Result<R20, RangeError> {
        checked(other as int)
    }
}

impl TryFrom<usize> for R20 {
    type Error = RangeError;

    fn try_from(other: usize) -> (r: Result<R20, RangeError>)
        ensures
            r matches Ok(x) ==> x@ == other,
    {
        R20::try_from_usize(other)
    }
}

impl TryFromSpecImpl<usize> for R20 {
    open spec fn obeys_try_from_spec() -> bool {
        true
    }

    open spec fn try_from_spec(other: usize) -> Result<R20, RangeError> {
        checked(other as int)
    }
}

impl TryFrom<i32> for R20 {
    type Error = RangeError;

    fn try_from(other: i32) -> (r: Result<R20, RangeError>)
        ensures
            r matches Ok(x) ==> x@ == other,
    {
        R20::try_from_i32(other)
    }
}

impl TryFromSpecImpl<i32> for R20 {
    open spec fn obeys_try_from_spec() -> bool {
        true
    }

    open spec fn try_from_spec(other: i32) -> Result<R20, RangeError> {
        checked(other as int)
    }
}

impl TryFrom<u8> for R21 {
    type Error = RangeError;

    fn try_from(other: u8) -> (r: Result<R21, RangeError>)
        ensures
            r matches Ok(x) ==> x@ == other,
    {
        R21::try_from_u8(other)
    }
}

impl TryFromSpecImpl<u8> for R21 {
    open spec fn obeys_try_from_spec() -> bool {
        true
    }

    open spec fn try_from_spec(other: u8) -> Result<R21, RangeError> {
        checked(other as int)
    }
}

impl TryFrom<u16> for R21 {
    type Error = RangeError;

    fn try_from(other: u16) -> (r: Result<R21, RangeError>)
        ensures
            r matches Ok(x) ==> x@ == other,
    {
        R21::try_from_u16(other)
    }
}

impl TryFromSpecImpl<u16> for R21 {
    open spec fn obeys_try_from_spec() -> bool {
        true
    }

    open spec fn try_from_spec(other: u16) -> Result<R21, RangeError> {
        checked(other as int)
    }
}

impl TryFrom<u32> for R21 {
    type Error = RangeError;

    fn try_from(other: u32) -> (r: Result<R21, RangeError>)
        ensures
            r matches Ok(x) ==> x@ == other,
    {
        R21::try_from_u32(other)
    }
}

impl TryFromSpecImpl<u32> for R21 {
    open spec fn obeys_try_from_spec() -> bool {
        true
    }

    open spec fn try_from_spec(other: u32) -> Result<R21, RangeError> {
        checked(other as int)
    }
}

impl TryFrom<usize> for R21 {
    type Error = RangeError;

    fn try_from(other: usize) -> (r: Result<R21, RangeError>)
        ensures
            r matches Ok(x) ==> x@ == other,
    {
        R21::try_from_usize(other)
    }
}

impl TryFromSpecImpl<usize> for R21 {
    open spec fn obeys_try_from_spec() -> bool {
        true
    }

    open spec fn try_from_spec(other: usize) -> Result<R21, RangeError> {
        checked(other as int)
    }
}

impl TryFrom<i32> for R21 {
    type Error = RangeError;

    fn try_from(other: i32) -> (r: Result<R21, RangeError>)
        ensures
            r matches Ok(x) ==> x@ == other,
    {
        R21::try_from_i32(other)
    }
}

impl TryFromSpecImpl<i32> for R21 {
    open spec fn obeys_try_from_spec() -> bool {
        true
    }

    open spec fn try_from_spec(other: i32) -> Result<R21, RangeError> {
        checked(other as int)
    }
}

impl TryFrom<u8> for R22 {
    type Error = RangeError;

    fn try_from(other: u8) -> (r: Result<R22, RangeError>)
        ensures
            r matches Ok(x) ==> x@ == other,
    {
        R22::try_from_u8(other)
    }
}

impl TryFromSpecImpl<u8> for R22 {
    open spec fn obeys_try_from_spec() -> bool {
        true
    }

    open spec fn try_from_spec(other: u8) -> Result<R22, RangeError> {
        checked(other as int)
    }
}

impl TryFrom<u16> for R22 {
    type Error = RangeError;

    fn try_from(other: u16) -> (r: Result<R22, RangeError>)
        ensures
            r matches Ok(x) ==> x@ == other,
    {
        R22::try_from_u16(other)
    }
}

impl TryFromSpecImpl<u16> for R22 {
    open spec fn obeys_try_from_spec() -> bool {
        true
    }

    open spec fn try_from_spec(other: u16) -> Result<R22, RangeError> {
        checked(other as int)
    }
}

impl TryFrom<u32> for R22 {
    type Error = RangeError;

    fn try_from(other: u32) -> (r: Result<R22, RangeError>)
        ensures
            r matches Ok(x) ==> x@ == other,
    {
        R22::try_from_u32(other)
    }
}

impl TryFromSpecImpl<u32> for R22 {
    open spec fn obeys_try_from_spec() -> bool {
        true
    }

    open spec fn try_from_spec(other: u32) -> Result<R22, RangeError> {
        checked(other as int)
    }
}

impl TryFrom<usize> for R22 {
    type Error = RangeError;

    fn try_from(other: usize) -> (r: Result<R22, RangeError>)
        ensures
            r matches Ok(x) ==> x@ == other,
    {
        R22::try_from_usize(other)
    }
}

impl TryFromSpecImpl<usize> for R22 {
    open spec fn obeys_try_from_spec() -> bool {
        true
    }

    open spec fn try_from_spec(other: usize) -> Result<R22, RangeError> {
        checked(other as int)
    }
}

impl TryFrom<i32> for R22 {
    type Error = RangeError;

    fn try_from(other: i32) -> (r: Result<R22, RangeError>)
        ensures
            r matches Ok(x) ==> x@ == other,
    {
        R22::try_from_i32(other)
    }
}

impl TryFromSpecImpl<i32> for R22 {
    open spec fn obeys_try_from_spec() -> bool {
        true
    }

    open spec fn try_from_spec(other: i32) -> Result<R22, RangeError> {
        checked(other as int)
    }
}

impl TryFrom<u8> for R23 {
    type Error = RangeError;

    fn try_from(other: u8) -> (r: Result<R23, RangeError>)
        ensures
            r matches Ok(x) ==> x@ == other,
    {
        R23::try_from_u8(other)
    }
}

impl TryFromSpecImpl<u8> for R23 {
    open spec fn obeys_try_from_spec() -> bool {
        true
    }

    open spec fn try_from_spec(other: u8) -> Result<R23, RangeError> {
        checked(other as int)
    }
}

impl TryFrom<u16> for R23 {
    type Error = RangeError;

    fn try_from(other: u16) -> (r: Result<R23, RangeError>)
        ensures
            r matches Ok(x) ==> x@ == other,
    {
        R23::try_from_u16(other)
    }
}

impl TryFromSpecImpl<u16> for R23 {
    open spec fn obeys_try_from_spec() -> bool {
        true
    }

    open spec fn try_from_spec(other: u16) -> Result<R23, RangeError> {
        checked(other as int)
    }
}

impl TryFrom<u32> for R23 {
    type Error = RangeError;

    fn try_from(other: u32) -> (r: Result<R23, RangeError>)
        ensures
            r matches Ok(x) ==> x@ == other,
    {
        R23::try_from_u32(other)
    }
}

impl TryFromSpecImpl<u32> for R23 {
    open spec fn obeys_try_from_spec() -> bool {
        true
    }

    open spec fn try_from_spec(other: u32) -> Result<R23, RangeError> {
        checked(other as int)
    }
}

impl TryFrom<usize> for R23 {
    type Error = RangeError;

    fn try_from(other: usize) -> (r: Result<R23, RangeError>)
        ensures
            r matches Ok(x) ==> x@ == other,
    {
        R23::try_from_usize(other)
    }
}

impl TryFromSpecImpl<usize> for R23 {
    open spec fn obeys_try_from_spec() -> bool {
        true
    }

    open spec fn try_from_spec(other: usize) -> Result<R23, RangeError> {
        checked(other as int)
    }
}

impl TryFrom<i32> for R23 {
    type Error = RangeError;

    fn try_from(other: i32) -> (r: Result<R23, RangeError>)
        ensures
            r matches Ok(x) ==> x@ == other,
    {
        R23::try_from_i32(other)
    }
}

impl TryFromSpecImpl<i32> for R23 {
    open spec fn obeys_try_from_spec() -> bool {
        true
    }

    open spec fn try_from_spec(other: i32) -> Result<R23, RangeError> {
        checked(other as int)
    }
}

impl TryFrom<u8> for R24 {
    type Error = RangeError;

    fn try_from(other: u8) -> (r: Result<R24, RangeError>)
        ensures
            r matches Ok(x) ==> x@ == other,
    {
        R24::try_from_u8(other)
    }
}

impl TryFromSpecImpl<u8> for R24 {
    open spec fn obeys_try_from_spec() -> bool {
        true
    }

    open spec fn try_from_spec(other: u8) -> Result<R24, RangeError> {
        checked(other as int)
    }
}

impl TryFrom<u16> for R24 {
    type Error = RangeError;

    fn try_from(other: u16) -> (r: Result<R24, RangeError>)
        ensures
            r matches Ok(x) ==> x@ == other,
    {
        R24::try_from_u16(other)
    }
}

impl TryFromSpecImpl<u16> for R24 {
    open spec fn obeys_try_from_spec() -> bool {
        true
    }

    open spec fn try_from_spec(other: u16) -> Result<R24, RangeError> {
        checked(other as int)
    }
}

impl TryFrom<u32> for R24 {
    type Error = RangeError;

    fn try_from(other: u32) -> (r: Result<R24, RangeError>)
        ensures
            r matches Ok(x) ==> x@ == other,
    {
        R24::try_from_u32(other)
    }
}

impl TryFromSpecImpl<u32> for R24 {
    open spec fn obeys_try_from_spec() -> bool {
        true
    }

    open spec fn try_from_spec(other: u32) -> Result<R24, RangeError> {
        checked(other as int)
    }
}

impl TryFrom<usize> for R24 {
    type Error = RangeError;

    fn try_from(other: usize) -> (r: Result<R24, RangeError>)
        ensures
            r matches Ok(x) ==> x@ == other,
    {
        R24::try_from_usize(other)
    }
}

impl TryFromSpecImpl<usize> for R24 {
    open spec fn obeys_try_from_spec() -> bool {
        true
    }

    open spec fn try_from_spec(other: usize) -> Result<R24, RangeError> {
        checked(other as int)
    }
}

impl TryFrom<i32> for R24 {
    type Error = RangeError;

    fn try_from(other: i32) -> (r: Result<R24, RangeError>)
        ensures
            r matches Ok(x) ==> x@ == other,
    {
        R24::try_from_i32(other)
    }
}

impl TryFromSpecImpl<i32> for R24 {
    open spec fn obeys_try_from_spec() -> bool {
        true
    }

    open spec fn try_from_spec(other: i32) -> Result<R24, RangeError> {
        checked(other as int)
    }
}

impl TryFrom<u8> for R25 {
    type Error = RangeError;

    fn try_from(other: u8) -> (r: Result<R25, RangeError>)
        ensures
            r matches Ok(x) ==> x@ == other,
    {
        R25::try_from_u8(other)
    }
}

impl TryFromSpecImpl<u8> for R25 {
    open spec fn obeys_try_from_spec() -> bool {
        true
    }

    open spec fn try_from_spec(other: u8) -> Result<R25, RangeError> {
        checked(other as int)
    }
}

impl TryFrom<u16> for R25 {
    type Error = RangeError;

    fn try_from(other: u16) -> (r: Result<R25, RangeError>)
        ensures
            r matches Ok(x) ==> x@ == other,
    {
        R25::try_from_u16(other)
    }
}

impl TryFromSpecImpl<u16> for R25 {
    open spec fn obeys_try_from_spec() -> bool {
        true
    }

    open spec fn try_from_spec(other: u16) -> Result<R25, RangeError> {
        checked(other as int)
    }
}

impl TryFrom<u32> for R25 {
    type Error = RangeError;

    fn try_from(other: u32) -> (r: Result<R25, RangeError>)
        ensures
            r matches Ok(x) ==> x@ == other,
    {
        R25::try_from_u32(other)
    }
}

impl TryFromSpecImpl<u32> for R25 {
    open spec fn obeys_try_from_spec() -> bool {
        true
    }

    open spec fn try_from_spec(other: u32) -> Result<R25, RangeError> {
        checked(other as int)
    }
}

impl TryFrom<usize> for R25 {
    type Error = RangeError;

    fn try_from(other: usize) -> (r: Result<R25, RangeError>)
        ensures
            r matches Ok(x) ==> x@ == other,
    {
        R25::try_from_usize(other)
    }
}

impl TryFromSpecImpl<usize> for R25 {
    open spec fn obeys_try_from_spec() -> bool {
        true
    }

    open spec fn try_from_spec(other: usize) -> Result<R25, RangeError> {
        checked(other as int)
    }
}

impl TryFrom<i32> for R25 {
    type Error = RangeError;

    fn try_from(other: i32) -> (r: Result<R25, RangeError>)
        ensures
            r matches Ok(x) ==> x@ == other,
    {
        R25::try_from_i32(other)
    }
}

impl TryFromSpecImpl<i32> for R25 {
    open spec fn obeys_try_from_spec() -> bool {
        true
    }

    open spec fn try_from_spec(other: i32) -> Result<R25, RangeError> {
        checked(other as int)
    }
}

impl TryFrom<u8> for R26 {
    type Error = RangeError;

    fn try_from(other: u8) -> (r: Result<R26, RangeError>)
        ensures
            r matches Ok(x) ==> x@ == other,
    {
        R26::try_from_u8(other)
    }
}

impl TryFromSpecImpl<u8> for R26 {
    open spec fn obeys_try_from_spec() -> bool {
        true
    }

    open spec fn try_from_spec(other: u8) -> Result<R26, RangeError> {
        checked(other as int)
    }
}

impl TryFrom<u16> for R26 {
    type Error = RangeError;

    fn try_from(other: u16) -> (r: Result<R26, RangeError>)
        ensures
            r matches Ok(x) ==> x@ == other,
    {
        R26::try_from_u16(other)
    }
}

impl TryFromSpecImpl<u16> for R26 {
    open spec fn obeys_try_from_spec() -> bool {
        true
    }

    open spec fn try_from_spec(other: u16) -> Result<R26, RangeError> {
        checked(other as int)
    }
}

impl TryFrom<u32> for R26 {
    type Error = RangeError;

    fn try_from(other: u32) -> (r: Result<R26, RangeError>)
        ensures
            r matches Ok(x) ==> x@ == other,
    {
        R26::try_from_u32(other)
    }
}

impl TryFromSpecImpl<u32> for R26 {
    open spec fn obeys_try_from_spec() -> bool {
        true
    }

    open spec fn try_from_spec(other: u32) -> Result<R26, RangeError> {
        checked(other as int)
    }
}

impl TryFrom<usize> for R26 {
    type Error = RangeError;

    fn try_from(other: usize) -> (r: Result<R26, RangeError>)
        ensures
            r matches Ok(x) ==> x@ == other,
    {
        R26::try_from_usize(other)
    }
}

impl TryFromSpecImpl<usize> for R26 {
    open spec fn obeys_try_from_spec() -> bool {
        true
    }

    open spec fn try_from_spec(other: usize) -> Result<R26, RangeError> {
        checked(other as int)
    }
}

impl TryFrom<i32> for R26 {
    type Error = RangeError;

    fn try_from(other: i32) -> (r: Result<R26, RangeError>)
        ensures
            r matches Ok(x) ==> x@ == other,
    {
        R26::try_from_i32(other)
    }
}

impl TryFromSpecImpl<i32> for R26 {
    open spec fn obeys_try_from_spec() -> bool {
        true
    }

    open spec fn try_from_spec(other: i32) -> Result<R26, RangeError> {
        checked(other as int)
    }
}

impl TryFrom<u8> for R27 {
    type Error = RangeError;

    fn try_from(other: u8) -> (r: Result<R27, RangeError>)
        ensures
            r matches Ok(x) ==> x@ == other,
    {
        R27::try_from_u8(other)
    }
}

impl TryFromSpecImpl<u8> for R27 {
    open spec fn obeys_try_from_spec() -> bool {
        true
    }

    open spec fn try_from_spec(other: u8) -> Result<R27, RangeError> {
        checked(other as int)
    }
}

impl TryFrom<u16> for R27 {
    type Error = RangeError;

    fn try_from(other: u16) -> (r: Result<R27, RangeError>)
        ensures
            r matches Ok(x) ==> x@ == other,
    {
        R27::try_from_u16(other)
    }
}

impl TryFromSpecImpl<u16> for R27 {
    open spec fn obeys_try_from_spec() -> bool {
        true
    }

    open spec fn try_from_spec(other: u16) -> Result<R27, RangeError> {
        checked(other as int)
    }
}

impl TryFrom<u32> for R27 {
    type Error = RangeError;

    fn try_from(other: u32) -> (r: Result<R27, RangeError>)
        ensures
            r matches Ok(x) ==> x@ == other,
    {
        R27::try_from_u32(other)
    }
}

impl TryFromSpecImpl<u32> for R27 {
    open spec fn obeys_try_from_spec() -> bool {
        true
    }

    open spec fn try_from_spec(other: u32) -> Result<R27, RangeError> {
        checked(other as int)
    }
}

impl TryFrom<usize> for R27 {
    type Error = RangeError;

    fn try_from(other: usize) -> (r: Result<R27, RangeError>)
        ensures
            r matches Ok(x) ==> x@ == other,
    {
        R27::try_from_usize(other)
    }
}

impl TryFromSpecImpl<usize> for R27 {
    open spec fn obeys_try_from_spec() -> bool {
        true
    }

    open spec fn try_from_spec(other: usize) -> Result<R27, RangeError> {
        checked(other as int)
    }
}

impl TryFrom<i32> for R27 {
    type Error = RangeError;

    fn try_from(other: i32) -> (r: Result<R27, RangeError>)
        ensures
            r matches Ok(x) ==> x@ == other,
    {
        R27::try_from_i32(other)
    }
}

impl TryFromSpecImpl<i32> for R27 {
    open spec fn obeys_try_from_spec() -> bool {
        true
    }

    open spec fn try_from_spec(other: i32) -> Result<R27, RangeError> {
        checked(other as int)
    }
}

impl TryFrom<u8> for R28 {
    type Error = RangeError;

    fn try_from(other: u8) -> (r: Result<R28, RangeError>)
        ensures
            r matches Ok(x) ==> x@ == other,
    {
        R28::try_from_u8(other)
    }
}

impl TryFromSpecImpl<u8> for R28 {
    open spec fn obeys_try_from_spec() -> bool {
        true
    }

    open spec fn try_from_spec(other: u8) -> Result<R28, RangeError> {
        checked(other as int)
    }
}

impl TryFrom<u16> for R28 {
    type Error = RangeError;

    fn try_from(other: u16) -> (r: Result<R28, RangeError>)
        ensures
            r matches Ok(x) ==> x@ == other,
    {
        R28::try_from_u16(other)
    }
}

impl TryFromSpecImpl<u16> for R28 {
    open spec fn obeys_try_from_spec() -> bool {
        true
    }

    open spec fn try_from_spec(other: u16) -> Result<R28, RangeError> {
        checked(other as int)
    }
}

impl TryFrom<u32> for R28 {
    type Error = RangeError;

    fn try_from(other: u32) -> (r: Result<R28, RangeError>)
        ensures
            r matches Ok(x) ==> x@ == other,
    {
        R28::try_from_u32(other)
    }
}

impl TryFromSpecImpl<u32> for R28 {
    open spec fn obeys_try_from_spec() -> bool {
        true
    }

    open spec fn try_from_spec(other: u32) -> Result<R28, RangeError> {
        checked(other as int)
    }
}

impl TryFrom<usize> for R28 {
    type Error = RangeError;

    fn try_from(other: usize) -> (r: Result<R28, RangeError>)
        ensures
            r matches Ok(x) ==> x@ == other,
    {
        R28::try_from_usize(other)
    }
}

impl TryFromSpecImpl<usize> for R28 {
    open spec fn obeys_try_from_spec() -> bool {
        true
    }

    open spec fn try_from_spec(other: usize) -> Result<R28, RangeError> {
        checked(other as int)
    }
}

impl TryFrom<i32> for R28 {
    type Error = RangeError;

    fn try_from(other: i32) -> (r: Result<R28, RangeError>)
        ensures
            r matches Ok(x) ==> x@ == other,
    {
        R28::try_from_i32(other)
    }
}

impl TryFromSpecImpl<i32> for R28 {
    open spec fn obeys_try_from_spec() -> bool {
        true
    }

    open spec fn try_from_spec(other: i32) -> Result<R28, RangeError> {
        checked(other as int)
    }
}

impl TryFrom<u8> for R29 {
    type Error = RangeError;

    fn try_from(other: u8) -> (r: Result<R29, RangeError>)
        ensures
            r matches Ok(x) ==> x@ == other,
    {
        R29::try_from_u8(other)
    }
}

impl TryFromSpecImpl<u8> for R29 {
    open spec fn obeys_try_from_spec() -> bool {
        true
    }

    open spec fn try_from_spec(other: u8) -> Result<R29, RangeError> {
        checked(other as int)
    }
}

impl TryFrom<u16> for R29 {
    type Error = RangeError;

    fn try_from(other: u16) -> (r: Result<R29, RangeError>)
        ensures
            r matches Ok(x) ==> x@ == other,
    {
        R29::try_from_u16(other)
    }
}

impl TryFromSpecImpl<u16> for R29 {
    open spec fn obeys_try_from_spec() -> bool {
        true
    }

    open spec fn try_from_spec(other: u16) -> Result<R29, RangeError> {
        checked(other as int)
    }
}

impl TryFrom<u32> for R29 {
    type Error = RangeError;

    fn try_from(other: u32) -> (r: Result<R29, RangeError>)
        ensures
            r matches Ok(x) ==> x@ == other,
    {
        R29::try_from_u32(other)
    }
}

impl TryFromSpecImpl<u32> for R29 {
    open spec fn obeys_try_from_spec() -> bool {
        true
    }

    open spec fn try_from_spec(other: u32) -> Result<R29, RangeError> {
        checked(other as int)
    }
}

impl TryFrom<usize> for R29 {
    type Error = RangeError;

    fn try_from(other: usize) -> (r: Result<R29, RangeError>)
        ensures
            r matches Ok(x) ==> x@ == other,
    {
        R29::try_from_usize(other)
    }
}

impl TryFromSpecImpl<usize> for R29 {
    open spec fn obeys_try_from_spec() -> bool {
        true
    }

    open spec fn try_from_spec(other: usize) -> Result<R29, RangeError> {
        checked(other as int)
    }
}

impl TryFrom<i32> for R29 {
    type Error = RangeError;

    fn try_from(other: i32) -> (r: Result<R29, RangeError>)
        ensures
            r matches Ok(x) ==> x@ == other,
    {
        R29::try_from_i32(other)
    }
}

impl TryFromSpecImpl<i32> for R29 {
    open spec fn obeys_try_from_spec() -> bool {
        true
    }

    open spec fn try_from_spec(other: i32) -> Result<R29, RangeError> {
        checked(other as int)
    }
}

impl TryFrom<u8> for R30 {
    type Error = RangeError;

    fn try_from(other: u8) -> (r: Result<R30, RangeError>)
        ensures
            r matches Ok(x) ==> x@ == other,
    {
        R30::try_from_u8(other)
    }
}

impl TryFromSpecImpl<u8> for R30 {
    open spec fn obeys_try_from_spec() -> bool {
        true
    }

    open spec fn try_from_spec(other: u8) -> Result<R30, RangeError> {
        checked(other as int)
    }
}

impl TryFrom<u16> for R30 {
    type Error = RangeError;

    fn try_from(other: u16) -> (r: Result<R30, RangeError>)
        ensures
            r matches Ok(x) ==> x@ == other,
    {
        R30::try_from_u16(other)
    }
}

impl TryFromSpecImpl<u16> for R30 {
    open spec fn obeys_try_from_spec() -> bool {
        true
    }

    open spec fn try_from_spec(other: u16) -> Result<R30, RangeError> {
        checked(other as int)
    }
}

impl TryFrom<u32> for R30 {
    type Error = RangeError;

    fn try_from(other: u32) -> (r: Result<R30, RangeError>)
        ensures
            r matches Ok(x) ==> x@ == other,
    {
        R30::try_from_u32(other)
    }
}

impl TryFromSpecImpl<u32> for R30 {
    open spec fn obeys_try_from_spec() -> bool {
        true
    }

    open spec fn try_from_spec(other: u32) -> Result<R30, RangeError> {
        checked(other as int)
    }
}

impl TryFrom<usize> for R30 {
    type Error = RangeError;

    fn try_from(other: usize) -> (r: Result<R30, RangeError>)
        ensures
            r matches Ok(x) ==> x@ == other,
    {
        R30::try_from_usize(other)
    }
}

impl TryFromSpecImpl<usize> for R30 {
    open spec fn obeys_try_from_spec() -> bool {
        true
    }

    open spec fn try_from_spec(other: usize) -> Result<R30, RangeError> {
        checked(other as int)
    }
}

impl TryFrom<i32> for R30 {
    type Error = RangeError;

    fn try_from(other: i32) -> (r: Result<R30, RangeError>)
        ensures
            r matches Ok(x) ==> x@ == other,
    {
        R30::try_from_i32(other)
    }
}

impl TryFromSpecImpl<i32> for R30 {
    open spec fn obeys_try_from_spec() -> bool {
        true
    }

    open spec fn try_from_spec(other: i32) -> Result<R30, RangeError> {
        checked(other as int)
    }
}

impl TryFrom<u8> for R31 {
    type Error = RangeError;

    fn try_from(other: u8) -> (r: Result<R31, RangeError>)
        ensures
            r matches Ok(x) ==> x@ == other,
    {
        R31::try_from_u8(other)
    }
}

impl TryFromSpecImpl<u8> for R31 {
    open spec fn obeys_try_from_spec() -> bool {
        true
    }

    open spec fn try_from_spec(other: u8) -> Result<R31, RangeError> {
        checked(other as int)
    }
}

impl TryFrom<u16> for R31 {
    type Error = RangeError;

    fn try_from(other: u16) -> (r: Result<R31, RangeError>)
        ensures
            r matches Ok(x) ==> x@ == other,
    {
        R31::try_from_u16(other)
    }
}

impl TryFromSpecImpl<u16> for R31 {
    open spec fn obeys_try_from_spec() -> bool {
        true
    }

    open spec fn try_from_spec(other: u16) -> Result<R31, RangeError> {
        checked(other as int)
    }
}

impl TryFrom<u32> for R31 {
    type Error = RangeError;

    fn try_from(other: u32) -> (r: Result<R31, RangeError>)
        ensures
            r matches Ok(x) ==> x@ == other,
    {
        R31::try_from_u32(other)
    }
}

impl TryFromSpecImpl<u32> for R31 {
    open spec fn obeys_try_from_spec() -> bool {
        true
    }

    open spec fn try_from_spec(other: u32) -> Result<R31, RangeError> {
        checked(other as int)
    }
}

impl TryFrom<usize> for R31 {
    type Error = RangeError;

    fn try_from(other: usize) -> (r: Result<R31, RangeError>)
        ensures
            r matches Ok(x) ==> x@ == other,
    {
        R31::try_from_usize(other)
    }
}

impl TryFromSpecImpl<usize> for R31 {
    open spec fn obeys_try_from_spec() -> bool {
        true
    }

    open spec fn try_from_spec(other: usize) -> Result<R31, RangeError> {
        checked(other as int)
    }
}

impl TryFrom<i32> for R31 {
    type Error = RangeError;

    fn try_from(other: i32) -> (r: Result<R31, RangeError>)
        ensures
            r matches Ok(x) ==> x@ == other,
    {
        R31::try_from_i32(other)
    }
}

impl TryFromSpecImpl<i32> for R31 {
    open spec fn obeys_try_from_spec() -> bool {
        true
    }

    open spec fn try_from_spec(other: i32) -> Result<R31, RangeError> {
        checked(other as int)
    }
}

impl TryFrom<u8> for R32 {
    type Error = RangeError;

    fn try_from(other: u8) -> (r: Result<R32, RangeError>)
        ensures
            r matches Ok(x) ==> x@ == other,
    {
        R32::try_from_u8(other)
    }
}

impl TryFromSpecImpl<u8> for R32 {
    open spec fn obeys_try_from_spec() -> bool {
        true
    }

    open spec fn try_from_spec(other: u8) -> Result<R32, RangeError> {
        checked(other as int)
    }
}

impl TryFrom<u16> for R32 {
    type Error = RangeError;

    fn try_from(other: u16) -> (r: Result<R32, RangeError>)
        ensures
            r matches Ok(x) ==> x@ == other,
    {
        R32::try_from_u16(other)
    }
}

impl TryFromSpecImpl<u16> for R32 {
    open spec fn obeys_try_from_spec() -> bool {
        true
    }

    open spec fn try_from_spec(other: u16) -> Result<R32, RangeError> {
        checked(other as int)
    }
}

impl TryFrom<u32> for R32 {
    type Error = RangeError;

    fn try_from(other: u32) -> (r: Result<R32, RangeError>)
        ensures
            r matches Ok(x) ==> x@ == other,
    {
        R32::try_from_u32(other)
    }
}

impl TryFromSpecImpl<u32> for R32 {
    open spec fn obeys_try_from_spec() -> bool {
        true
    }

    open spec fn try_from_spec(other: u32) -> Result<R32, RangeError> {
        checked(other as int)
    }
}

impl TryFrom<usize> for R32 {
    type Error = RangeError;

    fn try_from(other: usize) -> (r: Result<R32, RangeError>)
        ensures
            r matches Ok(x) ==> x@ == other,
    {
        R32::try_from_usize(other)
    }
}

impl TryFromSpecImpl<usize> for R32 {
    open spec fn obeys_try_from_spec() -> bool {
        true
    }

    open spec fn try_from_spec(other: usize) -> Result<R32, RangeError> {
        checked(other as int)
    }
}

impl TryFrom<i32> for R32 {
    type Error = RangeError;

    fn try_from(other: i32) -> (r: Result<R32, RangeError>)
        ensures
            r matches Ok(x) ==> x@ == other,
    {
        R32::try_from_i32(other)
    }
}

impl TryFromSpecImpl<i32> for R32 {
    open spec fn obeys_try_from_spec() -> bool {
        true
    }

    open spec fn try_from_spec(other: i32) -> Result<R32, RangeError> {
        checked(other as int)
    }
}

} // verus!
