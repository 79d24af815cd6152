//! `==` between an index and a native integer: whether the index held is
//! that integer. No index equals a negative one.

use crate::range::large::{
    R17, R18, R19, R20, R21, R22, R23, R24, R25, R26, R27, R28, R29, R30, R31, R32,
};
use crate::range::small::{R1, R10, R11, R12, R13, R14, R15, R16, R2, R3, R4, R5, R6, R7, R8, R9};
use crate::range::RangeIndex;
use vstd::prelude::*;
use vstd::std_specs::cmp::PartialEqSpecImpl;

verus! {

impl PartialEq<u8> for R1 {
    fn eq(&self, other: &u8) -> (r: bool) {
        self.eq_u8(*other)
    }
}

impl PartialEqSpecImpl<u8> for R1 {
    open spec fn obeys_eq_spec() -> bool {
        true
    }

    open spec fn eq_spec(&self, other: &u8) -> bool {
        self@ == *other
    }
}

impl PartialEq<u16> for R1 {
    fn eq(&self, other: &u16) -> (r: bool) {
        self.eq_u16(*other)
    }
}

impl PartialEqSpecImpl<u16> for R1 {
    open spec fn obeys_eq_spec() -> bool {
        true
    }

    open spec fn eq_spec(&self, other: &u16) -> bool {
        self@ == *other
    }
}

impl PartialEq<u32> for R1 {
    fn eq(&self, other: &u32) -> (r: bool) {
        self.eq_u32(*other)
    }
}

impl PartialEqSpecImpl<u32> for R1 {
    open spec fn obeys_eq_spec() -> bool {
        true
    }

    open spec fn eq_spec(&self, other: &u32) -> bool {
        self@ == *other
    }
}

impl PartialEq<usize> for R1 {
    fn eq(&self, other: &usize) -> (r: bool) {
        self.eq_usize(*other)
    }
}

impl PartialEqSpecImpl<usize> for R1 {
    open spec fn obeys_eq_spec() -> bool {
        true
    }

    open spec fn eq_spec(&self, other: &usize) -> bool {
        self@ == *other
    }
}

impl PartialEq<i32> for R1 {
    fn eq(&self, other: &i32) -> (r: bool) {
        self.eq_i32(*other)
    }
}

impl PartialEqSpecImpl<i32> for R1 {
    open spec fn obeys_eq_spec() -> bool {
        true
    }

    open spec fn eq_spec(&self, other: &i32) -> bool {
        self@ == *other
    }
}

impl PartialEq<u8> for R2 {
    fn eq(&self, other: &u8) -> (r: bool) {
        self.eq_u8(*other)
    }
}

impl PartialEqSpecImpl<u8> for R2 {
    open spec fn obeys_eq_spec() -> bool {
        true
    }

    open spec fn eq_spec(&self, other: &u8) -> bool {
        self@ == *other
    }
}

impl PartialEq<u16> for R2 {
    fn eq(&self, other: &u16) -> (r: bool) {
        self.eq_u16(*other)
    }
}

impl PartialEqSpecImpl<u16> for R2 {
    open spec fn obeys_eq_spec() -> bool {
        true
    }

    open spec fn eq_spec(&self, other: &u16) -> bool {
        self@ == *other
    }
}

impl PartialEq<u32> for R2 {
    fn eq(&self, other: &u32) -> (r: bool) {
        self.eq_u32(*other)
    }
}

impl PartialEqSpecImpl<u32> for R2 {
    open spec fn obeys_eq_spec() -> bool {
        true
    }

    open spec fn eq_spec(&self, other: &u32) -> bool {
        self@ == *other
    }
}

impl PartialEq<usize> for R2 {
    fn eq(&self, other: &usize) -> (r: bool) {
        self.eq_usize(*other)
    }
}

impl PartialEqSpecImpl<usize> for R2 {
    open spec fn obeys_eq_spec() -> bool {
        true
    }

    open spec fn eq_spec(&self, other: &usize) -> bool {
        self@ == *other
    }
}

impl PartialEq<i32> for R2 {
    fn eq(&self, other: &i32) -> (r: bool) {
        self.eq_i32(*other)
    }
}

impl PartialEqSpecImpl<i32> for R2 {
    open spec fn obeys_eq_spec() -> bool {
        true
    }

    open spec fn eq_spec(&self, other: &i32) -> bool {
        self@ == *other
    }
}

impl PartialEq<u8> for R3 {
    fn eq(&self, other: &u8) -> (r: bool) {
        self.eq_u8(*other)
    }
}

impl PartialEqSpecImpl<u8> for R3 {
    open spec fn obeys_eq_spec() -> bool {
        true
    }

    open spec fn eq_spec(&self, other: &u8) -> bool {
        self@ == *other
    }
}

impl PartialEq<u16> for R3 {
    fn eq(&self, other: &u16) -> (r: bool) {
        self.eq_u16(*other)
    }
}

impl PartialEqSpecImpl<u16> for R3 {
    open spec fn obeys_eq_spec() -> bool {
        true
    }

    open spec fn eq_spec(&self, other: &u16) -> bool {
        self@ == *other
    }
}

impl PartialEq<u32> for R3 {
    fn eq(&self, other: &u32) -> (r: bool) {
        self.eq_u32(*other)
    }
}

impl PartialEqSpecImpl<u32> for R3 {
    open spec fn obeys_eq_spec() -> bool {
        true
    }

    open spec fn eq_spec(&self, other: &u32) -> bool {
        self@ == *other
    }
}

impl PartialEq<usize> for R3 {
    fn eq(&self, other: &usize) -> (r: bool) {
        self.eq_usize(*other)
    }
}

impl PartialEqSpecImpl<usize> for R3 {
    open spec fn obeys_eq_spec() -> bool {
        true
    }

    open spec fn eq_spec(&self, other: &usize) -> bool {
        self@ == *other
    }
}

impl PartialEq<i32> for R3 {
    fn eq(&self, other: &i32) -> (r: bool) {
        self.eq_i32(*other)
    }
}

impl PartialEqSpecImpl<i32> for R3 {
    open spec fn obeys_eq_spec() -> bool {
        true
    }

    open spec fn eq_spec(&self, other: &i32) -> bool {
        self@ == *other
    }
}

impl PartialEq<u8> for R4 {
    fn eq(&self, other: &u8) -> (r: bool) {
        self.eq_u8(*other)
    }
}

impl PartialEqSpecImpl<u8> for R4 {
    open spec fn obeys_eq_spec() -> bool {
        true
    }

    open spec fn eq_spec(&self, other: &u8) -> bool {
        self@ == *other
    }
}

impl PartialEq<u16> for R4 {
    fn eq(&self, other: &u16) -> (r: bool) {
        self.eq_u16(*other)
    }
}

impl PartialEqSpecImpl<u16> for R4 {
    open spec fn obeys_eq_spec() -> bool {
        true
    }

    open spec fn eq_spec(&self, other: &u16) -> bool {
        self@ == *other
    }
}

impl PartialEq<u32> for R4 {
    fn eq(&self, other: &u32) -> (r: bool) {
        self.eq_u32(*other)
    }
}

impl PartialEqSpecImpl<u32> for R4 {
    open spec fn obeys_eq_spec() -> bool {
        true
    }

    open spec fn eq_spec(&self, other: &u32) -> bool {
        self@ == *other
    }
}

impl PartialEq<usize> for R4 {
    fn eq(&self, other: &usize) -> (r: bool) {
        self.eq_usize(*other)
    }
}

impl PartialEqSpecImpl<usize> for R4 {
    open spec fn obeys_eq_spec() -> bool {
        true
    }

    open spec fn eq_spec(&self, other: &usize) -> bool {
        self@ == *other
    }
}

impl PartialEq<i32> for R4 {
    fn eq(&self, other: &i32) -> (r: bool) {
        self.eq_i32(*other)
    }
}

impl PartialEqSpecImpl<i32> for R4 {
    open spec fn obeys_eq_spec() -> bool {
        true
    }

    open spec fn eq_spec(&self, other: &i32) -> bool {
        self@ == *other
    }
}

impl PartialEq<u8> for R5 {
    fn eq(&self, other: &u8) -> (r: bool) {
        self.eq_u8(*other)
    }
}

impl PartialEqSpecImpl<u8> for R5 {
    open spec fn obeys_eq_spec() -> bool {
        true
    }

    open spec fn eq_spec(&self, other: &u8) -> bool {
        self@ == *other
    }
}

impl PartialEq<u16> for R5 {
    fn eq(&self, other: &u16) -> (r: bool) {
        self.eq_u16(*other)
    }
}

impl PartialEqSpecImpl<u16> for R5 {
    open spec fn obeys_eq_spec() -> bool {
        true
    }

    open spec fn eq_spec(&self, other: &u16) -> bool {
        self@ == *other
    }
}

impl PartialEq<u32> for R5 {
    fn eq(&self, other: &u32) -> (r: bool) {
        self.eq_u32(*other)
    }
}

impl PartialEqSpecImpl<u32> for R5 {
    open spec fn obeys_eq_spec() -> bool {
        true
    }

    open spec fn eq_spec(&self, other: &u32) -> bool {
        self@ == *other
    }
}

impl PartialEq<usize> for R5 {
    fn eq(&self, other: &usize) -> (r: bool) {
        self.eq_usize(*other)
    }
}

impl PartialEqSpecImpl<usize> for R5 {
    open spec fn obeys_eq_spec() -> bool {
        true
    }

    open spec fn eq_spec(&self, other: &usize) -> bool {
        self@ == *other
    }
}

impl PartialEq<i32> for R5 {
    fn eq(&self, other: &i32) -> (r: bool) {
        self.eq_i32(*other)
    }
}

impl PartialEqSpecImpl<i32> for R5 {
    open spec fn obeys_eq_spec() -> bool {
        true
    }

    open spec fn eq_spec(&self, other: &i32) -> bool {
        self@ == *other
    }
}

impl PartialEq<u8> for R6 {
    fn eq(&self, other: &u8) -> (r: bool) {
        self.eq_u8(*other)
    }
}

impl PartialEqSpecImpl<u8> for R6 {
    open spec fn obeys_eq_spec() -> bool {
        true
    }

    open spec fn eq_spec(&self, other: &u8) -> bool {
        self@ == *other
    }
}

impl PartialEq<u16> for R6 {
    fn eq(&self, other: &u16) -> (r: bool) {
        self.eq_u16(*other)
    }
}

impl PartialEqSpecImpl<u16> for R6 {
    open spec fn obeys_eq_spec() -> bool {
        true
    }

    open spec fn eq_spec(&self, other: &u16) -> bool {
        self@ == *other
    }
}

impl PartialEq<u32> for R6 {
    fn eq(&self, other: &u32) -> (r: bool) {
        self.eq_u32(*other)
    }
}

impl PartialEqSpecImpl<u32> for R6 {
    open spec fn obeys_eq_spec() -> bool {
        true
    }

    open spec fn eq_spec(&self, other: &u32) -> bool {
        self@ == *other
    }
}

impl PartialEq<usize> for R6 {
    fn eq(&self, other: &usize) -> (r: bool) {
        self.eq_usize(*other)
    }
}

impl PartialEqSpecImpl<usize> for R6 {
    open spec fn obeys_eq_spec() -> bool {
        true
    }

    open spec fn eq_spec(&self, other: &usize) -> bool {
        self@ == *other
    }
}

impl PartialEq<i32> for R6 {
    fn eq(&self, other: &i32) -> (r: bool) {
        self.eq_i32(*other)
    }
}

impl PartialEqSpecImpl<i32> for R6 {
    open spec fn obeys_eq_spec() -> bool {
        true
    }

    open spec fn eq_spec(&self, other: &i32) -> bool {
        self@ == *other
    }
}

impl PartialEq<u8> for R7 {
    fn eq(&self, other: &u8) -> (r: bool) {
        self.eq_u8(*other)
    }
}

impl PartialEqSpecImpl<u8> for R7 {
    open spec fn obeys_eq_spec() -> bool {
        true
    }

    open spec fn eq_spec(&self, other: &u8) -> bool {
        self@ == *other
    }
}

impl PartialEq<u16> for R7 {
    fn eq(&self, other: &u16) -> (r: bool) {
        self.eq_u16(*other)
    }
}

impl PartialEqSpecImpl<u16> for R7 {
    open spec fn obeys_eq_spec() -> bool {
        true
    }

    open spec fn eq_spec(&self, other: &u16) -> bool {
        self@ == *other
    }
}

impl PartialEq<u32> for R7 {
    fn eq(&self, other: &u32) -> (r: bool) {
        self.eq_u32(*other)
    }
}

impl PartialEqSpecImpl<u32> for R7 {
    open spec fn obeys_eq_spec() -> bool {
        true
    }

    open spec fn eq_spec(&self, other: &u32) -> bool {
        self@ == *other
    }
}

impl PartialEq<usize> for R7 {
    fn eq(&self, other: &usize) -> (r: bool) {
        self.eq_usize(*other)
    }
}

impl PartialEqSpecImpl<usize> for R7 {
    open spec fn obeys_eq_spec() -> bool {
        true
    }

    open spec fn eq_spec(&self, other: &usize) -> bool {
        self@ == *other
    }
}

impl PartialEq<i32> for R7 {
    fn eq(&self, other: &i32) -> (r: bool) {
        self.eq_i32(*other)
    }
}

impl PartialEqSpecImpl<i32> for R7 {
    open spec fn obeys_eq_spec() -> bool {
        true
    }

    open spec fn eq_spec(&self, other: &i32) -> bool {
        self@ == *other
    }
}

impl PartialEq<u8> for R8 {
    fn eq(&self, other: &u8) -> (r: bool) {
        self.eq_u8(*other)
    }
}

impl PartialEqSpecImpl<u8> for R8 {
    open spec fn obeys_eq_spec() -> bool {
        true
    }

    open spec fn eq_spec(&self, other: &u8) -> bool {
        self@ == *other
    }
}

impl PartialEq<u16> for R8 {
    fn eq(&self, other: &u16) -> (r: bool) {
        self.eq_u16(*other)
    }
}

impl PartialEqSpecImpl<u16> for R8 {
    open spec fn obeys_eq_spec() -> bool {
        true
    }

    open spec fn eq_spec(&self, other: &u16) -> bool {
        self@ == *other
    }
}

impl PartialEq<u32> for R8 {
    fn eq(&self, other: &u32) -> (r: bool) {
        self.eq_u32(*other)
    }
}

impl PartialEqSpecImpl<u32> for R8 {
    open spec fn obeys_eq_spec() -> bool {
        true
    }

    open spec fn eq_spec(&self, other: &u32) -> bool {
        self@ == *other
    }
}

impl PartialEq<usize> for R8 {
    fn eq(&self, other: &usize) -> (r: bool) {
        self.eq_usize(*other)
    }
}

impl PartialEqSpecImpl<usize> for R8 {
    open spec fn obeys_eq_spec() -> bool {
        true
    }

    open spec fn eq_spec(&self, other: &usize) -> bool {
        self@ == *other
    }
}

impl PartialEq<i32> for R8 {
    fn eq(&self, other: &i32) -> (r: bool) {
        self.eq_i32(*other)
    }
}

impl PartialEqSpecImpl<i32> for R8 {
    open spec fn obeys_eq_spec() -> bool {
        true
    }

    open spec fn eq_spec(&self, other: &i32) -> bool {
        self@ == *other
    }
}

impl PartialEq<u8> for R9 {
    fn eq(&self, other: &u8) -> (r: bool) {
        self.eq_u8(*other)
    }
}

impl PartialEqSpecImpl<u8> for R9 {
    open spec fn obeys_eq_spec() -> bool {
        true
    }

    open spec fn eq_spec(&self, other: &u8) -> bool {
        self@ == *other
    }
}

impl PartialEq<u16> for R9 {
    fn eq(&self, other: &u16) -> (r: bool) {
        self.eq_u16(*other)
    }
}

impl PartialEqSpecImpl<u16> for R9 {
    open spec fn obeys_eq_spec() -> bool {
        true
    }

    open spec fn eq_spec(&self, other: &u16) -> bool {
        self@ == *other
    }
}

impl PartialEq<u32> for R9 {
    fn eq(&self, other: &u32) -> (r: bool) {
        self.eq_u32(*other)
    }
}

impl PartialEqSpecImpl<u32> for R9 {
    open spec fn obeys_eq_spec() -> bool {
        true
    }

    open spec fn eq_spec(&self, other: &u32) -> bool {
        self@ == *other
    }
}

impl PartialEq<usize> for R9 {
    fn eq(&self, other: &usize) -> (r: bool) {
        self.eq_usize(*other)
    }
}

impl PartialEqSpecImpl<usize> for R9 {
    open spec fn obeys_eq_spec() -> bool {
        true
    }

    open spec fn eq_spec(&self, other: &usize) -> bool {
        self@ == *other
    }
}

impl PartialEq<i32> for R9 {
    fn eq(&self, other: &i32) -> (r: bool) {
        self.eq_i32(*other)
    }
}

impl PartialEqSpecImpl<i32> for R9 {
    open spec fn obeys_eq_spec() -> bool {
        true
    }

    open spec fn eq_spec(&self, other: &i32) -> bool {
        self@ == *other
    }
}

impl PartialEq<u8> for R10 {
    fn eq(&self, other: &u8) -> (r: bool) {
        self.eq_u8(*other)
    }
}

impl PartialEqSpecImpl<u8> for R10 {
    open spec fn obeys_eq_spec() -> bool {
        true
    }

    open spec fn eq_spec(&self, other: &u8) -> bool {
        self@ == *other
    }
}

impl PartialEq<u16> for R10 {
    fn eq(&self, other: &u16) -> (r: bool) {
        self.eq_u16(*other)
    }
}

impl PartialEqSpecImpl<u16> for R10 {
    open spec fn obeys_eq_spec() -> bool {
        true
    }

    open spec fn eq_spec(&self, other: &u16) -> bool {
        self@ == *other
    }
}

impl PartialEq<u32> for R10 {
    fn eq(&self, other: &u32) -> (r: bool) {
        self.eq_u32(*other)
    }
}

impl PartialEqSpecImpl<u32> for R10 {
    open spec fn obeys_eq_spec() -> bool {
        true
    }

    open spec fn eq_spec(&self, other: &u32) -> bool {
        self@ == *other
    }
}

impl PartialEq<usize> for R10 {
    fn eq(&self, other: &usize) -> (r: bool) {
        self.eq_usize(*other)
    }
}

impl PartialEqSpecImpl<usize> for R10 {
    open spec fn obeys_eq_spec() -> bool {
        true
    }

    open spec fn eq_spec(&self, other: &usize) -> bool {
        self@ == *other
    }
}

impl PartialEq<i32> for R10 {
    fn eq(&self, other: &i32) -> (r: bool) {
        self.eq_i32(*other)
    }
}

impl PartialEqSpecImpl<i32> for R10 {
    open spec fn obeys_eq_spec() -> bool {
        true
    }

    open spec fn eq_spec(&self, other: &i32) -> bool {
        self@ == *other
    }
}

impl PartialEq<u8> for R11 {
    fn eq(&self, other: &u8) -> (r: bool) {
        self.eq_u8(*other)
    }
}

impl PartialEqSpecImpl<u8> for R11 {
    open spec fn obeys_eq_spec() -> bool {
        true
    }

    open spec fn eq_spec(&self, other: &u8) -> bool {
        self@ == *other
    }
}

impl PartialEq<u16> for R11 {
    fn eq(&self, other: &u16) -> (r: bool) {
        self.eq_u16(*other)
    }
}

impl PartialEqSpecImpl<u16> for R11 {
    open spec fn obeys_eq_spec() -> bool {
        true
    }

    open spec fn eq_spec(&self, other: &u16) -> bool {
        self@ == *other
    }
}

impl PartialEq<u32> for R11 {
    fn eq(&self, other: &u32) -> (r: bool) {
        self.eq_u32(*other)
    }
}

impl PartialEqSpecImpl<u32> for R11 {
    open spec fn obeys_eq_spec() -> bool {
        true
    }

    open spec fn eq_spec(&self, other: &u32) -> bool {
        self@ == *other
    }
}

impl PartialEq<usize> for R11 {
    fn eq(&self, other: &usize) -> (r: bool) {
        self.eq_usize(*other)
    }
}

impl PartialEqSpecImpl<usize> for R11 {
    open spec fn obeys_eq_spec() -> bool {
        true
    }

    open spec fn eq_spec(&self, other: &usize) -> bool {
        self@ == *other
    }
}

impl PartialEq<i32> for R11 {
    fn eq(&self, other: &i32) -> (r: bool) {
        self.eq_i32(*other)
    }
}

impl PartialEqSpecImpl<i32> for R11 {
    open spec fn obeys_eq_spec() -> bool {
        true
    }

    open spec fn eq_spec(&self, other: &i32) -> bool {
        self@ == *other
    }
}

impl PartialEq<u8> for R12 {
    fn eq(&self, other: &u8) -> (r: bool) {
        self.eq_u8(*other)
    }
}

impl PartialEqSpecImpl<u8> for R12 {
    open spec fn obeys_eq_spec() -> bool {
        true
    }

    open spec fn eq_spec(&self, other: &u8) -> bool {
        self@ == *other
    }
}

impl PartialEq<u16> for R12 {
    fn eq(&self, other: &u16) -> (r: bool) {
        self.eq_u16(*other)
    }
}

impl PartialEqSpecImpl<u16> for R12 {
    open spec fn obeys_eq_spec() -> bool {
        true
    }

    open spec fn eq_spec(&self, other: &u16) -> bool {
        self@ == *other
    }
}

impl PartialEq<u32> for R12 {
    fn eq(&self, other: &u32) -> (r: bool) {
        self.eq_u32(*other)
    }
}

impl PartialEqSpecImpl<u32> for R12 {
    open spec fn obeys_eq_spec() -> bool {
        true
    }

    open spec fn eq_spec(&self, other: &u32) -> bool {
        self@ == *other
    }
}

impl PartialEq<usize> for R12 {
    fn eq(&self, other: &usize) -> (r: bool) {
        self.eq_usize(*other)
    }
}

impl PartialEqSpecImpl<usize> for R12 {
    open spec fn obeys_eq_spec() -> bool {
        true
    }

    open spec fn eq_spec(&self, other: &usize) -> bool {
        self@ == *other
    }
}

impl PartialEq<i32> for R12 {
    fn eq(&self, other: &i32) -> (r: bool) {
        self.eq_i32(*other)
    }
}

impl PartialEqSpecImpl<i32> for R12 {
    open spec fn obeys_eq_spec() -> bool {
        true
    }

    open spec fn eq_spec(&self, other: &i32) -> bool {
        self@ == *other
    }
}

impl PartialEq<u8> for R13 {
    fn eq(&self, other: &u8) -> (r: bool) {
        self.eq_u8(*other)
    }
}

impl PartialEqSpecImpl<u8> for R13 {
    open spec fn obeys_eq_spec() -> bool {
        true
    }

    open spec fn eq_spec(&self, other: &u8) -> bool {
        self@ == *other
    }
}

impl PartialEq<u16> for R13 {
    fn eq(&self, other: &u16) -> (r: bool) {
        self.eq_u16(*other)
    }
}

impl PartialEqSpecImpl<u16> for R13 {
    open spec fn obeys_eq_spec() -> bool {
        true
    }

    open spec fn eq_spec(&self, other: &u16) -> bool {
        self@ == *other
    }
}

impl PartialEq<u32> for R13 {
    fn eq(&self, other: &u32) -> (r: bool) {
        self.eq_u32(*other)
    }
}

impl PartialEqSpecImpl<u32> for R13 {
    open spec fn obeys_eq_spec() -> bool {
        true
    }

    open spec fn eq_spec(&self, other: &u32) -> bool {
        self@ == *other
    }
}

impl PartialEq<usize> for R13 {
    fn eq(&self, other: &usize) -> (r: bool) {
        self.eq_usize(*other)
    }
}

impl PartialEqSpecImpl<usize> for R13 {
    open spec fn obeys_eq_spec() -> bool {
        true
    }

    open spec fn eq_spec(&self, other: &usize) -> bool {
        self@ == *other
    }
}

impl PartialEq<i32> for R13 {
    fn eq(&self, other: &i32) -> (r: bool) {
        self.eq_i32(*other)
    }
}

impl PartialEqSpecImpl<i32> for R13 {
    open spec fn obeys_eq_spec() -> bool {
        true
    }

    open spec fn eq_spec(&self, other: &i32) -> bool {
        self@ == *other
    }
}

impl PartialEq<u8> for R14 {
    fn eq(&self, other: &u8) -> (r: bool) {
        self.eq_u8(*other)
    }
}

impl PartialEqSpecImpl<u8> for R14 {
    open spec fn obeys_eq_spec() -> bool {
        true
    }

    open spec fn eq_spec(&self, other: &u8) -> bool {
        self@ == *other
    }
}

impl PartialEq<u16> for R14 {
    fn eq(&self, other: &u16) -> (r: bool) {
        self.eq_u16(*other)
    }
}

impl PartialEqSpecImpl<u16> for R14 {
    open spec fn obeys_eq_spec() -> bool {
        true
    }

    open spec fn eq_spec(&self, other: &u16) -> bool {
        self@ == *other
    }
}

impl PartialEq<u32> for R14 {
    fn eq(&self, other: &u32) -> (r: bool) {
        self.eq_u32(*other)
    }
}

impl PartialEqSpecImpl<u32> for R14 {
    open spec fn obeys_eq_spec() -> bool {
        true
    }

    open spec fn eq_spec(&self, other: &u32) -> bool {
        self@ == *other
    }
}

impl PartialEq<usize> for R14 {
    fn eq(&self, other: &usize) -> (r: bool) {
        self.eq_usize(*other)
    }
}

impl PartialEqSpecImpl<usize> for R14 {
    open spec fn obeys_eq_spec() -> bool {
        true
    }

    open spec fn eq_spec(&self, other: &usize) -> bool {
        self@ == *other
    }
}

impl PartialEq<i32> for R14 {
    fn eq(&self, other: &i32) -> (r: bool) {
        self.eq_i32(*other)
    }
}

impl PartialEqSpecImpl<i32> for R14 {
    open spec fn obeys_eq_spec() -> bool {
        true
    }

    open spec fn eq_spec(&self, other: &i32) -> bool {
        self@ == *other
    }
}

impl PartialEq<u8> for R15 {
    fn eq(&self, other: &u8) -> (r: bool) {
        self.eq_u8(*other)
    }
}

impl PartialEqSpecImpl<u8> for R15 {
    open spec fn obeys_eq_spec() -> bool {
        true
    }

    open spec fn eq_spec(&self, other: &u8) -> bool {
        self@ == *other
    }
}

impl PartialEq<u16> for R15 {
    fn eq(&self, other: &u16) -> (r: bool) {
        self.eq_u16(*other)
    }
}

impl PartialEqSpecImpl<u16> for R15 {
    open spec fn obeys_eq_spec() -> bool {
        true
    }

    open spec fn eq_spec(&self, other: &u16) -> bool {
        self@ == *other
    }
}

impl PartialEq<u32> for R15 {
    fn eq(&self, other: &u32) -> (r: bool) {
        self.eq_u32(*other)
    }
}

impl PartialEqSpecImpl<u32> for R15 {
    open spec fn obeys_eq_spec() -> bool {
        true
    }

    open spec fn eq_spec(&self, other: &u32) -> bool {
        self@ == *other
    }
}

impl PartialEq<usize> for R15 {
    fn eq(&self, other: &usize) -> (r: bool) {
        self.eq_usize(*other)
    }
}

impl PartialEqSpecImpl<usize> for R15 {
    open spec fn obeys_eq_spec() -> bool {
        true
    }

    open spec fn eq_spec(&self, other: &usize) -> bool {
        self@ == *other
    }
}

impl PartialEq<i32> for R15 {
    fn eq(&self, other: &i32) -> (r: bool) {
        self.eq_i32(*other)
    }
}

impl PartialEqSpecImpl<i32> for R15 {
    open spec fn obeys_eq_spec() -> bool {
        true
    }

    open spec fn eq_spec(&self, other: &i32) -> bool {
        self@ == *other
    }
}

impl PartialEq<u8> for R16 {
    fn eq(&self, other: &u8) -> (r: bool) {
        self.eq_u8(*other)
    }
}

impl PartialEqSpecImpl<u8> for R16 {
    open spec fn obeys_eq_spec() -> bool {
        true
    }

    open spec fn eq_spec(&self, other: &u8) -> bool {
        self@ == *other
    }
}

impl PartialEq<u16> for R16 {
    fn eq(&self, other: &u16) -> (r: bool) {
        self.eq_u16(*other)
    }
}

impl PartialEqSpecImpl<u16> for R16 {
    open spec fn obeys_eq_spec() -> bool {
        true
    }

    open spec fn eq_spec(&self, other: &u16) -> bool {
        self@ == *other
    }
}

impl PartialEq<u32> for R16 {
    fn eq(&self, other: &u32) -> (r: bool) {
        self.eq_u32(*other)
    }
}

impl PartialEqSpecImpl<u32> for R16 {
    open spec fn obeys_eq_spec() -> bool {
        true
    }

    open spec fn eq_spec(&self, other: &u32) -> bool {
        self@ == *other
    }
}

impl PartialEq<usize> for R16 {
    fn eq(&self, other: &usize) -> (r: bool) {
        self.eq_usize(*other)
    }
}

impl PartialEqSpecImpl<usize> for R16 {
    open spec fn obeys_eq_spec() -> bool {
        true
    }

    open spec fn eq_spec(&self, other: &usize) -> bool {
        self@ == *other
    }
}

impl PartialEq<i32> for R16 {
    fn eq(&self, other: &i32) -> (r: bool) {
        self.eq_i32(*other)
    }
}

impl PartialEqSpecImpl<i32> for R16 {
    open spec fn obeys_eq_spec() -> bool {
        true
    }

    open spec fn eq_spec(&self, other: &i32) -> bool {
        self@ == *other
    }
}

impl PartialEq<u8> for R17 {
    fn eq(&self, other: &u8) -> (r: bool) {
        self.eq_u8(*other)
    }
}

impl PartialEqSpecImpl<u8> for R17 {
    open spec fn obeys_eq_spec() -> bool {
        true
    }

    open spec fn eq_spec(&self, other: &u8) -> bool {
        self@ == *other
    }
}

impl PartialEq<u16> for R17 {
    fn eq(&self, other: &u16) -> (r: bool) {
        self.eq_u16(*other)
    }
}

impl PartialEqSpecImpl<u16> for R17 {
    open spec fn obeys_eq_spec() -> bool {
        true
    }

    open spec fn eq_spec(&self, other: &u16) -> bool {
        self@ == *other
    }
}

impl PartialEq<u32> for R17 {
    fn eq(&self, other: &u32) -> (r: bool) {
        self.eq_u32(*other)
    }
}

impl PartialEqSpecImpl<u32> for R17 {
    open spec fn obeys_eq_spec() -> bool {
        true
    }

    open spec fn eq_spec(&self, other: &u32) -> bool {
        self@ == *other
    }
}

impl PartialEq<usize> for R17 {
    fn eq(&self, other: &usize) -> (r: bool) {
        self.eq_usize(*other)
    }
}

impl PartialEqSpecImpl<usize> for R17 {
    open spec fn obeys_eq_spec() -> bool {
        true
    }

    open spec fn eq_spec(&self, other: &usize) -> bool {
        self@ == *other
    }
}

impl PartialEq<i32> for R17 {
    fn eq(&self, other: &i32) -> (r: bool) {
        self.eq_i32(*other)
    }
}

impl PartialEqSpecImpl<i32> for R17 {
    open spec fn obeys_eq_spec() -> bool {
        true
    }

    open spec fn eq_spec(&self, other: &i32) -> bool {
        self@ == *other
    }
}

impl PartialEq<u8> for R18 {
    fn eq(&self, other: &u8) -> (r: bool) {
        self.eq_u8(*other)
    }
}

impl PartialEqSpecImpl<u8> for R18 {
    open spec fn obeys_eq_spec() -> bool {
        true
    }

    open spec fn eq_spec(&self, other: &u8) -> bool {
        self@ == *other
    }
}

impl PartialEq<u16> for R18 {
    fn eq(&self, other: &u16) -> (r: bool) {
        self.eq_u16(*other)
    }
}

impl PartialEqSpecImpl<u16> for R18 {
    open spec fn obeys_eq_spec() -> bool {
        true
    }

    open spec fn eq_spec(&self, other: &u16) -> bool {
        self@ == *other
    }
}

impl PartialEq<u32> for R18 {
    fn eq(&self, other: &u32) -> (r: bool) {
        self.eq_u32(*other)
    }
}

impl PartialEqSpecImpl<u32> for R18 {
    open spec fn obeys_eq_spec() -> bool {
        true
    }

    open spec fn eq_spec(&self, other: &u32) -> bool {
        self@ == *other
    }
}

impl PartialEq<usize> for R18 {
    fn eq(&self, other: &usize) -> (r: bool) {
        self.eq_usize(*other)
    }
}

impl PartialEqSpecImpl<usize> for R18 {
    open spec fn obeys_eq_spec() -> bool {
        true
    }

    open spec fn eq_spec(&self, other: &usize) -> bool {
        self@ == *other
    }
}

impl PartialEq<i32> for R18 {
    fn eq(&self, other: &i32) -> (r: bool) {
        self.eq_i32(*other)
    }
}

impl PartialEqSpecImpl<i32> for R18 {
    open spec fn obeys_eq_spec() -> bool {
        true
    }

    open spec fn eq_spec(&self, other: &i32) -> bool {
        self@ == *other
    }
}

impl PartialEq<u8> for R19 {
    fn eq(&self, other: &u8) -> (r: bool) {
        self.eq_u8(*other)
    }
}

impl PartialEqSpecImpl<u8> for R19 {
    open spec fn obeys_eq_spec() -> bool {
        true
    }

    open spec fn eq_spec(&self, other: &u8) -> bool {
        self@ == *other
    }
}

impl PartialEq<u16> for R19 {
    fn eq(&self, other: &u16) -> (r: bool) {
        self.eq_u16(*other)
    }
}

impl PartialEqSpecImpl<u16> for R19 {
    open spec fn obeys_eq_spec() -> bool {
        true
    }

    open spec fn eq_spec(&self, other: &u16) -> bool {
        self@ == *other
    }
}

impl PartialEq<u32> for R19 {
    fn eq(&self, other: &u32) -> (r: bool) {
        self.eq_u32(*other)
    }
}

impl PartialEqSpecImpl<u32> for R19 {
    open spec fn obeys_eq_spec() -> bool {
        true
    }

    open spec fn eq_spec(&self, other: &u32) -> bool {
        self@ == *other
    }
}

impl PartialEq<usize> for R19 {
    fn eq(&self, other: &usize) -> (r: bool) {
        self.eq_usize(*other)
    }
}

impl PartialEqSpecImpl<usize> for R19 {
    open spec fn obeys_eq_spec() -> bool {
        true
    }

    open spec fn eq_spec(&self, other: &usize) -> bool {
        self@ == *other
    }
}

impl PartialEq<i32> for R19 {
    fn eq(&self, other: &i32) -> (r: bool) {
        self.eq_i32(*other)
    }
}

impl PartialEqSpecImpl<i32> for R19 {
    open spec fn obeys_eq_spec() -> bool {
        true
    }

    open spec fn eq_spec(&self, other: &i32) -> bool {
        self@ == *other
    }
}

impl PartialEq<u8> for R20 {
    fn eq(&self, other: &u8) -> (r: bool) {
        self.eq_u8(*other)
    }
}

impl PartialEqSpecImpl<u8> for R20 {
    open spec fn obeys_eq_spec() -> bool {
        true
    }

    open spec fn eq_spec(&self, other: &u8) -> bool {
        self@ == *other
    }
}

impl PartialEq<u16> for R20 {
    fn eq(&self, other: &u16) -> (r: bool) {
        self.eq_u16(*other)
    }
}

impl PartialEqSpecImpl<u16> for R20 {
    open spec fn obeys_eq_spec() -> bool {
        true
    }

    open spec fn eq_spec(&self, other: &u16) -> bool {
        self@ == *other
    }
}

impl PartialEq<u32> for R20 {
    fn eq(&self, other: &u32) -> (r: bool) {
        self.eq_u32(*other)
    }
}

impl PartialEqSpecImpl<u32> for R20 {
    open spec fn obeys_eq_spec() -> bool {
        true
    }

    open spec fn eq_spec(&self, other: &u32) -> bool {
        self@ == *other
    }
}

impl PartialEq<usize> for R20 {
    fn eq(&self, other: &usize) -> (r: bool) {
        self.eq_usize(*other)
    }
}

impl PartialEqSpecImpl<usize> for R20 {
    open spec fn obeys_eq_spec() -> bool {
        true
    }

    open spec fn eq_spec(&self, other: &usize) -> bool {
        self@ == *other
    }
}

impl PartialEq<i32> for R20 {
    fn eq(&self, other: &i32) -> (r: bool) {
        self.eq_i32(*other)
    }
}

impl PartialEqSpecImpl<i32> for R20 {
    open spec fn obeys_eq_spec() -> bool {
        true
    }

    open spec fn eq_spec(&self, other: &i32) -> bool {
        self@ == *other
    }
}

impl PartialEq<u8> for R21 {
    fn eq(&self, other: &u8) -> (r: bool) {
        self.eq_u8(*other)
    }
}

impl PartialEqSpecImpl<u8> for R21 {
    open spec fn obeys_eq_spec() -> bool {
        true
    }

    open spec fn eq_spec(&self, other: &u8) -> bool {
        self@ == *other
    }
}

impl PartialEq<u16> for R21 {
    fn eq(&self, other: &u16) -> (r: bool) {
        self.eq_u16(*other)
    }
}

impl PartialEqSpecImpl<u16> for R21 {
    open spec fn obeys_eq_spec() -> bool {
        true
    }

    open spec fn eq_spec(&self, other: &u16) -> bool {
        self@ == *other
    }
}

impl PartialEq<u32> for R21 {
    fn eq(&self, other: &u32) -> (r: bool) {
        self.eq_u32(*other)
    }
}

impl PartialEqSpecImpl<u32> for R21 {
    open spec fn obeys_eq_spec() -> bool {
        true
    }

    open spec fn eq_spec(&self, other: &u32) -> bool {
        self@ == *other
    }
}

impl PartialEq<usize> for R21 {
    fn eq(&self, other: &usize) -> (r: bool) {
        self.eq_usize(*other)
    }
}

impl PartialEqSpecImpl<usize> for R21 {
    open spec fn obeys_eq_spec() -> bool {
        true
    }

    open spec fn eq_spec(&self, other: &usize) -> bool {
        self@ == *other
    }
}

impl PartialEq<i32> for R21 {
    fn eq(&self, other: &i32) -> (r: bool) {
        self.eq_i32(*other)
    }
}

impl PartialEqSpecImpl<i32> for R21 {
    open spec fn obeys_eq_spec() -> bool {
        true
    }

    open spec fn eq_spec(&self, other: &i32) -> bool {
        self@ == *other
    }
}

impl PartialEq<u8> for R22 {
    fn eq(&self, other: &u8) -> (r: bool) {
        self.eq_u8(*other)
    }
}

impl PartialEqSpecImpl<u8> for R22 {
    open spec fn obeys_eq_spec() -> bool {
        true
    }

    open spec fn eq_spec(&self, other: &u8) -> bool {
        self@ == *other
    }
}

impl PartialEq<u16> for R22 {
    fn eq(&self, other: &u16) -> (r: bool) {
        self.eq_u16(*other)
    }
}

impl PartialEqSpecImpl<u16> for R22 {
    open spec fn obeys_eq_spec() -> bool {
        true
    }

    open spec fn eq_spec(&self, other: &u16) -> bool {
        self@ == *other
    }
}

impl PartialEq<u32> for R22 {
    fn eq(&self, other: &u32) -> (r: bool) {
        self.eq_u32(*other)
    }
}

impl PartialEqSpecImpl<u32> for R22 {
    open spec fn obeys_eq_spec() -> bool {
        true
    }

    open spec fn eq_spec(&self, other: &u32) -> bool {
        self@ == *other
    }
}

impl PartialEq<usize> for R22 {
    fn eq(&self, other: &usize) -> (r: bool) {
        self.eq_usize(*other)
    }
}

impl PartialEqSpecImpl<usize> for R22 {
    open spec fn obeys_eq_spec() -> bool {
        true
    }

    open spec fn eq_spec(&self, other: &usize) -> bool {
        self@ == *other
    }
}

impl PartialEq<i32> for R22 {
    fn eq(&self, other: &i32) -> (r: bool) {
        self.eq_i32(*other)
    }
}

impl PartialEqSpecImpl<i32> for R22 {
    open spec fn obeys_eq_spec() -> bool {
        true
    }

    open spec fn eq_spec(&self, other: &i32) -> bool {
        self@ == *other
    }
}

impl PartialEq<u8> for R23 {
    fn eq(&self, other: &u8) -> (r: bool) {
        self.eq_u8(*other)
    }
}

impl PartialEqSpecImpl<u8> for R23 {
    open spec fn obeys_eq_spec() -> bool {
        true
    }

    open spec fn eq_spec(&self, other: &u8) -> bool {
        self@ == *other
    }
}

impl PartialEq<u16> for R23 {
    fn eq(&self, other: &u16) -> (r: bool) {
        self.eq_u16(*other)
    }
}

impl PartialEqSpecImpl<u16> for R23 {
    open spec fn obeys_eq_spec() -> bool {
        true
    }

    open spec fn eq_spec(&self, other: &u16) -> bool {
        self@ == *other
    }
}

impl PartialEq<u32> for R23 {
    fn eq(&self, other: &u32) -> (r: bool) {
        self.eq_u32(*other)
    }
}

impl PartialEqSpecImpl<u32> for R23 {
    open spec fn obeys_eq_spec() -> bool {
        true
    }

    open spec fn eq_spec(&self, other: &u32) -> bool {
        self@ == *other
    }
}

impl PartialEq<usize> for R23 {
    fn eq(&self, other: &usize) -> (r: bool) {
        self.eq_usize(*other)
    }
}

impl PartialEqSpecImpl<usize> for R23 {
    open spec fn obeys_eq_spec() -> bool {
        true
    }

    open spec fn eq_spec(&self, other: &usize) -> bool {
        self@ == *other
    }
}

impl PartialEq<i32> for R23 {
    fn eq(&self, other: &i32) -> (r: bool) {
        self.eq_i32(*other)
    }
}

impl PartialEqSpecImpl<i32> for R23 {
    open spec fn obeys_eq_spec() -> bool {
        true
    }

    open spec fn eq_spec(&self, other: &i32) -> bool {
        self@ == *other
    }
}

impl PartialEq<u8> for R24 {
    fn eq(&self, other: &u8) -> (r: bool) {
        self.eq_u8(*other)
    }
}

impl PartialEqSpecImpl<u8> for R24 {
    open spec fn obeys_eq_spec() -> bool {
        true
    }

    open spec fn eq_spec(&self, other: &u8) -> bool {
        self@ == *other
    }
}

impl PartialEq<u16> for R24 {
    fn eq(&self, other: &u16) -> (r: bool) {
        self.eq_u16(*other)
    }
}

impl PartialEqSpecImpl<u16> for R24 {
    open spec fn obeys_eq_spec() -> bool {
        true
    }

    open spec fn eq_spec(&self, other: &u16) -> bool {
        self@ == *other
    }
}

impl PartialEq<u32> for R24 {
    fn eq(&self, other: &u32) -> (r: bool) {
        self.eq_u32(*other)
    }
}

impl PartialEqSpecImpl<u32> for R24 {
    open spec fn obeys_eq_spec() -> bool {
        true
    }

    open spec fn eq_spec(&self, other: &u32) -> bool {
        self@ == *other
    }
}

impl PartialEq<usize> for R24 {
    fn eq(&self, other: &usize) -> (r: bool) {
        self.eq_usize(*other)
    }
}

impl PartialEqSpecImpl<usize> for R24 {
    open spec fn obeys_eq_spec() -> bool {
        true
    }

    open spec fn eq_spec(&self, other: &usize) -> bool {
        self@ == *other
    }
}

impl PartialEq<i32> for R24 {
    fn eq(&self, other: &i32) -> (r: bool) {
        self.eq_i32(*other)
    }
}

impl PartialEqSpecImpl<i32> for R24 {
    open spec fn obeys_eq_spec() -> bool {
        true
    }

    open spec fn eq_spec(&self, other: &i32) -> bool {
        self@ == *other
    }
}

impl PartialEq<u8> for R25 {
    fn eq(&self, other: &u8) -> (r: bool) {
        self.eq_u8(*other)
    }
}

impl PartialEqSpecImpl<u8> for R25 {
    open spec fn obeys_eq_spec() -> bool {
        true
    }

    open spec fn eq_spec(&self, other: &u8) -> bool {
        self@ == *other
    }
}

impl PartialEq<u16> for R25 {
    fn eq(&self, other: &u16) -> (r: bool) {
        self.eq_u16(*other)
    }
}

impl PartialEqSpecImpl<u16> for R25 {
    open spec fn obeys_eq_spec() -> bool {
        true
    }

    open spec fn eq_spec(&self, other: &u16) -> bool {
        self@ == *other
    }
}

impl PartialEq<u32> for R25 {
    fn eq(&self, other: &u32) -> (r: bool) {
        self.eq_u32(*other)
    }
}

impl PartialEqSpecImpl<u32> for R25 {
    open spec fn obeys_eq_spec() -> bool {
        true
    }

    open spec fn eq_spec(&self, other: &u32) -> bool {
        self@ == *other
    }
}

impl PartialEq<usize> for R25 {
    fn eq(&self, other: &usize) -> (r: bool) {
        self.eq_usize(*other)
    }
}

impl PartialEqSpecImpl<usize> for R25 {
    open spec fn obeys_eq_spec() -> bool {
        true
    }

    open spec fn eq_spec(&self, other: &usize) -> bool {
        self@ == *other
    }
}

impl PartialEq<i32> for R25 {
    fn eq(&self, other: &i32) -> (r: bool) {
        self.eq_i32(*other)
    }
}

impl PartialEqSpecImpl<i32> for R25 {
    open spec fn obeys_eq_spec() -> bool {
        true
    }

    open spec fn eq_spec(&self, other: &i32) -> bool {
        self@ == *other
    }
}

impl PartialEq<u8> for R26 {
    fn eq(&self, other: &u8) -> (r: bool) {
        self.eq_u8(*other)
    }
}

impl PartialEqSpecImpl<u8> for R26 {
    open spec fn obeys_eq_spec() -> bool {
        true
    }

    open spec fn eq_spec(&self, other: &u8) -> bool {
        self@ == *other
    }
}

impl PartialEq<u16> for R26 {
    fn eq(&self, other: &u16) -> (r: bool) {
        self.eq_u16(*other)
    }
}

impl PartialEqSpecImpl<u16> for R26 {
    open spec fn obeys_eq_spec() -> bool {
        true
    }

    open spec fn eq_spec(&self, other: &u16) -> bool {
        self@ == *other
    }
}

impl PartialEq<u32> for R26 {
    fn eq(&self, other: &u32) -> (r: bool) {
        self.eq_u32(*other)
    }
}

impl PartialEqSpecImpl<u32> for R26 {
    open spec fn obeys_eq_spec() -> bool {
        true
    }

    open spec fn eq_spec(&self, other: &u32) -> bool {
        self@ == *other
    }
}

impl PartialEq<usize> for R26 {
    fn eq(&self, other: &usize) -> (r: bool) {
        self.eq_usize(*other)
    }
}

impl PartialEqSpecImpl<usize> for R26 {
    open spec fn obeys_eq_spec() -> bool {
        true
    }

    open spec fn eq_spec(&self, other: &usize) -> bool {
        self@ == *other
    }
}

impl PartialEq<i32> for R26 {
    fn eq(&self, other: &i32) -> (r: bool) {
        self.eq_i32(*other)
    }
}

impl PartialEqSpecImpl<i32> for R26 {
    open spec fn obeys_eq_spec() -> bool {
        true
    }

    open spec fn eq_spec(&self, other: &i32) -> bool {
        self@ == *other
    }
}

impl PartialEq<u8> for R27 {
    fn eq(&self, other: &u8) -> (r: bool) {
        self.eq_u8(*other)
    }
}

impl PartialEqSpecImpl<u8> for R27 {
    open spec fn obeys_eq_spec() -> bool {
        true
    }

    open spec fn eq_spec(&self, other: &u8) -> bool {
        self@ == *other
    }
}

impl PartialEq<u16> for R27 {
    fn eq(&self, other: &u16) -> (r: bool) {
        self.eq_u16(*other)
    }
}

impl PartialEqSpecImpl<u16> for R27 {
    open spec fn obeys_eq_spec() -> bool {
        true
    }

    open spec fn eq_spec(&self, other: &u16) -> bool {
        self@ == *other
    }
}

impl PartialEq<u32> for R27 {
    fn eq(&self, other: &u32) -> (r: bool) {
        self.eq_u32(*other)
    }
}

impl PartialEqSpecImpl<u32> for R27 {
    open spec fn obeys_eq_spec() -> bool {
        true
    }

    open spec fn eq_spec(&self, other: &u32) -> bool {
        self@ == *other
    }
}

impl PartialEq<usize> for R27 {
    fn eq(&self, other: &usize) -> (r: bool) {
        self.eq_usize(*other)
    }
}

impl PartialEqSpecImpl<usize> for R27 {
    open spec fn obeys_eq_spec() -> bool {
        true
    }

    open spec fn eq_spec(&self, other: &usize) -> bool {
        self@ == *other
    }
}

impl PartialEq<i32> for R27 {
    fn eq(&self, other: &i32) -> (r: bool) {
        self.eq_i32(*other)
    }
}

impl PartialEqSpecImpl<i32> for R27 {
    open spec fn obeys_eq_spec() -> bool {
        true
    }

    open spec fn eq_spec(&self, other: &i32) -> bool {
        self@ == *other
    }
}

impl PartialEq<u8> for R28 {
    fn eq(&self, other: &u8) -> (r: bool) {
        self.eq_u8(*other)
    }
}

impl PartialEqSpecImpl<u8> for R28 {
    open spec fn obeys_eq_spec() -> bool {
        true
    }

    open spec fn eq_spec(&self, other: &u8) -> bool {
        self@ == *other
    }
}

impl PartialEq<u16> for R28 {
    fn eq(&self, other: &u16) -> (r: bool) {
        self.eq_u16(*other)
    }
}

impl PartialEqSpecImpl<u16> for R28 {
    open spec fn obeys_eq_spec() -> bool {
        true
    }

    open spec fn eq_spec(&self, other: &u16) -> bool {
        self@ == *other
    }
}

impl PartialEq<u32> for R28 {
    fn eq(&self, other: &u32) -> (r: bool) {
        self.eq_u32(*other)
    }
}

impl PartialEqSpecImpl<u32> for R28 {
    open spec fn obeys_eq_spec() -> bool {
        true
    }

    open spec fn eq_spec(&self, other: &u32) -> bool {
        self@ == *other
    }
}

impl PartialEq<usize> for R28 {
    fn eq(&self, other: &usize) -> (r: bool) {
        self.eq_usize(*other)
    }
}

impl PartialEqSpecImpl<usize> for R28 {
    open spec fn obeys_eq_spec() -> bool {
        true
    }

    open spec fn eq_spec(&self, other: &usize) -> bool {
        self@ == *other
    }
}

impl PartialEq<i32> for R28 {
    fn eq(&self, other: &i32) -> (r: bool) {
        self.eq_i32(*other)
    }
}

impl PartialEqSpecImpl<i32> for R28 {
    open spec fn obeys_eq_spec() -> bool {
        true
    }

    open spec fn eq_spec(&self, other: &i32) -> bool {
        self@ == *other
    }
}

impl PartialEq<u8> for R29 {
    fn eq(&self, other: &u8) -> (r: bool) {
        self.eq_u8(*other)
    }
}

impl PartialEqSpecImpl<u8> for R29 {
    open spec fn obeys_eq_spec() -> bool {
        true
    }

    open spec fn eq_spec(&self, other: &u8) -> bool {
        self@ == *other
    }
}

impl PartialEq<u16> for R29 {
    fn eq(&self, other: &u16) -> (r: bool) {
        self.eq_u16(*other)
    }
}

impl PartialEqSpecImpl<u16> for R29 {
    open spec fn obeys_eq_spec() -> bool {
        true
    }

    open spec fn eq_spec(&self, other: &u16) -> bool {
        self@ == *other
    }
}

impl PartialEq<u32> for R29 {
    fn eq(&self, other: &u32) -> (r: bool) {
        self.eq_u32(*other)
    }
}

impl PartialEqSpecImpl<u32> for R29 {
    open spec fn obeys_eq_spec() -> bool {
        true
    }

    open spec fn eq_spec(&self, other: &u32) -> bool {
        self@ == *other
    }
}

impl PartialEq<usize> for R29 {
    fn eq(&self, other: &usize) -> (r: bool) {
        self.eq_usize(*other)
    }
}

impl PartialEqSpecImpl<usize> for R29 {
    open spec fn obeys_eq_spec() -> bool {
        true
    }

    open spec fn eq_spec(&self, other: &usize) -> bool {
        self@ == *other
    }
}

impl PartialEq<i32> for R29 {
    fn eq(&self, other: &i32) -> (r: bool) {
        self.eq_i32(*other)
    }
}

impl PartialEqSpecImpl<i32> for R29 {
    open spec fn obeys_eq_spec() -> bool {
        true
    }

    open spec fn eq_spec(&self, other: &i32) -> bool {
        self@ == *other
    }
}

impl PartialEq<u8> for R30 {
    fn eq(&self, other: &u8) -> (r: bool) {
        self.eq_u8(*other)
    }
}

impl PartialEqSpecImpl<u8> for R30 {
    open spec fn obeys_eq_spec() -> bool {
        true
    }

    open spec fn eq_spec(&self, other: &u8) -> bool {
        self@ == *other
    }
}

impl PartialEq<u16> for R30 {
    fn eq(&self, other: &u16) -> (r: bool) {
        self.eq_u16(*other)
    }
}

impl PartialEqSpecImpl<u16> for R30 {
    open spec fn obeys_eq_spec() -> bool {
        true
    }

    open spec fn eq_spec(&self, other: &u16) -> bool {
        self@ == *other
    }
}

impl PartialEq<u32> for R30 {
    fn eq(&self, other: &u32) -> (r: bool) {
        self.eq_u32(*other)
    }
}

impl PartialEqSpecImpl<u32> for R30 {
    open spec fn obeys_eq_spec() -> bool {
        true
    }

    open spec fn eq_spec(&self, other: &u32) -> bool {
        self@ == *other
    }
}

impl PartialEq<usize> for R30 {
    fn eq(&self, other: &usize) -> (r: bool) {
        self.eq_usize(*other)
    }
}

impl PartialEqSpecImpl<usize> for R30 {
    open spec fn obeys_eq_spec() -> bool {
        true
    }

    open spec fn eq_spec(&self, other: &usize) -> bool {
        self@ == *other
    }
}

impl PartialEq<i32> for R30 {
    fn eq(&self, other: &i32) -> (r: bool) {
        self.eq_i32(*other)
    }
}

impl PartialEqSpecImpl<i32> for R30 {
    open spec fn obeys_eq_spec() -> bool {
        true
    }

    open spec fn eq_spec(&self, other: &i32) -> bool {
        self@ == *other
    }
}

impl PartialEq<u8> for R31 {
    fn eq(&self, other: &u8) -> (r: bool) {
        self.eq_u8(*other)
    }
}

impl PartialEqSpecImpl<u8> for R31 {
    open spec fn obeys_eq_spec() -> bool {
        true
    }

    open spec fn eq_spec(&self, other: &u8) -> bool {
        self@ == *other
    }
}

impl PartialEq<u16> for R31 {
    fn eq(&self, other: &u16) -> (r: bool) {
        self.eq_u16(*other)
    }
}

impl PartialEqSpecImpl<u16> for R31 {
    open spec fn obeys_eq_spec() -> bool {
        true
    }

    open spec fn eq_spec(&self, other: &u16) -> bool {
        self@ == *other
    }
}

impl PartialEq<u32> for R31 {
    fn eq(&self, other: &u32) -> (r: bool) {
        self.eq_u32(*other)
    }
}

impl PartialEqSpecImpl<u32> for R31 {
    open spec fn obeys_eq_spec() -> bool {
        true
    }

    open spec fn eq_spec(&self, other: &u32) -> bool {
        self@ == *other
    }
}

impl PartialEq<usize> for R31 {
    fn eq(&self, other: &usize) -> (r: bool) {
        self.eq_usize(*other)
    }
}

impl PartialEqSpecImpl<usize> for R31 {
    open spec fn obeys_eq_spec() -> bool {
        true
    }

    open spec fn eq_spec(&self, other: &usize) -> bool {
        self@ == *other
    }
}

impl PartialEq<i32> for R31 {
    fn eq(&self, other: &i32) -> (r: bool) {
        self.eq_i32(*other)
    }
}

impl PartialEqSpecImpl<i32> for R31 {
    open spec fn obeys_eq_spec() -> bool {
        true
    }

    open spec fn eq_spec(&self, other: &i32) -> bool {
        self@ == *other
    }
}

impl PartialEq<u8> for R32 {
    fn eq(&self, other: &u8) -> (r: bool) {
        self.eq_u8(*other)
    }
}

impl PartialEqSpecImpl<u8> for R32 {
    open spec fn obeys_eq_spec() -> bool {
        true
    }

    open spec fn eq_spec(&self, other: &u8) -> bool {
        self@ == *other
    }
}

impl PartialEq<u16> for R32 {
    fn eq(&self, other: &u16) -> (r: bool) {
        self.eq_u16(*other)
    }
}

impl PartialEqSpecImpl<u16> for R32 {
    open spec fn obeys_eq_spec() -> bool {
        true
    }

    open spec fn eq_spec(&self, other: &u16) -> bool {
        self@ == *other
    }
}

impl PartialEq<u32> for R32 {
    fn eq(&self, other: &u32) -> (r: bool) {
        self.eq_u32(*other)
    }
}

impl PartialEqSpecImpl<u32> for R32 {
    open spec fn obeys_eq_spec() -> bool {
        true
    }

    open spec fn eq_spec(&self, other: &u32) -> bool {
        self@ == *other
    }
}

impl PartialEq<usize> for R32 {
    fn eq(&self, other: &usize) -> (r: bool) {
        self.eq_usize(*other)
    }
}

impl PartialEqSpecImpl<usize> for R32 {
    open spec fn obeys_eq_spec() -> bool {
        true
    }

    open spec fn eq_spec(&self, other: &usize) -> bool {
        self@ == *other
    }
}

impl PartialEq<i32> for R32 {
    fn eq(&self, other: &i32) -> (r: bool) {
        self.eq_i32(*other)
    }
}

impl PartialEqSpecImpl<i32> for R32 {
    open spec fn obeys_eq_spec() -> bool {
        true
    }

    open spec fn eq_spec(&self, other: &i32) -> bool {
        self@ == *other
    }
}

} // verus!
