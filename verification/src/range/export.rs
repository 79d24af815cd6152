//! From an index to a native integer, through `From`: every native type
//! holds every index, so no conversion can fail.

use crate::range::large::{
    R17, R18, R19, R20, R21, R22, R23, R24, R25, R26, R27, R28, R29, R30, R31, R32,
};
use crate::range::small::{R1, R10, R11, R12, R13, R14, R15, R16, R2, R3, R4, R5, R6, R7, R8, R9};
use crate::range::RangeIndex;
use vstd::prelude::*;
use vstd::std_specs::convert::FromSpecImpl;

verus! {

impl From<R1> for u8 {
    fn from(other: R1) -> (r: u8) {
        other.into_u8()
    }
}

impl FromSpecImpl<R1> for u8 {
    open spec fn obeys_from_spec() -> bool {
        true
    }

    open spec fn from_spec(other: R1) -> u8 {
        other@ as u8
    }
}

impl From<R1> for u16 {
    fn from(other: R1) -> (r: u16) {
        other.into_u16()
    }
}

impl FromSpecImpl<R1> for u16 {
    open spec fn obeys_from_spec() -> bool {
        true
    }

    open spec fn from_spec(other: R1) -> u16 {
        other@ as u16
    }
}

impl From<R1> for u32 {
    fn from(other: R1) -> (r: u32) {
        other.into_u32()
    }
}

impl FromSpecImpl<R1> for u32 {
    open spec fn obeys_from_spec() -> bool {
        true
    }

    open spec fn from_spec(other: R1) -> u32 {
        other@ as u32
    }
}

impl From<R1> for usize {
    fn from(other: R1) -> (r: usize) {
        other.into_usize()
    }
}

impl FromSpecImpl<R1> for usize {
    open spec fn obeys_from_spec() -> bool {
        true
    }

    open spec fn from_spec(other: R1) -> usize {
        other@ as usize
    }
}

impl From<R1> for i32 {
    fn from(other: R1) -> (r: i32) {
        other.into_i32()
    }
}

impl FromSpecImpl<R1> for i32 {
    open spec fn obeys_from_spec() -> bool {
        true
    }

    open spec fn from_spec(other: R1) -> i32 {
        other@ as i32
    }
}

impl From<R2> for u8 {
    fn from(other: R2) -> (r: u8) {
        other.into_u8()
    }
}

impl FromSpecImpl<R2> for u8 {
    open spec fn obeys_from_spec() -> bool {
        true
    }

    open spec fn from_spec(other: R2) -> u8 {
        other@ as u8
    }
}

impl From<R2> for u16 {
    fn from(other: R2) -> (r: u16) {
        other.into_u16()
    }
}

impl FromSpecImpl<R2> for u16 {
    open spec fn obeys_from_spec() -> bool {
        true
    }

    open spec fn from_spec(other: R2) -> u16 {
        other@ as u16
    }
}

impl From<R2> for u32 {
    fn from(other: R2) -> (r: u32) {
        other.into_u32()
    }
}

impl FromSpecImpl<R2> for u32 {
    open spec fn obeys_from_spec() -> bool {
        true
    }

    open spec fn from_spec(other: R2) -> u32 {
        other@ as u32
    }
}

impl From<R2> for usize {
    fn from(other: R2) -> (r: usize) {
        other.into_usize()
    }
}

impl FromSpecImpl<R2> for usize {
    open spec fn obeys_from_spec() -> bool {
        true
    }

    open spec fn from_spec(other: R2) -> usize {
        other@ as usize
    }
}

impl From<R2> for i32 {
    fn from(other: R2) -> (r: i32) {
        other.into_i32()
    }
}

impl FromSpecImpl<R2> for i32 {
    open spec fn obeys_from_spec() -> bool {
        true
    }

    open spec fn from_spec(other: R2) -> i32 {
        other@ as i32
    }
}

impl From<R3> for u8 {
    fn from(other: R3) -> (r: u8) {
        other.into_u8()
    }
}

impl FromSpecImpl<R3> for u8 {
    open spec fn obeys_from_spec() -> bool {
        true
    }

    open spec fn from_spec(other: R3) -> u8 {
        other@ as u8
    }
}

impl From<R3> for u16 {
    fn from(other: R3) -> (r: u16) {
        other.into_u16()
    }
}

impl FromSpecImpl<R3> for u16 {
    open spec fn obeys_from_spec() -> bool {
        true
    }

    open spec fn from_spec(other: R3) -> u16 {
        other@ as u16
    }
}

impl From<R3> for u32 {
    fn from(other: R3) -> (r: u32) {
        other.into_u32()
    }
}

impl FromSpecImpl<R3> for u32 {
    open spec fn obeys_from_spec() -> bool {
        true
    }

    open spec fn from_spec(other: R3) -> u32 {
        other@ as u32
    }
}

impl From<R3> for usize {
    fn from(other: R3) -> (r: usize) {
        other.into_usize()
    }
}

impl FromSpecImpl<R3> for usize {
    open spec fn obeys_from_spec() -> bool {
        true
    }

    open spec fn from_spec(other: R3) -> usize {
        other@ as usize
    }
}

impl From<R3> for i32 {
    fn from(other: R3) -> (r: i32) {
        other.into_i32()
    }
}

impl FromSpecImpl<R3> for i32 {
    open spec fn obeys_from_spec() -> bool {
        true
    }

    open spec fn from_spec(other: R3) -> i32 {
        other@ as i32
    }
}

impl From<R4> for u8 {
    fn from(other: R4) -> (r: u8) {
        other.into_u8()
    }
}

impl FromSpecImpl<R4> for u8 {
    open spec fn obeys_from_spec() -> bool {
        true
    }

    open spec fn from_spec(other: R4) -> u8 {
        other@ as u8
    }
}

impl From<R4> for u16 {
    fn from(other: R4) -> (r: u16) {
        other.into_u16()
    }
}

impl FromSpecImpl<R4> for u16 {
    open spec fn obeys_from_spec() -> bool {
        true
    }

    open spec fn from_spec(other: R4) -> u16 {
        other@ as u16
    }
}

impl From<R4> for u32 {
    fn from(other: R4) -> (r: u32) {
        other.into_u32()
    }
}

impl FromSpecImpl<R4> for u32 {
    open spec fn obeys_from_spec() -> bool {
        true
    }

    open spec fn from_spec(other: R4) -> u32 {
        other@ as u32
    }
}

impl From<R4> for usize {
    fn from(other: R4) -> (r: usize) {
        other.into_usize()
    }
}

impl FromSpecImpl<R4> for usize {
    open spec fn obeys_from_spec() -> bool {
        true
    }

    open spec fn from_spec(other: R4) -> usize {
        other@ as usize
    }
}

impl From<R4> for i32 {
    fn from(other: R4) -> (r: i32) {
        other.into_i32()
    }
}

impl FromSpecImpl<R4> for i32 {
    open spec fn obeys_from_spec() -> bool {
        true
    }

    open spec fn from_spec(other: R4) -> i32 {
        other@ as i32
    }
}

impl From<R5> for u8 {
    fn from(other: R5) -> (r: u8) {
        other.into_u8()
    }
}

impl FromSpecImpl<R5> for u8 {
    open spec fn obeys_from_spec() -> bool {
        true
    }

    open spec fn from_spec(other: R5) -> u8 {
        other@ as u8
    }
}

impl From<R5> for u16 {
    fn from(other: R5) -> (r: u16) {
        other.into_u16()
    }
}

impl FromSpecImpl<R5> for u16 {
    open spec fn obeys_from_spec() -> bool {
        true
    }

    open spec fn from_spec(other: R5) -> u16 {
        other@ as u16
    }
}

impl From<R5> for u32 {
    fn from(other: R5) -> (r: u32) {
        other.into_u32()
    }
}

impl FromSpecImpl<R5> for u32 {
    open spec fn obeys_from_spec() -> bool {
        true
    }

    open spec fn from_spec(other: R5) -> u32 {
        other@ as u32
    }
}

impl From<R5> for usize {
    fn from(other: R5) -> (r: usize) {
        other.into_usize()
    }
}

impl FromSpecImpl<R5> for usize {
    open spec fn obeys_from_spec() -> bool {
        true
    }

    open spec fn from_spec(other: R5) -> usize {
        other@ as usize
    }
}

impl From<R5> for i32 {
    fn from(other: R5) -> (r: i32) {
        other.into_i32()
    }
}

impl FromSpecImpl<R5> for i32 {
    open spec fn obeys_from_spec() -> bool {
        true
    }

    open spec fn from_spec(other: R5) -> i32 {
        other@ as i32
    }
}

impl From<R6> for u8 {
    fn from(other: R6) -> (r: u8) {
        other.into_u8()
    }
}

impl FromSpecImpl<R6> for u8 {
    open spec fn obeys_from_spec() -> bool {
        true
    }

    open spec fn from_spec(other: R6) -> u8 {
        other@ as u8
    }
}

impl From<R6> for u16 {
    fn from(other: R6) -> (r: u16) {
        other.into_u16()
    }
}

impl FromSpecImpl<R6> for u16 {
    open spec fn obeys_from_spec() -> bool {
        true
    }

    open spec fn from_spec(other: R6) -> u16 {
        other@ as u16
    }
}

impl From<R6> for u32 {
    fn from(other: R6) -> (r: u32) {
        other.into_u32()
    }
}

impl FromSpecImpl<R6> for u32 {
    open spec fn obeys_from_spec() -> bool {
        true
    }

    open spec fn from_spec(other: R6) -> u32 {
        other@ as u32
    }
}

impl From<R6> for usize {
    fn from(other: R6) -> (r: usize) {
        other.into_usize()
    }
}

impl FromSpecImpl<R6> for usize {
    open spec fn obeys_from_spec() -> bool {
        true
    }

    open spec fn from_spec(other: R6) -> usize {
        other@ as usize
    }
}

impl From<R6> for i32 {
    fn from(other: R6) -> (r: i32) {
        other.into_i32()
    }
}

impl FromSpecImpl<R6> for i32 {
    open spec fn obeys_from_spec() -> bool {
        true
    }

    open spec fn from_spec(other: R6) -> i32 {
        other@ as i32
    }
}

impl From<R7> for u8 {
    fn from(other: R7) -> (r: u8) {
        other.into_u8()
    }
}

impl FromSpecImpl<R7> for u8 {
    open spec fn obeys_from_spec() -> bool {
        true
    }

    open spec fn from_spec(other: R7) -> u8 {
        other@ as u8
    }
}

impl From<R7> for u16 {
    fn from(other: R7) -> (r: u16) {
        other.into_u16()
    }
}

impl FromSpecImpl<R7> for u16 {
    open spec fn obeys_from_spec() -> bool {
        true
    }

    open spec fn from_spec(other: R7) -> u16 {
        other@ as u16
    }
}

impl From<R7> for u32 {
    fn from(other: R7) -> (r: u32) {
        other.into_u32()
    }
}

impl FromSpecImpl<R7> for u32 {
    open spec fn obeys_from_spec() -> bool {
        true
    }

    open spec fn from_spec(other: R7) -> u32 {
        other@ as u32
    }
}

impl From<R7> for usize {
    fn from(other: R7) -> (r: usize) {
        other.into_usize()
    }
}

impl FromSpecImpl<R7> for usize {
    open spec fn obeys_from_spec() -> bool {
        true
    }

    open spec fn from_spec(other: R7) -> usize {
        other@ as usize
    }
}

impl From<R7> for i32 {
    fn from(other: R7) -> (r: i32) {
        other.into_i32()
    }
}

impl FromSpecImpl<R7> for i32 {
    open spec fn obeys_from_spec() -> bool {
        true
    }

    open spec fn from_spec(other: R7) -> i32 {
        other@ as i32
    }
}

impl From<R8> for u8 {
    fn from(other: R8) -> (r: u8) {
        other.into_u8()
    }
}

impl FromSpecImpl<R8> for u8 {
    open spec fn obeys_from_spec() -> bool {
        true
    }

    open spec fn from_spec(other: R8) -> u8 {
        other@ as u8
    }
}

impl From<R8> for u16 {
    fn from(other: R8) -> (r: u16) {
        other.into_u16()
    }
}

impl FromSpecImpl<R8> for u16 {
    open spec fn obeys_from_spec() -> bool {
        true
    }

    open spec fn from_spec(other: R8) -> u16 {
        other@ as u16
    }
}

impl From<R8> for u32 {
    fn from(other: R8) -> (r: u32) {
        other.into_u32()
    }
}

impl FromSpecImpl<R8> for u32 {
    open spec fn obeys_from_spec() -> bool {
        true
    }

    open spec fn from_spec(other: R8) -> u32 {
        other@ as u32
    }
}

impl From<R8> for usize {
    fn from(other: R8) -> (r: usize) {
        other.into_usize()
    }
}

impl FromSpecImpl<R8> for usize {
    open spec fn obeys_from_spec() -> bool {
        true
    }

    open spec fn from_spec(other: R8) -> usize {
        other@ as usize
    }
}

impl From<R8> for i32 {
    fn from(other: R8) -> (r: i32) {
        other.into_i32()
    }
}

impl FromSpecImpl<R8> for i32 {
    open spec fn obeys_from_spec() -> bool {
        true
    }

    open spec fn from_spec(other: R8) -> i32 {
        other@ as i32
    }
}

impl From<R9> for u8 {
    fn from(other: R9) -> (r: u8) {
        other.into_u8()
    }
}

impl FromSpecImpl<R9> for u8 {
    open spec fn obeys_from_spec() -> bool {
        true
    }

    open spec fn from_spec(other: R9) -> u8 {
        other@ as u8
    }
}

impl From<R9> for u16 {
    fn from(other: R9) -> (r: u16) {
        other.into_u16()
    }
}

impl FromSpecImpl<R9> for u16 {
    open spec fn obeys_from_spec() -> bool {
        true
    }

    open spec fn from_spec(other: R9) -> u16 {
        other@ as u16
    }
}

impl From<R9> for u32 {
    fn from(other: R9) -> (r: u32) {
        other.into_u32()
    }
}

impl FromSpecImpl<R9> for u32 {
    open spec fn obeys_from_spec() -> bool {
        true
    }

    open spec fn from_spec(other: R9) -> u32 {
        other@ as u32
    }
}

impl From<R9> for usize {
    fn from(other: R9) -> (r: usize) {
        other.into_usize()
    }
}

impl FromSpecImpl<R9> for usize {
    open spec fn obeys_from_spec() -> bool {
        true
    }

    open spec fn from_spec(other: R9) -> usize {
        other@ as usize
    }
}

impl From<R9> for i32 {
    fn from(other: R9) -> (r: i32) {
        other.into_i32()
    }
}

impl FromSpecImpl<R9> for i32 {
    open spec fn obeys_from_spec() -> bool {
        true
    }

    open spec fn from_spec(other: R9) -> i32 {
        other@ as i32
    }
}

impl From<R10> for u8 {
    fn from(other: R10) -> (r: u8) {
        other.into_u8()
    }
}

impl FromSpecImpl<R10> for u8 {
    open spec fn obeys_from_spec() -> bool {
        true
    }

    open spec fn from_spec(other: R10) -> u8 {
        other@ as u8
    }
}

impl From<R10> for u16 {
    fn from(other: R10) -> (r: u16) {
        other.into_u16()
    }
}

impl FromSpecImpl<R10> for u16 {
    open spec fn obeys_from_spec() -> bool {
        true
    }

    open spec fn from_spec(other: R10) -> u16 {
        other@ as u16
    }
}

impl From<R10> for u32 {
    fn from(other: R10) -> (r: u32) {
        other.into_u32()
    }
}

impl FromSpecImpl<R10> for u32 {
    open spec fn obeys_from_spec() -> bool {
        true
    }

    open spec fn from_spec(other: R10) -> u32 {
        other@ as u32
    }
}

impl From<R10> for usize {
    fn from(other: R10) -> (r: usize) {
        other.into_usize()
    }
}

impl FromSpecImpl<R10> for usize {
    open spec fn obeys_from_spec() -> bool {
        true
    }

    open spec fn from_spec(other: R10) -> usize {
        other@ as usize
    }
}

impl From<R10> for i32 {
    fn from(other: R10) -> (r: i32) {
        other.into_i32()
    }
}

impl FromSpecImpl<R10> for i32 {
    open spec fn obeys_from_spec() -> bool {
        true
    }

    open spec fn from_spec(other: R10) -> i32 {
        other@ as i32
    }
}

impl From<R11> for u8 {
    fn from(other: R11) -> (r: u8) {
        other.into_u8()
    }
}

impl FromSpecImpl<R11> for u8 {
    open spec fn obeys_from_spec() -> bool {
        true
    }

    open spec fn from_spec(other: R11) -> u8 {
        other@ as u8
    }
}

impl From<R11> for u16 {
    fn from(other: R11) -> (r: u16) {
        other.into_u16()
    }
}

impl FromSpecImpl<R11> for u16 {
    open spec fn obeys_from_spec() -> bool {
        true
    }

    open spec fn from_spec(other: R11) -> u16 {
        other@ as u16
    }
}

impl From<R11> for u32 {
    fn from(other: R11) -> (r: u32) {
        other.into_u32()
    }
}

impl FromSpecImpl<R11> for u32 {
    open spec fn obeys_from_spec() -> bool {
        true
    }

    open spec fn from_spec(other: R11) -> u32 {
        other@ as u32
    }
}

impl From<R11> for usize {
    fn from(other: R11) -> (r: usize) {
        other.into_usize()
    }
}

impl FromSpecImpl<R11> for usize {
    open spec fn obeys_from_spec() -> bool {
        true
    }

    open spec fn from_spec(other: R11) -> usize {
        other@ as usize
    }
}

impl From<R11> for i32 {
    fn from(other: R11) -> (r: i32) {
        other.into_i32()
    }
}

impl FromSpecImpl<R11> for i32 {
    open spec fn obeys_from_spec() -> bool {
        true
    }

    open spec fn from_spec(other: R11) -> i32 {
        other@ as i32
    }
}

impl From<R12> for u8 {
    fn from(other: R12) -> (r: u8) {
        other.into_u8()
    }
}

impl FromSpecImpl<R12> for u8 {
    open spec fn obeys_from_spec() -> bool {
        true
    }

    open spec fn from_spec(other: R12) -> u8 {
        other@ as u8
    }
}

impl From<R12> for u16 {
    fn from(other: R12) -> (r: u16) {
        other.into_u16()
    }
}

impl FromSpecImpl<R12> for u16 {
    open spec fn obeys_from_spec() -> bool {
        true
    }

    open spec fn from_spec(other: R12) -> u16 {
        other@ as u16
    }
}

impl From<R12> for u32 {
    fn from(other: R12) -> (r: u32) {
        other.into_u32()
    }
}

impl FromSpecImpl<R12> for u32 {
    open spec fn obeys_from_spec() -> bool {
        true
    }

    open spec fn from_spec(other: R12) -> u32 {
        other@ as u32
    }
}

impl From<R12> for usize {
    fn from(other: R12) -> (r: usize) {
        other.into_usize()
    }
}

impl FromSpecImpl<R12> for usize {
    open spec fn obeys_from_spec() -> bool {
        true
    }

    open spec fn from_spec(other: R12) -> usize {
        other@ as usize
    }
}

impl From<R12> for i32 {
    fn from(other: R12) -> (r: i32) {
        other.into_i32()
    }
}

impl FromSpecImpl<R12> for i32 {
    open spec fn obeys_from_spec() -> bool {
        true
    }

    open spec fn from_spec(other: R12) -> i32 {
        other@ as i32
    }
}

impl From<R13> for u8 {
    fn from(other: R13) -> (r: u8) {
        other.into_u8()
    }
}

impl FromSpecImpl<R13> for u8 {
    open spec fn obeys_from_spec() -> bool {
        true
    }

    open spec fn from_spec(other: R13) -> u8 {
        other@ as u8
    }
}

impl From<R13> for u16 {
    fn from(other: R13) -> (r: u16) {
        other.into_u16()
    }
}

impl FromSpecImpl<R13> for u16 {
    open spec fn obeys_from_spec() -> bool {
        true
    }

    open spec fn from_spec(other: R13) -> u16 {
        other@ as u16
    }
}

impl From<R13> for u32 {
    fn from(other: R13) -> (r: u32) {
        other.into_u32()
    }
}

impl FromSpecImpl<R13> for u32 {
    open spec fn obeys_from_spec() -> bool {
        true
    }

    open spec fn from_spec(other: R13) -> u32 {
        other@ as u32
    }
}

impl From<R13> for usize {
    fn from(other: R13) -> (r: usize) {
        other.into_usize()
    }
}

impl FromSpecImpl<R13> for usize {
    open spec fn obeys_from_spec() -> bool {
        true
    }

    open spec fn from_spec(other: R13) -> usize {
        other@ as usize
    }
}

impl From<R13> for i32 {
    fn from(other: R13) -> (r: i32) {
        other.into_i32()
    }
}

impl FromSpecImpl<R13> for i32 {
    open spec fn obeys_from_spec() -> bool {
        true
    }

    open spec fn from_spec(other: R13) -> i32 {
        other@ as i32
    }
}

impl From<R14> for u8 {
    fn from(other: R14) -> (r: u8) {
        other.into_u8()
    }
}

impl FromSpecImpl<R14> for u8 {
    open spec fn obeys_from_spec() -> bool {
        true
    }

    open spec fn from_spec(other: R14) -> u8 {
        other@ as u8
    }
}

impl From<R14> for u16 {
    fn from(other: R14) -> (r: u16) {
        other.into_u16()
    }
}

impl FromSpecImpl<R14> for u16 {
    open spec fn obeys_from_spec() -> bool {
        true
    }

    open spec fn from_spec(other: R14) -> u16 {
        other@ as u16
    }
}

impl From<R14> for u32 {
    fn from(other: R14) -> (r: u32) {
        other.into_u32()
    }
}

impl FromSpecImpl<R14> for u32 {
    open spec fn obeys_from_spec() -> bool {
        true
    }

    open spec fn from_spec(other: R14) -> u32 {
        other@ as u32
    }
}

impl From<R14> for usize {
    fn from(other: R14) -> (r: usize) {
        other.into_usize()
    }
}

impl FromSpecImpl<R14> for usize {
    open spec fn obeys_from_spec() -> bool {
        true
    }

    open spec fn from_spec(other: R14) -> usize {
        other@ as usize
    }
}

impl From<R14> for i32 {
    fn from(other: R14) -> (r: i32) {
        other.into_i32()
    }
}

impl FromSpecImpl<R14> for i32 {
    open spec fn obeys_from_spec() -> bool {
        true
    }

    open spec fn from_spec(other: R14) -> i32 {
        other@ as i32
    }
}

impl From<R15> for u8 {
    fn from(other: R15) -> (r: u8) {
        other.into_u8()
    }
}

impl FromSpecImpl<R15> for u8 {
    open spec fn obeys_from_spec() -> bool {
        true
    }

    open spec fn from_spec(other: R15) -> u8 {
        other@ as u8
    }
}

impl From<R15> for u16 {
    fn from(other: R15) -> (r: u16) {
        other.into_u16()
    }
}

impl FromSpecImpl<R15> for u16 {
    open spec fn obeys_from_spec() -> bool {
        true
    }

    open spec fn from_spec(other: R15) -> u16 {
        other@ as u16
    }
}

impl From<R15> for u32 {
    fn from(other: R15) -> (r: u32) {
        other.into_u32()
    }
}

impl FromSpecImpl<R15> for u32 {
    open spec fn obeys_from_spec() -> bool {
        true
    }

    open spec fn from_spec(other: R15) -> u32 {
        other@ as u32
    }
}

impl From<R15> for usize {
    fn from(other: R15) -> (r: usize) {
        other.into_usize()
    }
}

impl FromSpecImpl<R15> for usize {
    open spec fn obeys_from_spec() -> bool {
        true
    }

    open spec fn from_spec(other: R15) -> usize {
        other@ as usize
    }
}

impl From<R15> for i32 {
    fn from(other: R15) -> (r: i32) {
        other.into_i32()
    }
}

impl FromSpecImpl<R15> for i32 {
    open spec fn obeys_from_spec() -> bool {
        true
    }

    open spec fn from_spec(other: R15) -> i32 {
        other@ as i32
    }
}

impl From<R16> for u8 {
    fn from(other: R16) -> (r: u8) {
        other.into_u8()
    }
}

impl FromSpecImpl<R16> for u8 {
    open spec fn obeys_from_spec() -> bool {
        true
    }

    open spec fn from_spec(other: R16) -> u8 {
        other@ as u8
    }
}

impl From<R16> for u16 {
    fn from(other: R16) -> (r: u16) {
        other.into_u16()
    }
}

impl FromSpecImpl<R16> for u16 {
    open spec fn obeys_from_spec() -> bool {
        true
    }

    open spec fn from_spec(other: R16) -> u16 {
        other@ as u16
    }
}

impl From<R16> for u32 {
    fn from(other: R16) -> (r: u32) {
        other.into_u32()
    }
}

impl FromSpecImpl<R16> for u32 {
    open spec fn obeys_from_spec() -> bool {
        true
    }

    open spec fn from_spec(other: R16) -> u32 {
        other@ as u32
    }
}

impl From<R16> for usize {
    fn from(other: R16) -> (r: usize) {
        other.into_usize()
    }
}

impl FromSpecImpl<R16> for usize {
    open spec fn obeys_from_spec() -> bool {
        true
    }

    open spec fn from_spec(other: R16) -> usize {
        other@ as usize
    }
}

impl From<R16> for i32 {
    fn from(other: R16) -> (r: i32) {
        other.into_i32()
    }
}

impl FromSpecImpl<R16> for i32 {
    open spec fn obeys_from_spec() -> bool {
        true
    }

    open spec fn from_spec(other: R16) -> i32 {
        other@ as i32
    }
}

impl From<R17> for u8 {
    fn from(other: R17) -> (r: u8) {
        other.into_u8()
    }
}

impl FromSpecImpl<R17> for u8 {
    open spec fn obeys_from_spec() -> bool {
        true
    }

    open spec fn from_spec(other: R17) -> u8 {
        other@ as u8
    }
}

impl From<R17> for u16 {
    fn from(other: R17) -> (r: u16) {
        other.into_u16()
    }
}

impl FromSpecImpl<R17> for u16 {
    open spec fn obeys_from_spec() -> bool {
        true
    }

    open spec fn from_spec(other: R17) -> u16 {
        other@ as u16
    }
}

impl From<R17> for u32 {
    fn from(other: R17) -> (r: u32) {
        other.into_u32()
    }
}

impl FromSpecImpl<R17> for u32 {
    open spec fn obeys_from_spec() -> bool {
        true
    }

    open spec fn from_spec(other: R17) -> u32 {
        other@ as u32
    }
}

impl From<R17> for usize {
    fn from(other: R17) -> (r: usize) {
        other.into_usize()
    }
}

impl FromSpecImpl<R17> for usize {
    open spec fn obeys_from_spec() -> bool {
        true
    }

    open spec fn from_spec(other: R17) -> usize {
        other@ as usize
    }
}

impl From<R17> for i32 {
    fn from(other: R17) -> (r: i32) {
        other.into_i32()
    }
}

impl FromSpecImpl<R17> for i32 {
    open spec fn obeys_from_spec() -> bool {
        true
    }

    open spec fn from_spec(other: R17) -> i32 {
        other@ as i32
    }
}

impl From<R18> for u8 {
    fn from(other: R18) -> (r: u8) {
        other.into_u8()
    }
}

impl FromSpecImpl<R18> for u8 {
    open spec fn obeys_from_spec() -> bool {
        true
    }

    open spec fn from_spec(other: R18) -> u8 {
        other@ as u8
    }
}

impl From<R18> for u16 {
    fn from(other: R18) -> (r: u16) {
        other.into_u16()
    }
}

impl FromSpecImpl<R18> for u16 {
    open spec fn obeys_from_spec() -> bool {
        true
    }

    open spec fn from_spec(other: R18) -> u16 {
        other@ as u16
    }
}

impl From<R18> for u32 {
    fn from(other: R18) -> (r: u32) {
        other.into_u32()
    }
}

impl FromSpecImpl<R18> for u32 {
    open spec fn obeys_from_spec() -> bool {
        true
    }

    open spec fn from_spec(other: R18) -> u32 {
        other@ as u32
    }
}

impl From<R18> for usize {
    fn from(other: R18) -> (r: usize) {
        other.into_usize()
    }
}

impl FromSpecImpl<R18> for usize {
    open spec fn obeys_from_spec() -> bool {
        true
    }

    open spec fn from_spec(other: R18) -> usize {
        other@ as usize
    }
}

impl From<R18> for i32 {
    fn from(other: R18) -> (r: i32) {
        other.into_i32()
    }
}

impl FromSpecImpl<R18> for i32 {
    open spec fn obeys_from_spec() -> bool {
        true
    }

    open spec fn from_spec(other: R18) -> i32 {
        other@ as i32
    }
}

impl From<R19> for u8 {
    fn from(other: R19) -> (r: u8) {
        other.into_u8()
    }
}

impl FromSpecImpl<R19> for u8 {
    open spec fn obeys_from_spec() -> bool {
        true
    }

    open spec fn from_spec(other: R19) -> u8 {
        other@ as u8
    }
}

impl From<R19> for u16 {
    fn from(other: R19) -> (r: u16) {
        other.into_u16()
    }
}

impl FromSpecImpl<R19> for u16 {
    open spec fn obeys_from_spec() -> bool {
        true
    }

    open spec fn from_spec(other: R19) -> u16 {
        other@ as u16
    }
}

impl From<R19> for u32 {
    fn from(other: R19) -> (r: u32) {
        other.into_u32()
    }
}

impl FromSpecImpl<R19> for u32 {
    open spec fn obeys_from_spec() -> bool {
        true
    }

    open spec fn from_spec(other: R19) -> u32 {
        other@ as u32
    }
}

impl From<R19> for usize {
    fn from(other: R19) -> (r: usize) {
        other.into_usize()
    }
}

impl FromSpecImpl<R19> for usize {
    open spec fn obeys_from_spec() -> bool {
        true
    }

    open spec fn from_spec(other: R19) -> usize {
        other@ as usize
    }
}

impl From<R19> for i32 {
    fn from(other: R19) -> (r: i32) {
        other.into_i32()
    }
}

impl FromSpecImpl<R19> for i32 {
    open spec fn obeys_from_spec() -> bool {
        true
    }

    open spec fn from_spec(other: R19) -> i32 {
        other@ as i32
    }
}

impl From<R20> for u8 {
    fn from(other: R20) -> (r: u8) {
        other.into_u8()
    }
}

impl FromSpecImpl<R20> for u8 {
    open spec fn obeys_from_spec() -> bool {
        true
    }

    open spec fn from_spec(other: R20) -> u8 {
        other@ as u8
    }
}

impl From<R20> for u16 {
    fn from(other: R20) -> (r: u16) {
        other.into_u16()
    }
}

impl FromSpecImpl<R20> for u16 {
    open spec fn obeys_from_spec() -> bool {
        true
    }

    open spec fn from_spec(other: R20) -> u16 {
        other@ as u16
    }
}

impl From<R20> for u32 {
    fn from(other: R20) -> (r: u32) {
        other.into_u32()
    }
}

impl FromSpecImpl<R20> for u32 {
    open spec fn obeys_from_spec() -> bool {
        true
    }

    open spec fn from_spec(other: R20) -> u32 {
        other@ as u32
    }
}

impl From<R20> for usize {
    fn from(other: R20) -> (r: usize) {
        other.into_usize()
    }
}

impl FromSpecImpl<R20> for usize {
    open spec fn obeys_from_spec() -> bool {
        true
    }

    open spec fn from_spec(other: R20) -> usize {
        other@ as usize
    }
}

impl From<R20> for i32 {
    fn from(other: R20) -> (r: i32) {
        other.into_i32()
    }
}

impl FromSpecImpl<R20> for i32 {
    open spec fn obeys_from_spec() -> bool {
        true
    }

    open spec fn from_spec(other: R20) -> i32 {
        other@ as i32
    }
}

impl From<R21> for u8 {
    fn from(other: R21) -> (r: u8) {
        other.into_u8()
    }
}

impl FromSpecImpl<R21> for u8 {
    open spec fn obeys_from_spec() -> bool {
        true
    }

    open spec fn from_spec(other: R21) -> u8 {
        other@ as u8
    }
}

impl From<R21> for u16 {
    fn from(other: R21) -> (r: u16) {
        other.into_u16()
    }
}

impl FromSpecImpl<R21> for u16 {
    open spec fn obeys_from_spec() -> bool {
        true
    }

    open spec fn from_spec(other: R21) -> u16 {
        other@ as u16
    }
}

impl From<R21> for u32 {
    fn from(other: R21) -> (r: u32) {
        other.into_u32()
    }
}

impl FromSpecImpl<R21> for u32 {
    open spec fn obeys_from_spec() -> bool {
        true
    }

    open spec fn from_spec(other: R21) -> u32 {
        other@ as u32
    }
}

impl From<R21> for usize {
    fn from(other: R21) -> (r: usize) {
        other.into_usize()
    }
}

impl FromSpecImpl<R21> for usize {
    open spec fn obeys_from_spec() -> bool {
        true
    }

    open spec fn from_spec(other: R21) -> usize {
        other@ as usize
    }
}

impl From<R21> for i32 {
    fn from(other: R21) -> (r: i32) {
        other.into_i32()
    }
}

impl FromSpecImpl<R21> for i32 {
    open spec fn obeys_from_spec() -> bool {
        true
    }

    open spec fn from_spec(other: R21) -> i32 {
        other@ as i32
    }
}

impl From<R22> for u8 {
    fn from(other: R22) -> (r: u8) {
        other.into_u8()
    }
}

impl FromSpecImpl<R22> for u8 {
    open spec fn obeys_from_spec() -> bool {
        true
    }

    open spec fn from_spec(other: R22) -> u8 {
        other@ as u8
    }
}

impl From<R22> for u16 {
    fn from(other: R22) -> (r: u16) {
        other.into_u16()
    }
}

impl FromSpecImpl<R22> for u16 {
    open spec fn obeys_from_spec() -> bool {
        true
    }

    open spec fn from_spec(other: R22) -> u16 {
        other@ as u16
    }
}

impl From<R22> for u32 {
    fn from(other: R22) -> (r: u32) {
        other.into_u32()
    }
}

impl FromSpecImpl<R22> for u32 {
    open spec fn obeys_from_spec() -> bool {
        true
    }

    open spec fn from_spec(other: R22) -> u32 {
        other@ as u32
    }
}

impl From<R22> for usize {
    fn from(other: R22) -> (r: usize) {
        other.into_usize()
    }
}

impl FromSpecImpl<R22> for usize {
    open spec fn obeys_from_spec() -> bool {
        true
    }

    open spec fn from_spec(other: R22) -> usize {
        other@ as usize
    }
}

impl From<R22> for i32 {
    fn from(other: R22) -> (r: i32) {
        other.into_i32()
    }
}

impl FromSpecImpl<R22> for i32 {
    open spec fn obeys_from_spec() -> bool {
        true
    }

    open spec fn from_spec(other: R22) -> i32 {
        other@ as i32
    }
}

impl From<R23> for u8 {
    fn from(other: R23) -> (r: u8) {
        other.into_u8()
    }
}

impl FromSpecImpl<R23> for u8 {
    open spec fn obeys_from_spec() -> bool {
        true
    }

    open spec fn from_spec(other: R23) -> u8 {
        other@ as u8
    }
}

impl From<R23> for u16 {
    fn from(other: R23) -> (r: u16) {
        other.into_u16()
    }
}

impl FromSpecImpl<R23> for u16 {
    open spec fn obeys_from_spec() -> bool {
        true
    }

    open spec fn from_spec(other: R23) -> u16 {
        other@ as u16
    }
}

impl From<R23> for u32 {
    fn from(other: R23) -> (r: u32) {
        other.into_u32()
    }
}

impl FromSpecImpl<R23> for u32 {
    open spec fn obeys_from_spec() -> bool {
        true
    }

    open spec fn from_spec(other: R23) -> u32 {
        other@ as u32
    }
}

impl From<R23> for usize {
    fn from(other: R23) -> (r: usize) {
        other.into_usize()
    }
}

impl FromSpecImpl<R23> for usize {
    open spec fn obeys_from_spec() -> bool {
        true
    }

    open spec fn from_spec(other: R23) -> usize {
        other@ as usize
    }
}

impl From<R23> for i32 {
    fn from(other: R23) -> (r: i32) {
        other.into_i32()
    }
}

impl FromSpecImpl<R23> for i32 {
    open spec fn obeys_from_spec() -> bool {
        true
    }

    open spec fn from_spec(other: R23) -> i32 {
        other@ as i32
    }
}

impl From<R24> for u8 {
    fn from(other: R24) -> (r: u8) {
        other.into_u8()
    }
}

impl FromSpecImpl<R24> for u8 {
    open spec fn obeys_from_spec() -> bool {
        true
    }

    open spec fn from_spec(other: R24) -> u8 {
        other@ as u8
    }
}

impl From<R24> for u16 {
    fn from(other: R24) -> (r: u16) {
        other.into_u16()
    }
}

impl FromSpecImpl<R24> for u16 {
    open spec fn obeys_from_spec() -> bool {
        true
    }

    open spec fn from_spec(other: R24) -> u16 {
        other@ as u16
    }
}

impl From<R24> for u32 {
    fn from(other: R24) -> (r: u32) {
        other.into_u32()
    }
}

impl FromSpecImpl<R24> for u32 {
    open spec fn obeys_from_spec() -> bool {
        true
    }

    open spec fn from_spec(other: R24) -> u32 {
        other@ as u32
    }
}

impl From<R24> for usize {
    fn from(other: R24) -> (r: usize) {
        other.into_usize()
    }
}

impl FromSpecImpl<R24> for usize {
    open spec fn obeys_from_spec() -> bool {
        true
    }

    open spec fn from_spec(other: R24) -> usize {
        other@ as usize
    }
}

impl From<R24> for i32 {
    fn from(other: R24) -> (r: i32) {
        other.into_i32()
    }
}

impl FromSpecImpl<R24> for i32 {
    open spec fn obeys_from_spec() -> bool {
        true
    }

    open spec fn from_spec(other: R24) -> i32 {
        other@ as i32
    }
}

impl From<R25> for u8 {
    fn from(other: R25) -> (r: u8) {
        other.into_u8()
    }
}

impl FromSpecImpl<R25> for u8 {
    open spec fn obeys_from_spec() -> bool {
        true
    }

    open spec fn from_spec(other: R25) -> u8 {
        other@ as u8
    }
}

impl From<R25> for u16 {
    fn from(other: R25) -> (r: u16) {
        other.into_u16()
    }
}

impl FromSpecImpl<R25> for u16 {
    open spec fn obeys_from_spec() -> bool {
        true
    }

    open spec fn from_spec(other: R25) -> u16 {
        other@ as u16
    }
}

impl From<R25> for u32 {
    fn from(other: R25) -> (r: u32) {
        other.into_u32()
    }
}

impl FromSpecImpl<R25> for u32 {
    open spec fn obeys_from_spec() -> bool {
        true
    }

    open spec fn from_spec(other: R25) -> u32 {
        other@ as u32
    }
}

impl From<R25> for usize {
    fn from(other: R25) -> (r: usize) {
        other.into_usize()
    }
}

impl FromSpecImpl<R25> for usize {
    open spec fn obeys_from_spec() -> bool {
        true
    }

    open spec fn from_spec(other: R25) -> usize {
        other@ as usize
    }
}

impl From<R25> for i32 {
    fn from(other: R25) -> (r: i32) {
        other.into_i32()
    }
}

impl FromSpecImpl<R25> for i32 {
    open spec fn obeys_from_spec() -> bool {
        true
    }

    open spec fn from_spec(other: R25) -> i32 {
        other@ as i32
    }
}

impl From<R26> for u8 {
    fn from(other: R26) -> (r: u8) {
        other.into_u8()
    }
}

impl FromSpecImpl<R26> for u8 {
    open spec fn obeys_from_spec() -> bool {
        true
    }

    open spec fn from_spec(other: R26) -> u8 {
        other@ as u8
    }
}

impl From<R26> for u16 {
    fn from(other: R26) -> (r: u16) {
        other.into_u16()
    }
}

impl FromSpecImpl<R26> for u16 {
    open spec fn obeys_from_spec() -> bool {
        true
    }

    open spec fn from_spec(other: R26) -> u16 {
        other@ as u16
    }
}

impl From<R26> for u32 {
    fn from(other: R26) -> (r: u32) {
        other.into_u32()
    }
}

impl FromSpecImpl<R26> for u32 {
    open spec fn obeys_from_spec() -> bool {
        true
    }

    open spec fn from_spec(other: R26) -> u32 {
        other@ as u32
    }
}

impl From<R26> for usize {
    fn from(other: R26) -> (r: usize) {
        other.into_usize()
    }
}

impl FromSpecImpl<R26> for usize {
    open spec fn obeys_from_spec() -> bool {
        true
    }

    open spec fn from_spec(other: R26) -> usize {
        other@ as usize
    }
}

impl From<R26> for i32 {
    fn from(other: R26) -> (r: i32) {
        other.into_i32()
    }
}

impl FromSpecImpl<R26> for i32 {
    open spec fn obeys_from_spec() -> bool {
        true
    }

    open spec fn from_spec(other: R26) -> i32 {
        other@ as i32
    }
}

impl From<R27> for u8 {
    fn from(other: R27) -> (r: u8) {
        other.into_u8()
    }
}

impl FromSpecImpl<R27> for u8 {
    open spec fn obeys_from_spec() -> bool {
        true
    }

    open spec fn from_spec(other: R27) -> u8 {
        other@ as u8
    }
}

impl From<R27> for u16 {
    fn from(other: R27) -> (r: u16) {
        other.into_u16()
    }
}

impl FromSpecImpl<R27> for u16 {
    open spec fn obeys_from_spec() -> bool {
        true
    }

    open spec fn from_spec(other: R27) -> u16 {
        other@ as u16
    }
}

impl From<R27> for u32 {
    fn from(other: R27) -> (r: u32) {
        other.into_u32()
    }
}

impl FromSpecImpl<R27> for u32 {
    open spec fn obeys_from_spec() -> bool {
        true
    }

    open spec fn from_spec(other: R27) -> u32 {
        other@ as u32
    }
}

impl From<R27> for usize {
    fn from(other: R27) -> (r: usize) {
        other.into_usize()
    }
}

impl FromSpecImpl<R27> for usize {
    open spec fn obeys_from_spec() -> bool {
        true
    }

    open spec fn from_spec(other: R27) -> usize {
        other@ as usize
    }
}

impl From<R27> for i32 {
    fn from(other: R27) -> (r: i32) {
        other.into_i32()
    }
}

impl FromSpecImpl<R27> for i32 {
    open spec fn obeys_from_spec() -> bool {
        true
    }

    open spec fn from_spec(other: R27) -> i32 {
        other@ as i32
    }
}

impl From<R28> for u8 {
    fn from(other: R28) -> (r: u8) {
        other.into_u8()
    }
}

impl FromSpecImpl<R28> for u8 {
    open spec fn obeys_from_spec() -> bool {
        true
    }

    open spec fn from_spec(other: R28) -> u8 {
        other@ as u8
    }
}

impl From<R28> for u16 {
    fn from(other: R28) -> (r: u16) {
        other.into_u16()
    }
}

impl FromSpecImpl<R28> for u16 {
    open spec fn obeys_from_spec() -> bool {
        true
    }

    open spec fn from_spec(other: R28) -> u16 {
        other@ as u16
    }
}

impl From<R28> for u32 {
    fn from(other: R28) -> (r: u32) {
        other.into_u32()
    }
}

impl FromSpecImpl<R28> for u32 {
    open spec fn obeys_from_spec() -> bool {
        true
    }

    open spec fn from_spec(other: R28) -> u32 {
        other@ as u32
    }
}

impl From<R28> for usize {
    fn from(other: R28) -> (r: usize) {
        other.into_usize()
    }
}

impl FromSpecImpl<R28> for usize {
    open spec fn obeys_from_spec() -> bool {
        true
    }

    open spec fn from_spec(other: R28) -> usize {
        other@ as usize
    }
}

impl From<R28> for i32 {
    fn from(other: R28) -> (r: i32) {
        other.into_i32()
    }
}

impl FromSpecImpl<R28> for i32 {
    open spec fn obeys_from_spec() -> bool {
        true
    }

    open spec fn from_spec(other: R28) -> i32 {
        other@ as i32
    }
}

impl From<R29> for u8 {
    fn from(other: R29) -> (r: u8) {
        other.into_u8()
    }
}

impl FromSpecImpl<R29> for u8 {
    open spec fn obeys_from_spec() -> bool {
        true
    }

    open spec fn from_spec(other: R29) -> u8 {
        other@ as u8
    }
}

impl From<R29> for u16 {
    fn from(other: R29) -> (r: u16) {
        other.into_u16()
    }
}

impl FromSpecImpl<R29> for u16 {
    open spec fn obeys_from_spec() -> bool {
        true
    }

    open spec fn from_spec(other: R29) -> u16 {
        other@ as u16
    }
}

impl From<R29> for u32 {
    fn from(other: R29) -> (r: u32) {
        other.into_u32()
    }
}

impl FromSpecImpl<R29> for u32 {
    open spec fn obeys_from_spec() -> bool {
        true
    }

    open spec fn from_spec(other: R29) -> u32 {
        other@ as u32
    }
}

impl From<R29> for usize {
    fn from(other: R29) -> (r: usize) {
        other.into_usize()
    }
}

impl FromSpecImpl<R29> for usize {
    open spec fn obeys_from_spec() -> bool {
        true
    }

    open spec fn from_spec(other: R29) -> usize {
        other@ as usize
    }
}

impl From<R29> for i32 {
    fn from(other: R29) -> (r: i32) {
        other.into_i32()
    }
}

impl FromSpecImpl<R29> for i32 {
    open spec fn obeys_from_spec() -> bool {
        true
    }

    open spec fn from_spec(other: R29) -> i32 {
        other@ as i32
    }
}

impl From<R30> for u8 {
    fn from(other: R30) -> (r: u8) {
        other.into_u8()
    }
}

impl FromSpecImpl<R30> for u8 {
    open spec fn obeys_from_spec() -> bool {
        true
    }

    open spec fn from_spec(other: R30) -> u8 {
        other@ as u8
    }
}

impl From<R30> for u16 {
    fn from(other: R30) -> (r: u16) {
        other.into_u16()
    }
}

impl FromSpecImpl<R30> for u16 {
    open spec fn obeys_from_spec() -> bool {
        true
    }

    open spec fn from_spec(other: R30) -> u16 {
        other@ as u16
    }
}

impl From<R30> for u32 {
    fn from(other: R30) -> (r: u32) {
        other.into_u32()
    }
}

impl FromSpecImpl<R30> for u32 {
    open spec fn obeys_from_spec() -> bool {
        true
    }

    open spec fn from_spec(other: R30) -> u32 {
        other@ as u32
    }
}

impl From<R30> for usize {
    fn from(other: R30) -> (r: usize) {
        other.into_usize()
    }
}

impl FromSpecImpl<R30> for usize {
    open spec fn obeys_from_spec() -> bool {
        true
    }

    open spec fn from_spec(other: R30) -> usize {
        other@ as usize
    }
}

impl From<R30> for i32 {
    fn from(other: R30) -> (r: i32) {
        other.into_i32()
    }
}

impl FromSpecImpl<R30> for i32 {
    open spec fn obeys_from_spec() -> bool {
        true
    }

    open spec fn from_spec(other: R30) -> i32 {
        other@ as i32
    }
}

impl From<R31> for u8 {
    fn from(other: R31) -> (r: u8) {
        other.into_u8()
    }
}

impl FromSpecImpl<R31> for u8 {
    open spec fn obeys_from_spec() -> bool {
        true
    }

    open spec fn from_spec(other: R31) -> u8 {
        other@ as u8
    }
}

impl From<R31> for u16 {
    fn from(other: R31) -> (r: u16) {
        other.into_u16()
    }
}

impl FromSpecImpl<R31> for u16 {
    open spec fn obeys_from_spec() -> bool {
        true
    }

    open spec fn from_spec(other: R31) -> u16 {
        other@ as u16
    }
}

impl From<R31> for u32 {
    fn from(other: R31) -> (r: u32) {
        other.into_u32()
    }
}

impl FromSpecImpl<R31> for u32 {
    open spec fn obeys_from_spec() -> bool {
        true
    }

    open spec fn from_spec(other: R31) -> u32 {
        other@ as u32
    }
}

impl From<R31> for usize {
    fn from(other: R31) -> (r: usize) {
        other.into_usize()
    }
}

impl FromSpecImpl<R31> for usize {
    open spec fn obeys_from_spec() -> bool {
        true
    }

    open spec fn from_spec(other: R31) -> usize {
        other@ as usize
    }
}

impl From<R31> for i32 {
    fn from(other: R31) -> (r: i32) {
        other.into_i32()
    }
}

impl FromSpecImpl<R31> for i32 {
    open spec fn obeys_from_spec() -> bool {
        true
    }

    open spec fn from_spec(other: R31) -> i32 {
        other@ as i32
    }
}

impl From<R32> for u8 {
    fn from(other: R32) -> (r: u8) {
        other.into_u8()
    }
}

impl FromSpecImpl<R32> for u8 {
    open spec fn obeys_from_spec() -> bool {
        true
    }

    open spec fn from_spec(other: R32) -> u8 {
        other@ as u8
    }
}

impl From<R32> for u16 {
    fn from(other: R32) -> (r: u16) {
        other.into_u16()
    }
}

impl FromSpecImpl<R32> for u16 {
    open spec fn obeys_from_spec() -> bool {
        true
    }

    open spec fn from_spec(other: R32) -> u16 {
        other@ as u16
    }
}

impl From<R32> for u32 {
    fn from(other: R32) -> (r: u32) {
        other.into_u32()
    }
}

impl FromSpecImpl<R32> for u32 {
    open spec fn obeys_from_spec() -> bool {
        true
    }

    open spec fn from_spec(other: R32) -> u32 {
        other@ as u32
    }
}

impl From<R32> for usize {
    fn from(other: R32) -> (r: usize) {
        other.into_usize()
    }
}

impl FromSpecImpl<R32> for usize {
    open spec fn obeys_from_spec() -> bool {
        true
    }

    open spec fn from_spec(other: R32) -> usize {
        other@ as usize
    }
}

impl From<R32> for i32 {
    fn from(other: R32) -> (r: i32) {
        other.into_i32()
    }
}

impl FromSpecImpl<R32> for i32 {
    open spec fn obeys_from_spec() -> bool {
        true
    }

    open spec fn from_spec(other: R32) -> i32 {
        other@ as i32
    }
}

} // verus!
