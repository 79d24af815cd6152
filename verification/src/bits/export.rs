//! From a bit-width value to a native integer, through the traits of `std`.
//!
//! Where the native type holds every number of the width, the conversion is
//! `From`. Where it is narrower, the conversion is `TryFrom`, and fails with
//! the range violation exactly when the number held has a bit that the
//! native type has no room for.

use crate::bits::enums::{U1, U2, U3, U4, U5, U6};
use crate::bits::medium::{U10, U11, U12, U13, U14, U15, U16, U9};
use crate::bits::narrow::{U7, U8};
use crate::bits::wide::{
    U17, U18, U19, U20, U21, U22, U23, U24, U25, U26, U27, U28, U29, U30, U31, U32,
};
use crate::bits::{checked_i32, checked_u16, checked_u8, BitField};
use crate::error::RangeError;
use vstd::prelude::*;
use vstd::std_specs::convert::{FromSpecImpl, TryFromSpecImpl};

verus! {

impl From<U1> for u8 {
    fn from(other: U1) -> (r: u8) {
        other.into_u8()
    }
}

impl FromSpecImpl<U1> for u8 {
    open spec fn obeys_from_spec() -> bool {
        true
    }

    open spec fn from_spec(other: U1) -> u8 {
        other@ as u8
    }
}

impl From<U1> for u16 {
    fn from(other: U1) -> (r: u16) {
        other.into_u16()
    }
}

impl FromSpecImpl<U1> for u16 {
    open spec fn obeys_from_spec() -> bool {
        true
    }

    open spec fn from_spec(other: U1) -> u16 {
        other@ as u16
    }
}

impl From<U1> for u32 {
    fn from(other: U1) -> (r: u32) {
        other.into_u32()
    }
}

impl FromSpecImpl<U1> for u32 {
    open spec fn obeys_from_spec() -> bool {
        true
    }

    open spec fn from_spec(other: U1) -> u32 {
        other@ as u32
    }
}

impl From<U1> for usize {
    fn from(other: U1) -> (r: usize) {
        other.into_usize()
    }
}

impl FromSpecImpl<U1> for usize {
    open spec fn obeys_from_spec() -> bool {
        true
    }

    open spec fn from_spec(other: U1) -> usize {
        other@ as usize
    }
}

impl From<U1> for i32 {
    fn from(other: U1) -> (r: i32) {
        other.into_i32()
    }
}

impl FromSpecImpl<U1> for i32 {
    open spec fn obeys_from_spec() -> bool {
        true
    }

    open spec fn from_spec(other: U1) -> i32 {
        other@ as i32
    }
}

impl From<U2> for u8 {
    fn from(other: U2) -> (r: u8) {
        other.into_u8()
    }
}

impl FromSpecImpl<U2> for u8 {
    open spec fn obeys_from_spec() -> bool {
        true
    }

    open spec fn from_spec(other: U2) -> u8 {
        other@ as u8
    }
}

impl From<U2> for u16 {
    fn from(other: U2) -> (r: u16) {
        other.into_u16()
    }
}

impl FromSpecImpl<U2> for u16 {
    open spec fn obeys_from_spec() -> bool {
        true
    }

    open spec fn from_spec(other: U2) -> u16 {
        other@ as u16
    }
}

impl From<U2> for u32 {
    fn from(other: U2) -> (r: u32) {
        other.into_u32()
    }
}

impl FromSpecImpl<U2> for u32 {
    open spec fn obeys_from_spec() -> bool {
        true
    }

    open spec fn from_spec(other: U2) -> u32 {
        other@ as u32
    }
}

impl From<U2> for usize {
    fn from(other: U2) -> (r: usize) {
        other.into_usize()
    }
}

impl FromSpecImpl<U2> for usize {
    open spec fn obeys_from_spec() -> bool {
        true
    }

    open spec fn from_spec(other: U2) -> usize {
        other@ as usize
    }
}

impl From<U2> for i32 {
    fn from(other: U2) -> (r: i32) {
        other.into_i32()
    }
}

impl FromSpecImpl<U2> for i32 {
    open spec fn obeys_from_spec() -> bool {
        true
    }

    open spec fn from_spec(other: U2) -> i32 {
        other@ as i32
    }
}

impl From<U3> for u8 {
    fn from(other: U3) -> (r: u8) {
        other.into_u8()
    }
}

impl FromSpecImpl<U3> for u8 {
    open spec fn obeys_from_spec() -> bool {
        true
    }

    open spec fn from_spec(other: U3) -> u8 {
        other@ as u8
    }
}

impl From<U3> for u16 {
    fn from(other: U3) -> (r: u16) {
        other.into_u16()
    }
}

impl FromSpecImpl<U3> for u16 {
    open spec fn obeys_from_spec() -> bool {
        true
    }

    open spec fn from_spec(other: U3) -> u16 {
        other@ as u16
    }
}

impl From<U3> for u32 {
    fn from(other: U3) -> (r: u32) {
        other.into_u32()
    }
}

impl FromSpecImpl<U3> for u32 {
    open spec fn obeys_from_spec() -> bool {
        true
    }

    open spec fn from_spec(other: U3) -> u32 {
        other@ as u32
    }
}

impl From<U3> for usize {
    fn from(other: U3) -> (r: usize) {
        other.into_usize()
    }
}

impl FromSpecImpl<U3> for usize {
    open spec fn obeys_from_spec() -> bool {
        true
    }

    open spec fn from_spec(other: U3) -> usize {
        other@ as usize
    }
}

impl From<U3> for i32 {
    fn from(other: U3) -> (r: i32) {
        other.into_i32()
    }
}

impl FromSpecImpl<U3> for i32 {
    open spec fn obeys_from_spec() -> bool {
        true
    }

    open spec fn from_spec(other: U3) -> i32 {
        other@ as i32
    }
}

impl From<U4> for u8 {
    fn from(other: U4) -> (r: u8) {
        other.into_u8()
    }
}

impl FromSpecImpl<U4> for u8 {
    open spec fn obeys_from_spec() -> bool {
        true
    }

    open spec fn from_spec(other: U4) -> u8 {
        other@ as u8
    }
}

impl From<U4> for u16 {
    fn from(other: U4) -> (r: u16) {
        other.into_u16()
    }
}

impl FromSpecImpl<U4> for u16 {
    open spec fn obeys_from_spec() -> bool {
        true
    }

    open spec fn from_spec(other: U4) -> u16 {
        other@ as u16
    }
}

impl From<U4> for u32 {
    fn from(other: U4) -> (r: u32) {
        other.into_u32()
    }
}

impl FromSpecImpl<U4> for u32 {
    open spec fn obeys_from_spec() -> bool {
        true
    }

    open spec fn from_spec(other: U4) -> u32 {
        other@ as u32
    }
}

impl From<U4> for usize {
    fn from(other: U4) -> (r: usize) {
        other.into_usize()
    }
}

impl FromSpecImpl<U4> for usize {
    open spec fn obeys_from_spec() -> bool {
        true
    }

    open spec fn from_spec(other: U4) -> usize {
        other@ as usize
    }
}

impl From<U4> for i32 {
    fn from(other: U4) -> (r: i32) {
        other.into_i32()
    }
}

impl FromSpecImpl<U4> for i32 {
    open spec fn obeys_from_spec() -> bool {
        true
    }

    open spec fn from_spec(other: U4) -> i32 {
        other@ as i32
    }
}

impl From<U5> for u8 {
    fn from(other: U5) -> (r: u8) {
        other.into_u8()
    }
}

impl FromSpecImpl<U5> for u8 {
    open spec fn obeys_from_spec() -> bool {
        true
    }

    open spec fn from_spec(other: U5) -> u8 {
        other@ as u8
    }
}

impl From<U5> for u16 {
    fn from(other: U5) -> (r: u16) {
        other.into_u16()
    }
}

impl FromSpecImpl<U5> for u16 {
    open spec fn obeys_from_spec() -> bool {
        true
    }

    open spec fn from_spec(other: U5) -> u16 {
        other@ as u16
    }
}

impl From<U5> for u32 {
    fn from(other: U5) -> (r: u32) {
        other.into_u32()
    }
}

impl FromSpecImpl<U5> for u32 {
    open spec fn obeys_from_spec() -> bool {
        true
    }

    open spec fn from_spec(other: U5) -> u32 {
        other@ as u32
    }
}

impl From<U5> for usize {
    fn from(other: U5) -> (r: usize) {
        other.into_usize()
    }
}

impl FromSpecImpl<U5> for usize {
    open spec fn obeys_from_spec() -> bool {
        true
    }

    open spec fn from_spec(other: U5) -> usize {
        other@ as usize
    }
}

impl From<U5> for i32 {
    fn from(other: U5) -> (r: i32) {
        other.into_i32()
    }
}

impl FromSpecImpl<U5> for i32 {
    open spec fn obeys_from_spec() -> bool {
        true
    }

    open spec fn from_spec(other: U5) -> i32 {
        other@ as i32
    }
}

impl From<U6> for u8 {
    fn from(other: U6) -> (r: u8) {
        other.into_u8()
    }
}

impl FromSpecImpl<U6> for u8 {
    open spec fn obeys_from_spec() -> bool {
        true
    }

    open spec fn from_spec(other: U6) -> u8 {
        other@ as u8
    }
}

impl From<U6> for u16 {
    fn from(other: U6) -> (r: u16) {
        other.into_u16()
    }
}

impl FromSpecImpl<U6> for u16 {
    open spec fn obeys_from_spec() -> bool {
        true
    }

    open spec fn from_spec(other: U6) -> u16 {
        other@ as u16
    }
}

impl From<U6> for u32 {
    fn from(other: U6) -> (r: u32) {
        other.into_u32()
    }
}

impl FromSpecImpl<U6> for u32 {
    open spec fn obeys_from_spec() -> bool {
        true
    }

    open spec fn from_spec(other: U6) -> u32 {
        other@ as u32
    }
}

impl From<U6> for usize {
    fn from(other: U6) -> (r: usize) {
        other.into_usize()
    }
}

impl FromSpecImpl<U6> for usize {
    open spec fn obeys_from_spec() -> bool {
        true
    }

    open spec fn from_spec(other: U6) -> usize {
        other@ as usize
    }
}

impl From<U6> for i32 {
    fn from(other: U6) -> (r: i32) {
        other.into_i32()
    }
}

impl FromSpecImpl<U6> for i32 {
    open spec fn obeys_from_spec() -> bool {
        true
    }

    open spec fn from_spec(other: U6) -> i32 {
        other@ as i32
    }
}

impl From<U7> for u8 {
    fn from(other: U7) -> (r: u8) {
        other.into_u8()
    }
}

impl FromSpecImpl<U7> for u8 {
    open spec fn obeys_from_spec() -> bool {
        true
    }

    open spec fn from_spec(other: U7) -> u8 {
        other@ as u8
    }
}

impl From<U7> for u16 {
    fn from(other: U7) -> (r: u16) {
        other.into_u16()
    }
}

impl FromSpecImpl<U7> for u16 {
    open spec fn obeys_from_spec() -> bool {
        true
    }

    open spec fn from_spec(other: U7) -> u16 {
        other@ as u16
    }
}

impl From<U7> for u32 {
    fn from(other: U7) -> (r: u32) {
        other.into_u32()
    }
}

impl FromSpecImpl<U7> for u32 {
    open spec fn obeys_from_spec() -> bool {
        true
    }

    open spec fn from_spec(other: U7) -> u32 {
        other@ as u32
    }
}

impl From<U7> for usize {
    fn from(other: U7) -> (r: usize) {
        other.into_usize()
    }
}

impl FromSpecImpl<U7> for usize {
    open spec fn obeys_from_spec() -> bool {
        true
    }

    open spec fn from_spec(other: U7) -> usize {
        other@ as usize
    }
}

impl From<U7> for i32 {
    fn from(other: U7) -> (r: i32) {
        other.into_i32()
    }
}

impl FromSpecImpl<U7> for i32 {
    open spec fn obeys_from_spec() -> bool {
        true
    }

    open spec fn from_spec(other: U7) -> i32 {
        other@ as i32
    }
}

impl From<U8> for u8 {
    fn from(other: U8) -> (r: u8) {
        other.into_u8()
    }
}

impl FromSpecImpl<U8> for u8 {
    open spec fn obeys_from_spec() -> bool {
        true
    }

    open spec fn from_spec(other: U8) -> u8 {
        other@ as u8
    }
}

impl From<U8> for u16 {
    fn from(other: U8) -> (r: u16) {
        other.into_u16()
    }
}

impl FromSpecImpl<U8> for u16 {
    open spec fn obeys_from_spec() -> bool {
        true
    }

    open spec fn from_spec(other: U8) -> u16 {
        other@ as u16
    }
}

impl From<U8> for u32 {
    fn from(other: U8) -> (r: u32) {
        other.into_u32()
    }
}

impl FromSpecImpl<U8> for u32 {
    open spec fn obeys_from_spec() -> bool {
        true
    }

    open spec fn from_spec(other: U8) -> u32 {
        other@ as u32
    }
}

impl From<U8> for usize {
    fn from(other: U8) -> (r: usize) {
        other.into_usize()
    }
}

impl FromSpecImpl<U8> for usize {
    open spec fn obeys_from_spec() -> bool {
        true
    }

    open spec fn from_spec(other: U8) -> usize {
        other@ as usize
    }
}

impl From<U8> for i32 {
    fn from(other: U8) -> (r: i32) {
        other.into_i32()
    }
}

impl FromSpecImpl<U8> for i32 {
    open spec fn obeys_from_spec() -> bool {
        true
    }

    open spec fn from_spec(other: U8) -> i32 {
        other@ as i32
    }
}

impl TryFrom<U9> for u8 {
    type Error = RangeError;

    fn try_from(other: U9) -> (r: Result<u8, RangeError>) {
        other.try_into_u8()
    }
}

impl TryFromSpecImpl<U9> for u8 {
    open spec fn obeys_try_from_spec() -> bool {
        true
    }

    open spec fn try_from_spec(other: U9) -> Result<u8, RangeError> {
        checked_u8(other@)
    }
}

impl From<U9> for u16 {
    fn from(other: U9) -> (r: u16) {
        other.into_u16()
    }
}

impl FromSpecImpl<U9> for u16 {
    open spec fn obeys_from_spec() -> bool {
        true
    }

    open spec fn from_spec(other: U9) -> u16 {
        other@ as u16
    }
}

impl From<U9> for u32 {
    fn from(other: U9) -> (r: u32) {
        other.into_u32()
    }
}

impl FromSpecImpl<U9> for u32 {
    open spec fn obeys_from_spec() -> bool {
        true
    }

    open spec fn from_spec(other: U9) -> u32 {
        other@ as u32
    }
}

impl From<U9> for usize {
    fn from(other: U9) -> (r: usize) {
        other.into_usize()
    }
}

impl FromSpecImpl<U9> for usize {
    open spec fn obeys_from_spec() -> bool {
        true
    }

    open spec fn from_spec(other: U9) -> usize {
        other@ as usize
    }
}

impl From<U9> for i32 {
    fn from(other: U9) -> (r: i32) {
        other.into_i32()
    }
}

impl FromSpecImpl<U9> for i32 {
    open spec fn obeys_from_spec() -> bool {
        true
    }

    open spec fn from_spec(other: U9) -> i32 {
        other@ as i32
    }
}

impl TryFrom<U10> for u8 {
    type Error = RangeError;

    fn try_from(other: U10) -> (r: Result<u8, RangeError>) {
        other.try_into_u8()
    }
}

impl TryFromSpecImpl<U10> for u8 {
    open spec fn obeys_try_from_spec() -> bool {
        true
    }

    open spec fn try_from_spec(other: U10) -> Result<u8, RangeError> {
        checked_u8(other@)
    }
}

impl From<U10> for u16 {
    fn from(other: U10) -> (r: u16) {
        other.into_u16()
    }
}

impl FromSpecImpl<U10> for u16 {
    open spec fn obeys_from_spec() -> bool {
        true
    }

    open spec fn from_spec(other: U10) -> u16 {
        other@ as u16
    }
}

impl From<U10> for u32 {
    fn from(other: U10) -> (r: u32) {
        other.into_u32()
    }
}

impl FromSpecImpl<U10> for u32 {
    open spec fn obeys_from_spec() -> bool {
        true
    }

    open spec fn from_spec(other: U10) -> u32 {
        other@ as u32
    }
}

impl From<U10> for usize {
    fn from(other: U10) -> (r: usize) {
        other.into_usize()
    }
}

impl FromSpecImpl<U10> for usize {
    open spec fn obeys_from_spec() -> bool {
        true
    }

    open spec fn from_spec(other: U10) -> usize {
        other@ as usize
    }
}

impl From<U10> for i32 {
    fn from(other: U10) -> (r: i32) {
        other.into_i32()
    }
}

impl FromSpecImpl<U10> for i32 {
    open spec fn obeys_from_spec() -> bool {
        true
    }

    open spec fn from_spec(other: U10) -> i32 {
        other@ as i32
    }
}

impl TryFrom<U11> for u8 {
    type Error = RangeError;

    fn try_from(other: U11) -> (r: Result<u8, RangeError>) {
        other.try_into_u8()
    }
}

impl TryFromSpecImpl<U11> for u8 {
    open spec fn obeys_try_from_spec() -> bool {
        true
    }

    open spec fn try_from_spec(other: U11) -> Result<u8, RangeError> {
        checked_u8(other@)
    }
}

impl From<U11> for u16 {
    fn from(other: U11) -> (r: u16) {
        other.into_u16()
    }
}

impl FromSpecImpl<U11> for u16 {
    open spec fn obeys_from_spec() -> bool {
        true
    }

    open spec fn from_spec(other: U11) -> u16 {
        other@ as u16
    }
}

impl From<U11> for u32 {
    fn from(other: U11) -> (r: u32) {
        other.into_u32()
    }
}

impl FromSpecImpl<U11> for u32 {
    open spec fn obeys_from_spec() -> bool {
        true
    }

    open spec fn from_spec(other: U11) -> u32 {
        other@ as u32
    }
}

impl From<U11> for usize {
    fn from(other: U11) -> (r: usize) {
        other.into_usize()
    }
}

impl FromSpecImpl<U11> for usize {
    open spec fn obeys_from_spec() -> bool {
        true
    }

    open spec fn from_spec(other: U11) -> usize {
        other@ as usize
    }
}

impl From<U11> for i32 {
    fn from(other: U11) -> (r: i32) {
        other.into_i32()
    }
}

impl FromSpecImpl<U11> for i32 {
    open spec fn obeys_from_spec() -> bool {
        true
    }

    open spec fn from_spec(other: U11) -> i32 {
        other@ as i32
    }
}

impl TryFrom<U12> for u8 {
    type Error = RangeError;

    fn try_from(other: U12) -> (r: Result<u8, RangeError>) {
        other.try_into_u8()
    }
}

impl TryFromSpecImpl<U12> for u8 {
    open spec fn obeys_try_from_spec() -> bool {
        true
    }

    open spec fn try_from_spec(other: U12) -> Result<u8, RangeError> {
        checked_u8(other@)
    }
}

impl From<U12> for u16 {
    fn from(other: U12) -> (r: u16) {
        other.into_u16()
    }
}

impl FromSpecImpl<U12> for u16 {
    open spec fn obeys_from_spec() -> bool {
        true
    }

    open spec fn from_spec(other: U12) -> u16 {
        other@ as u16
    }
}

impl From<U12> for u32 {
    fn from(other: U12) -> (r: u32) {
        other.into_u32()
    }
}

impl FromSpecImpl<U12> for u32 {
    open spec fn obeys_from_spec() -> bool {
        true
    }

    open spec fn from_spec(other: U12) -> u32 {
        other@ as u32
    }
}

impl From<U12> for usize {
    fn from(other: U12) -> (r: usize) {
        other.into_usize()
    }
}

impl FromSpecImpl<U12> for usize {
    open spec fn obeys_from_spec() -> bool {
        true
    }

    open spec fn from_spec(other: U12) -> usize {
        other@ as usize
    }
}

impl From<U12> for i32 {
    fn from(other: U12) -> (r: i32) {
        other.into_i32()
    }
}

impl FromSpecImpl<U12> for i32 {
    open spec fn obeys_from_spec() -> bool {
        true
    }

    open spec fn from_spec(other: U12) -> i32 {
        other@ as i32
    }
}

impl TryFrom<U13> for u8 {
    type Error = RangeError;

    fn try_from(other: U13) -> (r: Result<u8, RangeError>) {
        other.try_into_u8()
    }
}

impl TryFromSpecImpl<U13> for u8 {
    open spec fn obeys_try_from_spec() -> bool {
        true
    }

    open spec fn try_from_spec(other: U13) -> Result<u8, RangeError> {
        checked_u8(other@)
    }
}

impl From<U13> for u16 {
    fn from(other: U13) -> (r: u16) {
        other.into_u16()
    }
}

impl FromSpecImpl<U13> for u16 {
    open spec fn obeys_from_spec() -> bool {
        true
    }

    open spec fn from_spec(other: U13) -> u16 {
        other@ as u16
    }
}

impl From<U13> for u32 {
    fn from(other: U13) -> (r: u32) {
        other.into_u32()
    }
}

impl FromSpecImpl<U13> for u32 {
    open spec fn obeys_from_spec() -> bool {
        true
    }

    open spec fn from_spec(other: U13) -> u32 {
        other@ as u32
    }
}

impl From<U13> for usize {
    fn from(other: U13) -> (r: usize) {
        other.into_usize()
    }
}

impl FromSpecImpl<U13> for usize {
    open spec fn obeys_from_spec() -> bool {
        true
    }

    open spec fn from_spec(other: U13) -> usize {
        other@ as usize
    }
}

impl From<U13> for i32 {
    fn from(other: U13) -> (r: i32) {
        other.into_i32()
    }
}

impl FromSpecImpl<U13> for i32 {
    open spec fn obeys_from_spec() -> bool {
        true
    }

    open spec fn from_spec(other: U13) -> i32 {
        other@ as i32
    }
}

impl TryFrom<U14> for u8 {
    type Error = RangeError;

    fn try_from(other: U14) -> (r: Result<u8, RangeError>) {
        other.try_into_u8()
    }
}

impl TryFromSpecImpl<U14> for u8 {
    open spec fn obeys_try_from_spec() -> bool {
        true
    }

    open spec fn try_from_spec(other: U14) -> Result<u8, RangeError> {
        checked_u8(other@)
    }
}

impl From<U14> for u16 {
    fn from(other: U14) -> (r: u16) {
        other.into_u16()
    }
}

impl FromSpecImpl<U14> for u16 {
    open spec fn obeys_from_spec() -> bool {
        true
    }

    open spec fn from_spec(other: U14) -> u16 {
        other@ as u16
    }
}

impl From<U14> for u32 {
    fn from(other: U14) -> (r: u32) {
        other.into_u32()
    }
}

impl FromSpecImpl<U14> for u32 {
    open spec fn obeys_from_spec() -> bool {
        true
    }

    open spec fn from_spec(other: U14) -> u32 {
        other@ as u32
    }
}

impl From<U14> for usize {
    fn from(other: U14) -> (r: usize) {
        other.into_usize()
    }
}

impl FromSpecImpl<U14> for usize {
    open spec fn obeys_from_spec() -> bool {
        true
    }

    open spec fn from_spec(other: U14) -> usize {
        other@ as usize
    }
}

impl From<U14> for i32 {
    fn from(other: U14) -> (r: i32) {
        other.into_i32()
    }
}

impl FromSpecImpl<U14> for i32 {
    open spec fn obeys_from_spec() -> bool {
        true
    }

    open spec fn from_spec(other: U14) -> i32 {
        other@ as i32
    }
}

impl TryFrom<U15> for u8 {
    type Error = RangeError;

    fn try_from(other: U15) -> (r: Result<u8, RangeError>) {
        other.try_into_u8()
    }
}

impl TryFromSpecImpl<U15> for u8 {
    open spec fn obeys_try_from_spec() -> bool {
        true
    }

    open spec fn try_from_spec(other: U15) -> Result<u8, RangeError> {
        checked_u8(other@)
    }
}

impl From<U15> for u16 {
    fn from(other: U15) -> (r: u16) {
        other.into_u16()
    }
}

impl FromSpecImpl<U15> for u16 {
    open spec fn obeys_from_spec() -> bool {
        true
    }

    open spec fn from_spec(other: U15) -> u16 {
        other@ as u16
    }
}

impl From<U15> for u32 {
    fn from(other: U15) -> (r: u32) {
        other.into_u32()
    }
}

impl FromSpecImpl<U15> for u32 {
    open spec fn obeys_from_spec() -> bool {
        true
    }

    open spec fn from_spec(other: U15) -> u32 {
        other@ as u32
    }
}

impl From<U15> for usize {
    fn from(other: U15) -> (r: usize) {
        other.into_usize()
    }
}

impl FromSpecImpl<U15> for usize {
    open spec fn obeys_from_spec() -> bool {
        true
    }

    open spec fn from_spec(other: U15) -> usize {
        other@ as usize
    }
}

impl From<U15> for i32 {
    fn from(other: U15) -> (r: i32) {
        other.into_i32()
    }
}

impl FromSpecImpl<U15> for i32 {
    open spec fn obeys_from_spec() -> bool {
        true
    }

    open spec fn from_spec(other: U15) -> i32 {
        other@ as i32
    }
}

impl TryFrom<U16> for u8 {
    type Error = RangeError;

    fn try_from(other: U16) -> (r: Result<u8, RangeError>) {
        other.try_into_u8()
    }
}

impl TryFromSpecImpl<U16> for u8 {
    open spec fn obeys_try_from_spec() -> bool {
        true
    }

    open spec fn try_from_spec(other: U16) -> Result<u8, RangeError> {
        checked_u8(other@)
    }
}

impl From<U16> for u16 {
    fn from(other: U16) -> (r: u16) {
        other.into_u16()
    }
}

impl FromSpecImpl<U16> for u16 {
    open spec fn obeys_from_spec() -> bool {
        true
    }

    open spec fn from_spec(other: U16) -> u16 {
        other@ as u16
    }
}

impl From<U16> for u32 {
    fn from(other: U16) -> (r: u32) {
        other.into_u32()
    }
}

impl FromSpecImpl<U16> for u32 {
    open spec fn obeys_from_spec() -> bool {
        true
    }

    open spec fn from_spec(other: U16) -> u32 {
        other@ as u32
    }
}

impl From<U16> for usize {
    fn from(other: U16) -> (r: usize) {
        other.into_usize()
    }
}

impl FromSpecImpl<U16> for usize {
    open spec fn obeys_from_spec() -> bool {
        true
    }

    open spec fn from_spec(other: U16) -> usize {
        other@ as usize
    }
}

impl From<U16> for i32 {
    fn from(other: U16) -> (r: i32) {
        other.into_i32()
    }
}

impl FromSpecImpl<U16> for i32 {
    open spec fn obeys_from_spec() -> bool {
        true
    }

    open spec fn from_spec(other: U16) -> i32 {
        other@ as i32
    }
}

impl TryFrom<U17> for u8 {
    type Error = RangeError;

    fn try_from(other: U17) -> (r: Result<u8, RangeError>) {
        other.try_into_u8()
    }
}

impl TryFromSpecImpl<U17> for u8 {
    open spec fn obeys_try_from_spec() -> bool {
        true
    }

    open spec fn try_from_spec(other: U17) -> Result<u8, RangeError> {
        checked_u8(other@)
    }
}

impl TryFrom<U17> for u16 {
    type Error = RangeError;

    fn try_from(other: U17) -> (r: Result<u16, RangeError>) {
        other.try_into_u16()
    }
}

impl TryFromSpecImpl<U17> for u16 {
    open spec fn obeys_try_from_spec() -> bool {
        true
    }

    open spec fn try_from_spec(other: U17) -> Result<u16, RangeError> {
        checked_u16(other@)
    }
}

impl From<U17> for u32 {
    fn from(other: U17) -> (r: u32) {
        other.into_u32()
    }
}

impl FromSpecImpl<U17> for u32 {
    open spec fn obeys_from_spec() -> bool {
        true
    }

    open spec fn from_spec(other: U17) -> u32 {
        other@ as u32
    }
}

impl From<U17> for usize {
    fn from(other: U17) -> (r: usize) {
        other.into_usize()
    }
}

impl FromSpecImpl<U17> for usize {
    open spec fn obeys_from_spec() -> bool {
        true
    }

    open spec fn from_spec(other: U17) -> usize {
        other@ as usize
    }
}

impl From<U17> for i32 {
    fn from(other: U17) -> (r: i32) {
        other.into_i32()
    }
}

impl FromSpecImpl<U17> for i32 {
    open spec fn obeys_from_spec() -> bool {
        true
    }

    open spec fn from_spec(other: U17) -> i32 {
        other@ as i32
    }
}

impl TryFrom<U18> for u8 {
    type Error = RangeError;

    fn try_from(other: U18) -> (r: Result<u8, RangeError>) {
        other.try_into_u8()
    }
}

impl TryFromSpecImpl<U18> for u8 {
    open spec fn obeys_try_from_spec() -> bool {
        true
    }

    open spec fn try_from_spec(other: U18) -> Result<u8, RangeError> {
        checked_u8(other@)
    }
}

impl TryFrom<U18> for u16 {
    type Error = RangeError;

    fn try_from(other: U18) -> (r: Result<u16, RangeError>) {
        other.try_into_u16()
    }
}

impl TryFromSpecImpl<U18> for u16 {
    open spec fn obeys_try_from_spec() -> bool {
        true
    }

    open spec fn try_from_spec(other: U18) -> Result<u16, RangeError> {
        checked_u16(other@)
    }
}

impl From<U18> for u32 {
    fn from(other: U18) -> (r: u32) {
        other.into_u32()
    }
}

impl FromSpecImpl<U18> for u32 {
    open spec fn obeys_from_spec() -> bool {
        true
    }

    open spec fn from_spec(other: U18) -> u32 {
        other@ as u32
    }
}

impl From<U18> for usize {
    fn from(other: U18) -> (r: usize) {
        other.into_usize()
    }
}

impl FromSpecImpl<U18> for usize {
    open spec fn obeys_from_spec() -> bool {
        true
    }

    open spec fn from_spec(other: U18) -> usize {
        other@ as usize
    }
}

impl From<U18> for i32 {
    fn from(other: U18) -> (r: i32) {
        other.into_i32()
    }
}

impl FromSpecImpl<U18> for i32 {
    open spec fn obeys_from_spec() -> bool {
        true
    }

    open spec fn from_spec(other: U18) -> i32 {
        other@ as i32
    }
}

impl TryFrom<U19> for u8 {
    type Error = RangeError;

    fn try_from(other: U19) -> (r: Result<u8, RangeError>) {
        other.try_into_u8()
    }
}

impl TryFromSpecImpl<U19> for u8 {
    open spec fn obeys_try_from_spec() -> bool {
        true
    }

    open spec fn try_from_spec(other: U19) -> Result<u8, RangeError> {
        checked_u8(other@)
    }
}

impl TryFrom<U19> for u16 {
    type Error = RangeError;

    fn try_from(other: U19) -> (r: Result<u16, RangeError>) {
        other.try_into_u16()
    }
}

impl TryFromSpecImpl<U19> for u16 {
    open spec fn obeys_try_from_spec() -> bool {
        true
    }

    open spec fn try_from_spec(other: U19) -> Result<u16, RangeError> {
        checked_u16(other@)
    }
}

impl From<U19> for u32 {
    fn from(other: U19) -> (r: u32) {
        other.into_u32()
    }
}

impl FromSpecImpl<U19> for u32 {
    open spec fn obeys_from_spec() -> bool {
        true
    }

    open spec fn from_spec(other: U19) -> u32 {
        other@ as u32
    }
}

impl From<U19> for usize {
    fn from(other: U19) -> (r: usize) {
        other.into_usize()
    }
}

impl FromSpecImpl<U19> for usize {
    open spec fn obeys_from_spec() -> bool {
        true
    }

    open spec fn from_spec(other: U19) -> usize {
        other@ as usize
    }
}

impl From<U19> for i32 {
    fn from(other: U19) -> (r: i32) {
        other.into_i32()
    }
}

impl FromSpecImpl<U19> for i32 {
    open spec fn obeys_from_spec() -> bool {
        true
    }

    open spec fn from_spec(other: U19) -> i32 {
        other@ as i32
    }
}

impl TryFrom<U20> for u8 {
    type Error = RangeError;

    fn try_from(other: U20) -> (r: Result<u8, RangeError>) {
        other.try_into_u8()
    }
}

impl TryFromSpecImpl<U20> for u8 {
    open spec fn obeys_try_from_spec() -> bool {
        true
    }

    open spec fn try_from_spec(other: U20) -> Result<u8, RangeError> {
        checked_u8(other@)
    }
}

impl TryFrom<U20> for u16 {
    type Error = RangeError;

    fn try_from(other: U20) -> (r: Result<u16, RangeError>) {
        other.try_into_u16()
    }
}

impl TryFromSpecImpl<U20> for u16 {
    open spec fn obeys_try_from_spec() -> bool {
        true
    }

    open spec fn try_from_spec(other: U20) -> Result<u16, RangeError> {
        checked_u16(other@)
    }
}

impl From<U20> for u32 {
    fn from(other: U20) -> (r: u32) {
        other.into_u32()
    }
}

impl FromSpecImpl<U20> for u32 {
    open spec fn obeys_from_spec() -> bool {
        true
    }

    open spec fn from_spec(other: U20) -> u32 {
        other@ as u32
    }
}

impl From<U20> for usize {
    fn from(other: U20) -> (r: usize) {
        other.into_usize()
    }
}

impl FromSpecImpl<U20> for usize {
    open spec fn obeys_from_spec() -> bool {
        true
    }

    open spec fn from_spec(other: U20) -> usize {
        other@ as usize
    }
}

impl From<U20> for i32 {
    fn from(other: U20) -> (r: i32) {
        other.into_i32()
    }
}

impl FromSpecImpl<U20> for i32 {
    open spec fn obeys_from_spec() -> bool {
        true
    }

    open spec fn from_spec(other: U20) -> i32 {
        other@ as i32
    }
}

impl TryFrom<U21> for u8 {
    type Error = RangeError;

    fn try_from(other: U21) -> (r: Result<u8, RangeError>) {
        other.try_into_u8()
    }
}

impl TryFromSpecImpl<U21> for u8 {
    open spec fn obeys_try_from_spec() -> bool {
        true
    }

    open spec fn try_from_spec(other: U21) -> Result<u8, RangeError> {
        checked_u8(other@)
    }
}

impl TryFrom<U21> for u16 {
    type Error = RangeError;

    fn try_from(other: U21) -> (r: Result<u16, RangeError>) {
        other.try_into_u16()
    }
}

impl TryFromSpecImpl<U21> for u16 {
    open spec fn obeys_try_from_spec() -> bool {
        true
    }

    open spec fn try_from_spec(other: U21) -> Result<u16, RangeError> {
        checked_u16(other@)
    }
}

impl From<U21> for u32 {
    fn from(other: U21) -> (r: u32) {
        other.into_u32()
    }
}

impl FromSpecImpl<U21> for u32 {
    open spec fn obeys_from_spec() -> bool {
        true
    }

    open spec fn from_spec(other: U21) -> u32 {
        other@ as u32
    }
}

impl From<U21> for usize {
    fn from(other: U21) -> (r: usize) {
        other.into_usize()
    }
}

impl FromSpecImpl<U21> for usize {
    open spec fn obeys_from_spec() -> bool {
        true
    }

    open spec fn from_spec(other: U21) -> usize {
        other@ as usize
    }
}

impl From<U21> for i32 {
    fn from(other: U21) -> (r: i32) {
        other.into_i32()
    }
}

impl FromSpecImpl<U21> for i32 {
    open spec fn obeys_from_spec() -> bool {
        true
    }

    open spec fn from_spec(other: U21) -> i32 {
        other@ as i32
    }
}

impl TryFrom<U22> for u8 {
    type Error = RangeError;

    fn try_from(other: U22) -> (r: Result<u8, RangeError>) {
        other.try_into_u8()
    }
}

impl TryFromSpecImpl<U22> for u8 {
    open spec fn obeys_try_from_spec() -> bool {
        true
    }

    open spec fn try_from_spec(other: U22) -> Result<u8, RangeError> {
        checked_u8(other@)
    }
}

impl TryFrom<U22> for u16 {
    type Error = RangeError;

    fn try_from(other: U22) -> (r: Result<u16, RangeError>) {
        other.try_into_u16()
    }
}

impl TryFromSpecImpl<U22> for u16 {
    open spec fn obeys_try_from_spec() -> bool {
        true
    }

    open spec fn try_from_spec(other: U22) -> Result<u16, RangeError> {
        checked_u16(other@)
    }
}

impl From<U22> for u32 {
    fn from(other: U22) -> (r: u32) {
        other.into_u32()
    }
}

impl FromSpecImpl<U22> for u32 {
    open spec fn obeys_from_spec() -> bool {
        true
    }

    open spec fn from_spec(other: U22) -> u32 {
        other@ as u32
    }
}

impl From<U22> for usize {
    fn from(other: U22) -> (r: usize) {
        other.into_usize()
    }
}

impl FromSpecImpl<U22> for usize {
    open spec fn obeys_from_spec() -> bool {
        true
    }

    open spec fn from_spec(other: U22) -> usize {
        other@ as usize
    }
}

impl From<U22> for i32 {
    fn from(other: U22) -> (r: i32) {
        other.into_i32()
    }
}

impl FromSpecImpl<U22> for i32 {
    open spec fn obeys_from_spec() -> bool {
        true
    }

    open spec fn from_spec(other: U22) -> i32 {
        other@ as i32
    }
}

impl TryFrom<U23> for u8 {
    type Error = RangeError;

    fn try_from(other: U23) -> (r: Result<u8, RangeError>) {
        other.try_into_u8()
    }
}

impl TryFromSpecImpl<U23> for u8 {
    open spec fn obeys_try_from_spec() -> bool {
        true
    }

    open spec fn try_from_spec(other: U23) -> Result<u8, RangeError> {
        checked_u8(other@)
    }
}

impl TryFrom<U23> for u16 {
    type Error = RangeError;

    fn try_from(other: U23) -> (r: Result<u16, RangeError>) {
        other.try_into_u16()
    }
}

impl TryFromSpecImpl<U23> for u16 {
    open spec fn obeys_try_from_spec() -> bool {
        true
    }

    open spec fn try_from_spec(other: U23) -> Result<u16, RangeError> {
        checked_u16(other@)
    }
}

impl From<U23> for u32 {
    fn from(other: U23) -> (r: u32) {
        other.into_u32()
    }
}

impl FromSpecImpl<U23> for u32 {
    open spec fn obeys_from_spec() -> bool {
        true
    }

    open spec fn from_spec(other: U23) -> u32 {
        other@ as u32
    }
}

impl From<U23> for usize {
    fn from(other: U23) -> (r: usize) {
        other.into_usize()
    }
}

impl FromSpecImpl<U23> for usize {
    open spec fn obeys_from_spec() -> bool {
        true
    }

    open spec fn from_spec(other: U23) -> usize {
        other@ as usize
    }
}

impl From<U23> for i32 {
    fn from(other: U23) -> (r: i32) {
        other.into_i32()
    }
}

impl FromSpecImpl<U23> for i32 {
    open spec fn obeys_from_spec() -> bool {
        true
    }

    open spec fn from_spec(other: U23) -> i32 {
        other@ as i32
    }
}

impl TryFrom<U24> for u8 {
    type Error = RangeError;

    fn try_from(other: U24) -> (r: Result<u8, RangeError>) {
        other.try_into_u8()
    }
}

impl TryFromSpecImpl<U24> for u8 {
    open spec fn obeys_try_from_spec() -> bool {
        true
    }

    open spec fn try_from_spec(other: U24) -> Result<u8, RangeError> {
        checked_u8(other@)
    }
}

impl TryFrom<U24> for u16 {
    type Error = RangeError;

    fn try_from(other: U24) -> (r: Result<u16, RangeError>) {
        other.try_into_u16()
    }
}

impl TryFromSpecImpl<U24> for u16 {
    open spec fn obeys_try_from_spec() -> bool {
        true
    }

    open spec fn try_from_spec(other: U24) -> Result<u16, RangeError> {
        checked_u16(other@)
    }
}

impl From<U24> for u32 {
    fn from(other: U24) -> (r: u32) {
        other.into_u32()
    }
}

impl FromSpecImpl<U24> for u32 {
    open spec fn obeys_from_spec() -> bool {
        true
    }

    open spec fn from_spec(other: U24) -> u32 {
        other@ as u32
    }
}

impl From<U24> for usize {
    fn from(other: U24) -> (r: usize) {
        other.into_usize()
    }
}

impl FromSpecImpl<U24> for usize {
    open spec fn obeys_from_spec() -> bool {
        true
    }

    open spec fn from_spec(other: U24) -> usize {
        other@ as usize
    }
}

impl From<U24> for i32 {
    fn from(other: U24) -> (r: i32) {
        other.into_i32()
    }
}

impl FromSpecImpl<U24> for i32 {
    open spec fn obeys_from_spec() -> bool {
        true
    }

    open spec fn from_spec(other: U24) -> i32 {
        other@ as i32
    }
}

impl TryFrom<U25> for u8 {
    type Error = RangeError;

    fn try_from(other: U25) -> (r: Result<u8, RangeError>) {
        other.try_into_u8()
    }
}

impl TryFromSpecImpl<U25> for u8 {
    open spec fn obeys_try_from_spec() -> bool {
        true
    }

    open spec fn try_from_spec(other: U25) -> Result<u8, RangeError> {
        checked_u8(other@)
    }
}

impl TryFrom<U25> for u16 {
    type Error = RangeError;

    fn try_from(other: U25) -> (r: Result<u16, RangeError>) {
        other.try_into_u16()
    }
}

impl TryFromSpecImpl<U25> for u16 {
    open spec fn obeys_try_from_spec() -> bool {
        true
    }

    open spec fn try_from_spec(other: U25) -> Result<u16, RangeError> {
        checked_u16(other@)
    }
}

impl From<U25> for u32 {
    fn from(other: U25) -> (r: u32) {
        other.into_u32()
    }
}

impl FromSpecImpl<U25> for u32 {
    open spec fn obeys_from_spec() -> bool {
        true
    }

    open spec fn from_spec(other: U25) -> u32 {
        other@ as u32
    }
}

impl From<U25> for usize {
    fn from(other: U25) -> (r: usize) {
        other.into_usize()
    }
}

impl FromSpecImpl<U25> for usize {
    open spec fn obeys_from_spec() -> bool {
        true
    }

    open spec fn from_spec(other: U25) -> usize {
        other@ as usize
    }
}

impl From<U25> for i32 {
    fn from(other: U25) -> (r: i32) {
        other.into_i32()
    }
}

impl FromSpecImpl<U25> for i32 {
    open spec fn obeys_from_spec() -> bool {
        true
    }

    open spec fn from_spec(other: U25) -> i32 {
        other@ as i32
    }
}

impl TryFrom<U26> for u8 {
    type Error = RangeError;

    fn try_from(other: U26) -> (r: Result<u8, RangeError>) {
        other.try_into_u8()
    }
}

impl TryFromSpecImpl<U26> for u8 {
    open spec fn obeys_try_from_spec() -> bool {
        true
    }

    open spec fn try_from_spec(other: U26) -> Result<u8, RangeError> {
        checked_u8(other@)
    }
}

impl TryFrom<U26> for u16 {
    type Error = RangeError;

    fn try_from(other: U26) -> (r: Result<u16, RangeError>) {
        other.try_into_u16()
    }
}

impl TryFromSpecImpl<U26> for u16 {
    open spec fn obeys_try_from_spec() -> bool {
        true
    }

    open spec fn try_from_spec(other: U26) -> Result<u16, RangeError> {
        checked_u16(other@)
    }
}

impl From<U26> for u32 {
    fn from(other: U26) -> (r: u32) {
        other.into_u32()
    }
}

impl FromSpecImpl<U26> for u32 {
    open spec fn obeys_from_spec() -> bool {
        true
    }

    open spec fn from_spec(other: U26) -> u32 {
        other@ as u32
    }
}

impl From<U26> for usize {
    fn from(other: U26) -> (r: usize) {
        other.into_usize()
    }
}

impl FromSpecImpl<U26> for usize {
    open spec fn obeys_from_spec() -> bool {
        true
    }

    open spec fn from_spec(other: U26) -> usize {
        other@ as usize
    }
}

impl From<U26> for i32 {
    fn from(other: U26) -> (r: i32) {
        other.into_i32()
    }
}

impl FromSpecImpl<U26> for i32 {
    open spec fn obeys_from_spec() -> bool {
        true
    }

    open spec fn from_spec(other: U26) -> i32 {
        other@ as i32
    }
}

impl TryFrom<U27> for u8 {
    type Error = RangeError;

    fn try_from(other: U27) -> (r: Result<u8, RangeError>) {
        other.try_into_u8()
    }
}

impl TryFromSpecImpl<U27> for u8 {
    open spec fn obeys_try_from_spec() -> bool {
        true
    }

    open spec fn try_from_spec(other: U27) -> Result<u8, RangeError> {
        checked_u8(other@)
    }
}

impl TryFrom<U27> for u16 {
    type Error = RangeError;

    fn try_from(other: U27) -> (r: Result<u16, RangeError>) {
        other.try_into_u16()
    }
}

impl TryFromSpecImpl<U27> for u16 {
    open spec fn obeys_try_from_spec() -> bool {
        true
    }

    open spec fn try_from_spec(other: U27) -> Result<u16, RangeError> {
        checked_u16(other@)
    }
}

impl From<U27> for u32 {
    fn from(other: U27) -> (r: u32) {
        other.into_u32()
    }
}

impl FromSpecImpl<U27> for u32 {
    open spec fn obeys_from_spec() -> bool {
        true
    }

    open spec fn from_spec(other: U27) -> u32 {
        other@ as u32
    }
}

impl From<U27> for usize {
    fn from(other: U27) -> (r: usize) {
        other.into_usize()
    }
}

impl FromSpecImpl<U27> for usize {
    open spec fn obeys_from_spec() -> bool {
        true
    }

    open spec fn from_spec(other: U27) -> usize {
        other@ as usize
    }
}

impl From<U27> for i32 {
    fn from(other: U27) -> (r: i32) {
        other.into_i32()
    }
}

impl FromSpecImpl<U27> for i32 {
    open spec fn obeys_from_spec() -> bool {
        true
    }

    open spec fn from_spec(other: U27) -> i32 {
        other@ as i32
    }
}

impl TryFrom<U28> for u8 {
    type Error = RangeError;

    fn try_from(other: U28) -> (r: Result<u8, RangeError>) {
        other.try_into_u8()
    }
}

impl TryFromSpecImpl<U28> for u8 {
    open spec fn obeys_try_from_spec() -> bool {
        true
    }

    open spec fn try_from_spec(other: U28) -> Result<u8, RangeError> {
        checked_u8(other@)
    }
}

impl TryFrom<U28> for u16 {
    type Error = RangeError;

    fn try_from(other: U28) -> (r: Result<u16, RangeError>) {
        other.try_into_u16()
    }
}

impl TryFromSpecImpl<U28> for u16 {
    open spec fn obeys_try_from_spec() -> bool {
        true
    }

    open spec fn try_from_spec(other: U28) -> Result<u16, RangeError> {
        checked_u16(other@)
    }
}

impl From<U28> for u32 {
    fn from(other: U28) -> (r: u32) {
        other.into_u32()
    }
}

impl FromSpecImpl<U28> for u32 {
    open spec fn obeys_from_spec() -> bool {
        true
    }

    open spec fn from_spec(other: U28) -> u32 {
        other@ as u32
    }
}

impl From<U28> for usize {
    fn from(other: U28) -> (r: usize) {
        other.into_usize()
    }
}

impl FromSpecImpl<U28> for usize {
    open spec fn obeys_from_spec() -> bool {
        true
    }

    open spec fn from_spec(other: U28) -> usize {
        other@ as usize
    }
}

impl From<U28> for i32 {
    fn from(other: U28) -> (r: i32) {
        other.into_i32()
    }
}

impl FromSpecImpl<U28> for i32 {
    open spec fn obeys_from_spec() -> bool {
        true
    }

    open spec fn from_spec(other: U28) -> i32 {
        other@ as i32
    }
}

impl TryFrom<U29> for u8 {
    type Error = RangeError;

    fn try_from(other: U29) -> (r: Result<u8, RangeError>) {
        other.try_into_u8()
    }
}

impl TryFromSpecImpl<U29> for u8 {
    open spec fn obeys_try_from_spec() -> bool {
        true
    }

    open spec fn try_from_spec(other: U29) -> Result<u8, RangeError> {
        checked_u8(other@)
    }
}

impl TryFrom<U29> for u16 {
    type Error = RangeError;

    fn try_from(other: U29) -> (r: Result<u16, RangeError>) {
        other.try_into_u16()
    }
}

impl TryFromSpecImpl<U29> for u16 {
    open spec fn obeys_try_from_spec() -> bool {
        true
    }

    open spec fn try_from_spec(other: U29) -> Result<u16, RangeError> {
        checked_u16(other@)
    }
}

impl From<U29> for u32 {
    fn from(other: U29) -> (r: u32) {
        other.into_u32()
    }
}

impl FromSpecImpl<U29> for u32 {
    open spec fn obeys_from_spec() -> bool {
        true
    }

    open spec fn from_spec(other: U29) -> u32 {
        other@ as u32
    }
}

impl From<U29> for usize {
    fn from(other: U29) -> (r: usize) {
        other.into_usize()
    }
}

impl FromSpecImpl<U29> for usize {
    open spec fn obeys_from_spec() -> bool {
        true
    }

    open spec fn from_spec(other: U29) -> usize {
        other@ as usize
    }
}

impl From<U29> for i32 {
    fn from(other: U29) -> (r: i32) {
        other.into_i32()
    }
}

impl FromSpecImpl<U29> for i32 {
    open spec fn obeys_from_spec() -> bool {
        true
    }

    open spec fn from_spec(other: U29) -> i32 {
        other@ as i32
    }
}

impl TryFrom<U30> for u8 {
    type Error = RangeError;

    fn try_from(other: U30) -> (r: Result<u8, RangeError>) {
        other.try_into_u8()
    }
}

impl TryFromSpecImpl<U30> for u8 {
    open spec fn obeys_try_from_spec() -> bool {
        true
    }

    open spec fn try_from_spec(other: U30) -> Result<u8, RangeError> {
        checked_u8(other@)
    }
}

impl TryFrom<U30> for u16 {
    type Error = RangeError;

    fn try_from(other: U30) -> (r: Result<u16, RangeError>) {
        other.try_into_u16()
    }
}

impl TryFromSpecImpl<U30> for u16 {
    open spec fn obeys_try_from_spec() -> bool {
        true
    }

    open spec fn try_from_spec(other: U30) -> Result<u16, RangeError> {
        checked_u16(other@)
    }
}

impl From<U30> for u32 {
    fn from(other: U30) -> (r: u32) {
        other.into_u32()
    }
}

impl FromSpecImpl<U30> for u32 {
    open spec fn obeys_from_spec() -> bool {
        true
    }

    open spec fn from_spec(other: U30) -> u32 {
        other@ as u32
    }
}

impl From<U30> for usize {
    fn from(other: U30) -> (r: usize) {
        other.into_usize()
    }
}

impl FromSpecImpl<U30> for usize {
    open spec fn obeys_from_spec() -> bool {
        true
    }

    open spec fn from_spec(other: U30) -> usize {
        other@ as usize
    }
}

impl From<U30> for i32 {
    fn from(other: U30) -> (r: i32) {
        other.into_i32()
    }
}

impl FromSpecImpl<U30> for i32 {
    open spec fn obeys_from_spec() -> bool {
        true
    }

    open spec fn from_spec(other: U30) -> i32 {
        other@ as i32
    }
}

impl TryFrom<U31> for u8 {
    type Error = RangeError;

    fn try_from(other: U31) -> (r: Result<u8, RangeError>) {
        other.try_into_u8()
    }
}

impl TryFromSpecImpl<U31> for u8 {
    open spec fn obeys_try_from_spec() -> bool {
        true
    }

    open spec fn try_from_spec(other: U31) -> Result<u8, RangeError> {
        checked_u8(other@)
    }
}

impl TryFrom<U31> for u16 {
    type Error = RangeError;

    fn try_from(other: U31) -> (r: Result<u16, RangeError>) {
        other.try_into_u16()
    }
}

impl TryFromSpecImpl<U31> for u16 {
    open spec fn obeys_try_from_spec() -> bool {
        true
    }

    open spec fn try_from_spec(other: U31) -> Result<u16, RangeError> {
        checked_u16(other@)
    }
}

impl From<U31> for u32 {
    fn from(other: U31) -> (r: u32) {
        other.into_u32()
    }
}

impl FromSpecImpl<U31> for u32 {
    open spec fn obeys_from_spec() -> bool {
        true
    }

    open spec fn from_spec(other: U31) -> u32 {
        other@ as u32
    }
}

impl From<U31> for usize {
    fn from(other: U31) -> (r: usize) {
        other.into_usize()
    }
}

impl FromSpecImpl<U31> for usize {
    open spec fn obeys_from_spec() -> bool {
        true
    }

    open spec fn from_spec(other: U31) -> usize {
        other@ as usize
    }
}

impl From<U31> for i32 {
    fn from(other: U31) -> (r: i32) {
        other.into_i32()
    }
}

impl FromSpecImpl<U31> for i32 {
    open spec fn obeys_from_spec() -> bool {
        true
    }

    open spec fn from_spec(other: U31) -> i32 {
        other@ as i32
    }
}

impl TryFrom<U32> for u8 {
    type Error = RangeError;

    fn try_from(other: U32) -> (r: Result<u8, RangeError>) {
        other.try_into_u8()
    }
}

impl TryFromSpecImpl<U32> for u8 {
    open spec fn obeys_try_from_spec() -> bool {
        true
    }

    open spec fn try_from_spec(other: U32) -> Result<u8, RangeError> {
        checked_u8(other@)
    }
}

impl TryFrom<U32> for u16 {
    type Error = RangeError;

    fn try_from(other: U32) -> (r: Result<u16, RangeError>) {
        other.try_into_u16()
    }
}

impl TryFromSpecImpl<U32> for u16 {
    open spec fn obeys_try_from_spec() -> bool {
        true
    }

    open spec fn try_from_spec(other: U32) -> Result<u16, RangeError> {
        checked_u16(other@)
    }
}

impl From<U32> for u32 {
    fn from(other: U32) -> (r: u32) {
        other.into_u32()
    }
}

impl FromSpecImpl<U32> for u32 {
    open spec fn obeys_from_spec() -> bool {
        true
    }

    open spec fn from_spec(other: U32) -> u32 {
        other@ as u32
    }
}

impl From<U32> for usize {
    fn from(other: U32) -> (r: usize) {
        other.into_usize()
    }
}

impl FromSpecImpl<U32> for usize {
    open spec fn obeys_from_spec() -> bool {
        true
    }

    open spec fn from_spec(other: U32) -> usize {
        other@ as usize
    }
}

impl TryFrom<U32> for i32 {
    type Error = RangeError;

    fn try_from(other: U32) -> (r: Result<i32, RangeError>) {
        other.try_into_i32()
    }
}

impl TryFromSpecImpl<U32> for i32 {
    open spec fn obeys_try_from_spec() -> bool {
        true
    }

    open spec fn try_from_spec(other: U32) -> Result<i32, RangeError> {
        checked_i32(other@)
    }
}

} // verus!
