//! `==` between a bit-width value and an `i32`: whether the number held is
//! that integer. No value equals a negative one.

use crate::bits::enums::{U1, U2, U3, U4, U5, U6};
use crate::bits::medium::{U10, U11, U12, U13, U14, U15, U16, U9};
use crate::bits::narrow::{U7, U8};
use crate::bits::wide::{
    U17, U18, U19, U20, U21, U22, U23, U24, U25, U26, U27, U28, U29, U30, U31, U32,
};
use crate::bits::BitField;
use vstd::prelude::*;
use vstd::std_specs::cmp::PartialEqSpecImpl;

verus! {

impl PartialEq<i32> for U1 {
    fn eq(&self, other: &i32) -> (r: bool) {
        self.eq_i32(*other)
    }
}

impl PartialEqSpecImpl<i32> for U1 {
    open spec fn obeys_eq_spec() -> bool {
        true
    }

    open spec fn eq_spec(&self, other: &i32) -> bool {
        self@ == *other
    }
}

impl PartialEq<i32> for U2 {
    fn eq(&self, other: &i32) -> (r: bool) {
        self.eq_i32(*other)
    }
}

impl PartialEqSpecImpl<i32> for U2 {
    open spec fn obeys_eq_spec() -> bool {
        true
    }

    open spec fn eq_spec(&self, other: &i32) -> bool {
        self@ == *other
    }
}

impl PartialEq<i32> for U3 {
    fn eq(&self, other: &i32) -> (r: bool) {
        self.eq_i32(*other)
    }
}

impl PartialEqSpecImpl<i32> for U3 {
    open spec fn obeys_eq_spec() -> bool {
        true
    }

    open spec fn eq_spec(&self, other: &i32) -> bool {
        self@ == *other
    }
}

impl PartialEq<i32> for U4 {
    fn eq(&self, other: &i32) -> (r: bool) {
        self.eq_i32(*other)
    }
}

impl PartialEqSpecImpl<i32> for U4 {
    open spec fn obeys_eq_spec() -> bool {
        true
    }

    open spec fn eq_spec(&self, other: &i32) -> bool {
        self@ == *other
    }
}

impl PartialEq<i32> for U5 {
    fn eq(&self, other: &i32) -> (r: bool) {
        self.eq_i32(*other)
    }
}

impl PartialEqSpecImpl<i32> for U5 {
    open spec fn obeys_eq_spec() -> bool {
        true
    }

    open spec fn eq_spec(&self, other: &i32) -> bool {
        self@ == *other
    }
}

impl PartialEq<i32> for U6 {
    fn eq(&self, other: &i32) -> (r: bool) {
        self.eq_i32(*other)
    }
}

impl PartialEqSpecImpl<i32> for U6 {
    open spec fn obeys_eq_spec() -> bool {
        true
    }

    open spec fn eq_spec(&self, other: &i32) -> bool {
        self@ == *other
    }
}

impl PartialEq<i32> for U7 {
    fn eq(&self, other: &i32) -> (r: bool) {
        self.eq_i32(*other)
    }
}

impl PartialEqSpecImpl<i32> for U7 {
    open spec fn obeys_eq_spec() -> bool {
        true
    }

    open spec fn eq_spec(&self, other: &i32) -> bool {
        self@ == *other
    }
}

impl PartialEq<i32> for U8 {
    fn eq(&self, other: &i32) -> (r: bool) {
        self.eq_i32(*other)
    }
}

impl PartialEqSpecImpl<i32> for U8 {
    open spec fn obeys_eq_spec() -> bool {
        true
    }

    open spec fn eq_spec(&self, other: &i32) -> bool {
        self@ == *other
    }
}

impl PartialEq<i32> for U9 {
    fn eq(&self, other: &i32) -> (r: bool) {
        self.eq_i32(*other)
    }
}

impl PartialEqSpecImpl<i32> for U9 {
    open spec fn obeys_eq_spec() -> bool {
        true
    }

    open spec fn eq_spec(&self, other: &i32) -> bool {
        self@ == *other
    }
}

impl PartialEq<i32> for U10 {
    fn eq(&self, other: &i32) -> (r: bool) {
        self.eq_i32(*other)
    }
}

impl PartialEqSpecImpl<i32> for U10 {
    open spec fn obeys_eq_spec() -> bool {
        true
    }

    open spec fn eq_spec(&self, other: &i32) -> bool {
        self@ == *other
    }
}

impl PartialEq<i32> for U11 {
    fn eq(&self, other: &i32) -> (r: bool) {
        self.eq_i32(*other)
    }
}

impl PartialEqSpecImpl<i32> for U11 {
    open spec fn obeys_eq_spec() -> bool {
        true
    }

    open spec fn eq_spec(&self, other: &i32) -> bool {
        self@ == *other
    }
}

impl PartialEq<i32> for U12 {
    fn eq(&self, other: &i32) -> (r: bool) {
        self.eq_i32(*other)
    }
}

impl PartialEqSpecImpl<i32> for U12 {
    open spec fn obeys_eq_spec() -> bool {
        true
    }

    open spec fn eq_spec(&self, other: &i32) -> bool {
        self@ == *other
    }
}

impl PartialEq<i32> for U13 {
    fn eq(&self, other: &i32) -> (r: bool) {
        self.eq_i32(*other)
    }
}

impl PartialEqSpecImpl<i32> for U13 {
    open spec fn obeys_eq_spec() -> bool {
        true
    }

    open spec fn eq_spec(&self, other: &i32) -> bool {
        self@ == *other
    }
}

impl PartialEq<i32> for U14 {
    fn eq(&self, other: &i32) -> (r: bool) {
        self.eq_i32(*other)
    }
}

impl PartialEqSpecImpl<i32> for U14 {
    open spec fn obeys_eq_spec() -> bool {
        true
    }

    open spec fn eq_spec(&self, other: &i32) -> bool {
        self@ == *other
    }
}

impl PartialEq<i32> for U15 {
    fn eq(&self, other: &i32) -> (r: bool) {
        self.eq_i32(*other)
    }
}

impl PartialEqSpecImpl<i32> for U15 {
    open spec fn obeys_eq_spec() -> bool {
        true
    }

    open spec fn eq_spec(&self, other: &i32) -> bool {
        self@ == *other
    }
}

impl PartialEq<i32> for U16 {
    fn eq(&self, other: &i32) -> (r: bool) {
        self.eq_i32(*other)
    }
}

impl PartialEqSpecImpl<i32> for U16 {
    open spec fn obeys_eq_spec() -> bool {
        true
    }

    open spec fn eq_spec(&self, other: &i32) -> bool {
        self@ == *other
    }
}

impl PartialEq<i32> for U17 {
    fn eq(&self, other: &i32) -> (r: bool) {
        self.eq_i32(*other)
    }
}

impl PartialEqSpecImpl<i32> for U17 {
    open spec fn obeys_eq_spec() -> bool {
        true
    }

    open spec fn eq_spec(&self, other: &i32) -> bool {
        self@ == *other
    }
}

impl PartialEq<i32> for U18 {
    fn eq(&self, other: &i32) -> (r: bool) {
        self.eq_i32(*other)
    }
}

impl PartialEqSpecImpl<i32> for U18 {
    open spec fn obeys_eq_spec() -> bool {
        true
    }

    open spec fn eq_spec(&self, other: &i32) -> bool {
        self@ == *other
    }
}

impl PartialEq<i32> for U19 {
    fn eq(&self, other: &i32) -> (r: bool) {
        self.eq_i32(*other)
    }
}

impl PartialEqSpecImpl<i32> for U19 {
    open spec fn obeys_eq_spec() -> bool {
        true
    }

    open spec fn eq_spec(&self, other: &i32) -> bool {
        self@ == *other
    }
}

impl PartialEq<i32> for U20 {
    fn eq(&self, other: &i32) -> (r: bool) {
        self.eq_i32(*other)
    }
}

impl PartialEqSpecImpl<i32> for U20 {
    open spec fn obeys_eq_spec() -> bool {
        true
    }

    open spec fn eq_spec(&self, other: &i32) -> bool {
        self@ == *other
    }
}

impl PartialEq<i32> for U21 {
    fn eq(&self, other: &i32) -> (r: bool) {
        self.eq_i32(*other)
    }
}

impl PartialEqSpecImpl<i32> for U21 {
    open spec fn obeys_eq_spec() -> bool {
        true
    }

    open spec fn eq_spec(&self, other: &i32) -> bool {
        self@ == *other
    }
}

impl PartialEq<i32> for U22 {
    fn eq(&self, other: &i32) -> (r: bool) {
        self.eq_i32(*other)
    }
}

impl PartialEqSpecImpl<i32> for U22 {
    open spec fn obeys_eq_spec() -> bool {
        true
    }

    open spec fn eq_spec(&self, other: &i32) -> bool {
        self@ == *other
    }
}

impl PartialEq<i32> for U23 {
    fn eq(&self, other: &i32) -> (r: bool) {
        self.eq_i32(*other)
    }
}

impl PartialEqSpecImpl<i32> for U23 {
    open spec fn obeys_eq_spec() -> bool {
        true
    }

    open spec fn eq_spec(&self, other: &i32) -> bool {
        self@ == *other
    }
}

impl PartialEq<i32> for U24 {
    fn eq(&self, other: &i32) -> (r: bool) {
        self.eq_i32(*other)
    }
}

impl PartialEqSpecImpl<i32> for U24 {
    open spec fn obeys_eq_spec() -> bool {
        true
    }

    open spec fn eq_spec(&self, other: &i32) -> bool {
        self@ == *other
    }
}

impl PartialEq<i32> for U25 {
    fn eq(&self, other: &i32) -> (r: bool) {
        self.eq_i32(*other)
    }
}

impl PartialEqSpecImpl<i32> for U25 {
    open spec fn obeys_eq_spec() -> bool {
        true
    }

    open spec fn eq_spec(&self, other: &i32) -> bool {
        self@ == *other
    }
}

impl PartialEq<i32> for U26 {
    fn eq(&self, other: &i32) -> (r: bool) {
        self.eq_i32(*other)
    }
}

impl PartialEqSpecImpl<i32> for U26 {
    open spec fn obeys_eq_spec() -> bool {
        true
    }

    open spec fn eq_spec(&self, other: &i32) -> bool {
        self@ == *other
    }
}

impl PartialEq<i32> for U27 {
    fn eq(&self, other: &i32) -> (r: bool) {
        self.eq_i32(*other)
    }
}

impl PartialEqSpecImpl<i32> for U27 {
    open spec fn obeys_eq_spec() -> bool {
        true
    }

    open spec fn eq_spec(&self, other: &i32) -> bool {
        self@ == *other
    }
}

impl PartialEq<i32> for U28 {
    fn eq(&self, other: &i32) -> (r: bool) {
        self.eq_i32(*other)
    }
}

impl PartialEqSpecImpl<i32> for U28 {
    open spec fn obeys_eq_spec() -> bool {
        true
    }

    open spec fn eq_spec(&self, other: &i32) -> bool {
        self@ == *other
    }
}

impl PartialEq<i32> for U29 {
    fn eq(&self, other: &i32) -> (r: bool) {
        self.eq_i32(*other)
    }
}

impl PartialEqSpecImpl<i32> for U29 {
    open spec fn obeys_eq_spec() -> bool {
        true
    }

    open spec fn eq_spec(&self, other: &i32) -> bool {
        self@ == *other
    }
}

impl PartialEq<i32> for U30 {
    fn eq(&self, other: &i32) -> (r: bool) {
        self.eq_i32(*other)
    }
}

impl PartialEqSpecImpl<i32> for U30 {
    open spec fn obeys_eq_spec() -> bool {
        true
    }

    open spec fn eq_spec(&self, other: &i32) -> bool {
        self@ == *other
    }
}

impl PartialEq<i32> for U31 {
    fn eq(&self, other: &i32) -> (r: bool) {
        self.eq_i32(*other)
    }
}

impl PartialEqSpecImpl<i32> for U31 {
    open spec fn obeys_eq_spec() -> bool {
        true
    }

    open spec fn eq_spec(&self, other: &i32) -> bool {
        self@ == *other
    }
}

impl PartialEq<i32> for U32 {
    fn eq(&self, other: &i32) -> (r: bool) {
        self.eq_i32(*other)
    }
}

impl PartialEqSpecImpl<i32> for U32 {
    open spec fn obeys_eq_spec() -> bool {
        true
    }

    open spec fn eq_spec(&self, other: &i32) -> bool {
        self@ == *other
    }
}

} // verus!
