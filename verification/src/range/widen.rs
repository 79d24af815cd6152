//! Widening between ranges: an index into fewer items converts, without a
//! check, into an index into more. There is one conversion for each pair of
//! a smaller and a larger range, so that a conversion the other way does not
//! exist.

use crate::range::large::{R17, R18, R19, R20, R21, R22, R23, R24, R25, R26, R27, R28, R29, R30, R31, R32};
use crate::range::small::{R1, R10, R11, R12, R13, R14, R15, R16, R2, R3, R4, R5, R6, R7, R8, R9};
use crate::range::{widen, RangeIndex};
use vstd::prelude::*;
use vstd::std_specs::convert::FromSpecImpl;

verus! {

impl From<R1> for R2 {
    fn from(other: R1) -> (r: R2) {
        widen(other)
    }
}

impl FromSpecImpl<R1> for R2 {
    open spec fn obeys_from_spec() -> bool {
        true
    }

    open spec fn from_spec(other: R1) -> R2 {
        R2::from_nat(other@)
    }
}

impl From<R1> for R3 {
    fn from(other: R1) -> (r: R3) {
        widen(other)
    }
}

impl FromSpecImpl<R1> for R3 {
    open spec fn obeys_from_spec() -> bool {
        true
    }

    open spec fn from_spec(other: R1) -> R3 {
        R3::from_nat(other@)
    }
}

impl From<R2> for R3 {
    fn from(other: R2) -> (r: R3) {
        widen(other)
    }
}

impl FromSpecImpl<R2> for R3 {
    open spec fn obeys_from_spec() -> bool {
        true
    }

    open spec fn from_spec(other: R2) -> R3 {
        R3::from_nat(other@)
    }
}

impl From<R1> for R4 {
    fn from(other: R1) -> (r: R4) {
        widen(other)
    }
}

impl FromSpecImpl<R1> for R4 {
    open spec fn obeys_from_spec() -> bool {
        true
    }

    open spec fn from_spec(other: R1) -> R4 {
        R4::from_nat(other@)
    }
}

impl From<R2> for R4 {
    fn from(other: R2) -> (r: R4) {
        widen(other)
    }
}

impl FromSpecImpl<R2> for R4 {
    open spec fn obeys_from_spec() -> bool {
        true
    }

    open spec fn from_spec(other: R2) -> R4 {
        R4::from_nat(other@)
    }
}

impl From<R3> for R4 {
    fn from(other: R3) -> (r: R4) {
        widen(other)
    }
}

impl FromSpecImpl<R3> for R4 {
    open spec fn obeys_from_spec() -> bool {
        true
    }

    open spec fn from_spec(other: R3) -> R4 {
        R4::from_nat(other@)
    }
}

impl From<R1> for R5 {
    fn from(other: R1) -> (r: R5) {
        widen(other)
    }
}

impl FromSpecImpl<R1> for R5 {
    open spec fn obeys_from_spec() -> bool {
        true
    }

    open spec fn from_spec(other: R1) -> R5 {
        R5::from_nat(other@)
    }
}

impl From<R2> for R5 {
    fn from(other: R2) -> (r: R5) {
        widen(other)
    }
}

impl FromSpecImpl<R2> for R5 {
    open spec fn obeys_from_spec() -> bool {
        true
    }

    open spec fn from_spec(other: R2) -> R5 {
        R5::from_nat(other@)
    }
}

impl From<R3> for R5 {
    fn from(other: R3) -> (r: R5) {
        widen(other)
    }
}

impl FromSpecImpl<R3> for R5 {
    open spec fn obeys_from_spec() -> bool {
        true
    }

    open spec fn from_spec(other: R3) -> R5 {
        R5::from_nat(other@)
    }
}

impl From<R4> for R5 {
    fn from(other: R4) -> (r: R5) {
        widen(other)
    }
}

impl FromSpecImpl<R4> for R5 {
    open spec fn obeys_from_spec() -> bool {
        true
    }

    open spec fn from_spec(other: R4) -> R5 {
        R5::from_nat(other@)
    }
}

impl From<R1> for R6 {
    fn from(other: R1) -> (r: R6) {
        widen(other)
    }
}

impl FromSpecImpl<R1> for R6 {
    open spec fn obeys_from_spec() -> bool {
        true
    }

    open spec fn from_spec(other: R1) -> R6 {
        R6::from_nat(other@)
    }
}

impl From<R2> for R6 {
    fn from(other: R2) -> (r: R6) {
        widen(other)
    }
}

impl FromSpecImpl<R2> for R6 {
    open spec fn obeys_from_spec() -> bool {
        true
    }

    open spec fn from_spec(other: R2) -> R6 {
        R6::from_nat(other@)
    }
}

impl From<R3> for R6 {
    fn from(other: R3) -> (r: R6) {
        widen(other)
    }
}

impl FromSpecImpl<R3> for R6 {
    open spec fn obeys_from_spec() -> bool {
        true
    }

    open spec fn from_spec(other: R3) -> R6 {
        R6::from_nat(other@)
    }
}

impl From<R4> for R6 {
    fn from(other: R4) -> (r: R6) {
        widen(other)
    }
}

impl FromSpecImpl<R4> for R6 {
    open spec fn obeys_from_spec() -> bool {
        true
    }

    open spec fn from_spec(other: R4) -> R6 {
        R6::from_nat(other@)
    }
}

impl From<R5> for R6 {
    fn from(other: R5) -> (r: R6) {
        widen(other)
    }
}

impl FromSpecImpl<R5> for R6 {
    open spec fn obeys_from_spec() -> bool {
        true
    }

    open spec fn from_spec(other: R5) -> R6 {
        R6::from_nat(other@)
    }
}

impl From<R1> for R7 {
    fn from(other: R1) -> (r: R7) {
        widen(other)
    }
}

impl FromSpecImpl<R1> for R7 {
    open spec fn obeys_from_spec() -> bool {
        true
    }

    open spec fn from_spec(other: R1) -> R7 {
        R7::from_nat(other@)
    }
}

impl From<R2> for R7 {
    fn from(other: R2) -> (r: R7) {
        widen(other)
    }
}

impl FromSpecImpl<R2> for R7 {
    open spec fn obeys_from_spec() -> bool {
        true
    }

    open spec fn from_spec(other: R2) -> R7 {
        R7::from_nat(other@)
    }
}

impl From<R3> for R7 {
    fn from(other: R3) -> (r: R7) {
        widen(other)
    }
}

impl FromSpecImpl<R3> for R7 {
    open spec fn obeys_from_spec() -> bool {
        true
    }

    open spec fn from_spec(other: R3) -> R7 {
        R7::from_nat(other@)
    }
}

impl From<R4> for R7 {
    fn from(other: R4) -> (r: R7) {
        widen(other)
    }
}

impl FromSpecImpl<R4> for R7 {
    open spec fn obeys_from_spec() -> bool {
        true
    }

    open spec fn from_spec(other: R4) -> R7 {
        R7::from_nat(other@)
    }
}

impl From<R5> for R7 {
    fn from(other: R5) -> (r: R7) {
        widen(other)
    }
}

impl FromSpecImpl<R5> for R7 {
    open spec fn obeys_from_spec() -> bool {
        true
    }

    open spec fn from_spec(other: R5) -> R7 {
        R7::from_nat(other@)
    }
}

impl From<R6> for R7 {
    fn from(other: R6) -> (r: R7) {
        widen(other)
    }
}

impl FromSpecImpl<R6> for R7 {
    open spec fn obeys_from_spec() -> bool {
        true
    }

    open spec fn from_spec(other: R6) -> R7 {
        R7::from_nat(other@)
    }
}

impl From<R1> for R8 {
    fn from(other: R1) -> (r: R8) {
        widen(other)
    }
}

impl FromSpecImpl<R1> for R8 {
    open spec fn obeys_from_spec() -> bool {
        true
    }

    open spec fn from_spec(other: R1) -> R8 {
        R8::from_nat(other@)
    }
}

impl From<R2> for R8 {
    fn from(other: R2) -> (r: R8) {
        widen(other)
    }
}

impl FromSpecImpl<R2> for R8 {
    open spec fn obeys_from_spec() -> bool {
        true
    }

    open spec fn from_spec(other: R2) -> R8 {
        R8::from_nat(other@)
    }
}

impl From<R3> for R8 {
    fn from(other: R3) -> (r: R8) {
        widen(other)
    }
}

impl FromSpecImpl<R3> for R8 {
    open spec fn obeys_from_spec() -> bool {
        true
    }

    open spec fn from_spec(other: R3) -> R8 {
        R8::from_nat(other@)
    }
}

impl From<R4> for R8 {
    fn from(other: R4) -> (r: R8) {
        widen(other)
    }
}

impl FromSpecImpl<R4> for R8 {
    open spec fn obeys_from_spec() -> bool {
        true
    }

    open spec fn from_spec(other: R4) -> R8 {
        R8::from_nat(other@)
    }
}

impl From<R5> for R8 {
    fn from(other: R5) -> (r: R8) {
        widen(other)
    }
}

impl FromSpecImpl<R5> for R8 {
    open spec fn obeys_from_spec() -> bool {
        true
    }

    open spec fn from_spec(other: R5) -> R8 {
        R8::from_nat(other@)
    }
}

impl From<R6> for R8 {
    fn from(other: R6) -> (r: R8) {
        widen(other)
    }
}

impl FromSpecImpl<R6> for R8 {
    open spec fn obeys_from_spec() -> bool {
        true
    }

    open spec fn from_spec(other: R6) -> R8 {
        R8::from_nat(other@)
    }
}

impl From<R7> for R8 {
    fn from(other: R7) -> (r: R8) {
        widen(other)
    }
}

impl FromSpecImpl<R7> for R8 {
    open spec fn obeys_from_spec() -> bool {
        true
    }

    open spec fn from_spec(other: R7) -> R8 {
        R8::from_nat(other@)
    }
}

impl From<R1> for R9 {
    fn from(other: R1) -> (r: R9) {
        widen(other)
    }
}

impl FromSpecImpl<R1> for R9 {
    open spec fn obeys_from_spec() -> bool {
        true
    }

    open spec fn from_spec(other: R1) -> R9 {
        R9::from_nat(other@)
    }
}

impl From<R2> for R9 {
    fn from(other: R2) -> (r: R9) {
        widen(other)
    }
}

impl FromSpecImpl<R2> for R9 {
    open spec fn obeys_from_spec() -> bool {
        true
    }

    open spec fn from_spec(other: R2) -> R9 {
        R9::from_nat(other@)
    }
}

impl From<R3> for R9 {
    fn from(other: R3) -> (r: R9) {
        widen(other)
    }
}

impl FromSpecImpl<R3> for R9 {
    open spec fn obeys_from_spec() -> bool {
        true
    }

    open spec fn from_spec(other: R3) -> R9 {
        R9::from_nat(other@)
    }
}

impl From<R4> for R9 {
    fn from(other: R4) -> (r: R9) {
        widen(other)
    }
}

impl FromSpecImpl<R4> for R9 {
    open spec fn obeys_from_spec() -> bool {
        true
    }

    open spec fn from_spec(other: R4) -> R9 {
        R9::from_nat(other@)
    }
}

impl From<R5> for R9 {
    fn from(other: R5) -> (r: R9) {
        widen(other)
    }
}

impl FromSpecImpl<R5> for R9 {
    open spec fn obeys_from_spec() -> bool {
        true
    }

    open spec fn from_spec(other: R5) -> R9 {
        R9::from_nat(other@)
    }
}

impl From<R6> for R9 {
    fn from(other: R6) -> (r: R9) {
        widen(other)
    }
}

impl FromSpecImpl<R6> for R9 {
    open spec fn obeys_from_spec() -> bool {
        true
    }

    open spec fn from_spec(other: R6) -> R9 {
        R9::from_nat(other@)
    }
}

impl From<R7> for R9 {
    fn from(other: R7) -> (r: R9) {
        widen(other)
    }
}

impl FromSpecImpl<R7> for R9 {
    open spec fn obeys_from_spec() -> bool {
        true
    }

    open spec fn from_spec(other: R7) -> R9 {
        R9::from_nat(other@)
    }
}

impl From<R8> for R9 {
    fn from(other: R8) -> (r: R9) {
        widen(other)
    }
}

impl FromSpecImpl<R8> for R9 {
    open spec fn obeys_from_spec() -> bool {
        true
    }

    open spec fn from_spec(other: R8) -> R9 {
        R9::from_nat(other@)
    }
}

impl From<R1> for R10 {
    fn from(other: R1) -> (r: R10) {
        widen(other)
    }
}

impl FromSpecImpl<R1> for R10 {
    open spec fn obeys_from_spec() -> bool {
        true
    }

    open spec fn from_spec(other: R1) -> R10 {
        R10::from_nat(other@)
    }
}

impl From<R2> for R10 {
    fn from(other: R2) -> (r: R10) {
        widen(other)
    }
}

impl FromSpecImpl<R2> for R10 {
    open spec fn obeys_from_spec() -> bool {
        true
    }

    open spec fn from_spec(other: R2) -> R10 {
        R10::from_nat(other@)
    }
}

impl From<R3> for R10 {
    fn from(other: R3) -> (r: R10) {
        widen(other)
    }
}

impl FromSpecImpl<R3> for R10 {
    open spec fn obeys_from_spec() -> bool {
        true
    }

    open spec fn from_spec(other: R3) -> R10 {
        R10::from_nat(other@)
    }
}

impl From<R4> for R10 {
    fn from(other: R4) -> (r: R10) {
        widen(other)
    }
}

impl FromSpecImpl<R4> for R10 {
    open spec fn obeys_from_spec() -> bool {
        true
    }

    open spec fn from_spec(other: R4) -> R10 {
        R10::from_nat(other@)
    }
}

impl From<R5> for R10 {
    fn from(other: R5) -> (r: R10) {
        widen(other)
    }
}

impl FromSpecImpl<R5> for R10 {
    open spec fn obeys_from_spec() -> bool {
        true
    }

    open spec fn from_spec(other: R5) -> R10 {
        R10::from_nat(other@)
    }
}

impl From<R6> for R10 {
    fn from(other: R6) -> (r: R10) {
        widen(other)
    }
}

impl FromSpecImpl<R6> for R10 {
    open spec fn obeys_from_spec() -> bool {
        true
    }

    open spec fn from_spec(other: R6) -> R10 {
        R10::from_nat(other@)
    }
}

impl From<R7> for R10 {
    fn from(other: R7) -> (r: R10) {
        widen(other)
    }
}

impl FromSpecImpl<R7> for R10 {
    open spec fn obeys_from_spec() -> bool {
        true
    }

    open spec fn from_spec(other: R7) -> R10 {
        R10::from_nat(other@)
    }
}

impl From<R8> for R10 {
    fn from(other: R8) -> (r: R10) {
        widen(other)
    }
}

impl FromSpecImpl<R8> for R10 {
    open spec fn obeys_from_spec() -> bool {
        true
    }

    open spec fn from_spec(other: R8) -> R10 {
        R10::from_nat(other@)
    }
}

impl From<R9> for R10 {
    fn from(other: R9) -> (r: R10) {
        widen(other)
    }
}

impl FromSpecImpl<R9> for R10 {
    open spec fn obeys_from_spec() -> bool {
        true
    }

    open spec fn from_spec(other: R9) -> R10 {
        R10::from_nat(other@)
    }
}

impl From<R1> for R11 {
    fn from(other: R1) -> (r: R11) {
        widen(other)
    }
}

impl FromSpecImpl<R1> for R11 {
    open spec fn obeys_from_spec() -> bool {
        true
    }

    open spec fn from_spec(other: R1) -> R11 {
        R11::from_nat(other@)
    }
}

impl From<R2> for R11 {
    fn from(other: R2) -> (r: R11) {
        widen(other)
    }
}

impl FromSpecImpl<R2> for R11 {
    open spec fn obeys_from_spec() -> bool {
        true
    }

    open spec fn from_spec(other: R2) -> R11 {
        R11::from_nat(other@)
    }
}

impl From<R3> for R11 {
    fn from(other: R3) -> (r: R11) {
        widen(other)
    }
}

impl FromSpecImpl<R3> for R11 {
    open spec fn obeys_from_spec() -> bool {
        true
    }

    open spec fn from_spec(other: R3) -> R11 {
        R11::from_nat(other@)
    }
}

impl From<R4> for R11 {
    fn from(other: R4) -> (r: R11) {
        widen(other)
    }
}

impl FromSpecImpl<R4> for R11 {
    open spec fn obeys_from_spec() -> bool {
        true
    }

    open spec fn from_spec(other: R4) -> R11 {
        R11::from_nat(other@)
    }
}

impl From<R5> for R11 {
    fn from(other: R5) -> (r: R11) {
        widen(other)
    }
}

impl FromSpecImpl<R5> for R11 {
    open spec fn obeys_from_spec() -> bool {
        true
    }

    open spec fn from_spec(other: R5) -> R11 {
        R11::from_nat(other@)
    }
}

impl From<R6> for R11 {
    fn from(other: R6) -> (r: R11) {
        widen(other)
    }
}

impl FromSpecImpl<R6> for R11 {
    open spec fn obeys_from_spec() -> bool {
        true
    }

    open spec fn from_spec(other: R6) -> R11 {
        R11::from_nat(other@)
    }
}

impl From<R7> for R11 {
    fn from(other: R7) -> (r: R11) {
        widen(other)
    }
}

impl FromSpecImpl<R7> for R11 {
    open spec fn obeys_from_spec() -> bool {
        true
    }

    open spec fn from_spec(other: R7) -> R11 {
        R11::from_nat(other@)
    }
}

impl From<R8> for R11 {
    fn from(other: R8) -> (r: R11) {
        widen(other)
    }
}

impl FromSpecImpl<R8> for R11 {
    open spec fn obeys_from_spec() -> bool {
        true
    }

    open spec fn from_spec(other: R8) -> R11 {
        R11::from_nat(other@)
    }
}

impl From<R9> for R11 {
    fn from(other: R9) -> (r: R11) {
        widen(other)
    }
}

impl FromSpecImpl<R9> for R11 {
    open spec fn obeys_from_spec() -> bool {
        true
    }

    open spec fn from_spec(other: R9) -> R11 {
        R11::from_nat(other@)
    }
}

impl From<R10> for R11 {
    fn from(other: R10) -> (r: R11) {
        widen(other)
    }
}

impl FromSpecImpl<R10> for R11 {
    open spec fn obeys_from_spec() -> bool {
        true
    }

    open spec fn from_spec(other: R10) -> R11 {
        R11::from_nat(other@)
    }
}

impl From<R1> for R12 {
    fn from(other: R1) -> (r: R12) {
        widen(other)
    }
}

impl FromSpecImpl<R1> for R12 {
    open spec fn obeys_from_spec() -> bool {
        true
    }

    open spec fn from_spec(other: R1) -> R12 {
        R12::from_nat(other@)
    }
}

impl From<R2> for R12 {
    fn from(other: R2) -> (r: R12) {
        widen(other)
    }
}

impl FromSpecImpl<R2> for R12 {
    open spec fn obeys_from_spec() -> bool {
        true
    }

    open spec fn from_spec(other: R2) -> R12 {
        R12::from_nat(other@)
    }
}

impl From<R3> for R12 {
    fn from(other: R3) -> (r: R12) {
        widen(other)
    }
}

impl FromSpecImpl<R3> for R12 {
    open spec fn obeys_from_spec() -> bool {
        true
    }

    open spec fn from_spec(other: R3) -> R12 {
        R12::from_nat(other@)
    }
}

impl From<R4> for R12 {
    fn from(other: R4) -> (r: R12) {
        widen(other)
    }
}

impl FromSpecImpl<R4> for R12 {
    open spec fn obeys_from_spec() -> bool {
        true
    }

    open spec fn from_spec(other: R4) -> R12 {
        R12::from_nat(other@)
    }
}

impl From<R5> for R12 {
    fn from(other: R5) -> (r: R12) {
        widen(other)
    }
}

impl FromSpecImpl<R5> for R12 {
    open spec fn obeys_from_spec() -> bool {
        true
    }

    open spec fn from_spec(other: R5) -> R12 {
        R12::from_nat(other@)
    }
}

impl From<R6> for R12 {
    fn from(other: R6) -> (r: R12) {
        widen(other)
    }
}

impl FromSpecImpl<R6> for R12 {
    open spec fn obeys_from_spec() -> bool {
        true
    }

    open spec fn from_spec(other: R6) -> R12 {
        R12::from_nat(other@)
    }
}

impl From<R7> for R12 {
    fn from(other: R7) -> (r: R12) {
        widen(other)
    }
}

impl FromSpecImpl<R7> for R12 {
    open spec fn obeys_from_spec() -> bool {
        true
    }

    open spec fn from_spec(other: R7) -> R12 {
        R12::from_nat(other@)
    }
}

impl From<R8> for R12 {
    fn from(other: R8) -> (r: R12) {
        widen(other)
    }
}

impl FromSpecImpl<R8> for R12 {
    open spec fn obeys_from_spec() -> bool {
        true
    }

    open spec fn from_spec(other: R8) -> R12 {
        R12::from_nat(other@)
    }
}

impl From<R9> for R12 {
    fn from(other: R9) -> (r: R12) {
        widen(other)
    }
}

impl FromSpecImpl<R9> for R12 {
    open spec fn obeys_from_spec() -> bool {
        true
    }

    open spec fn from_spec(other: R9) -> R12 {
        R12::from_nat(other@)
    }
}

impl From<R10> for R12 {
    fn from(other: R10) -> (r: R12) {
        widen(other)
    }
}

impl FromSpecImpl<R10> for R12 {
    open spec fn obeys_from_spec() -> bool {
        true
    }

    open spec fn from_spec(other: R10) -> R12 {
        R12::from_nat(other@)
    }
}

impl From<R11> for R12 {
    fn from(other: R11) -> (r: R12) {
        widen(other)
    }
}

impl FromSpecImpl<R11> for R12 {
    open spec fn obeys_from_spec() -> bool {
        true
    }

    open spec fn from_spec(other: R11) -> R12 {
        R12::from_nat(other@)
    }
}

impl From<R1> for R13 {
    fn from(other: R1) -> (r: R13) {
        widen(other)
    }
}

impl FromSpecImpl<R1> for R13 {
    open spec fn obeys_from_spec() -> bool {
        true
    }

    open spec fn from_spec(other: R1) -> R13 {
        R13::from_nat(other@)
    }
}

impl From<R2> for R13 {
    fn from(other: R2) -> (r: R13) {
        widen(other)
    }
}

impl FromSpecImpl<R2> for R13 {
    open spec fn obeys_from_spec() -> bool {
        true
    }

    open spec fn from_spec(other: R2) -> R13 {
        R13::from_nat(other@)
    }
}

impl From<R3> for R13 {
    fn from(other: R3) -> (r: R13) {
        widen(other)
    }
}

impl FromSpecImpl<R3> for R13 {
    open spec fn obeys_from_spec() -> bool {
        true
    }

    open spec fn from_spec(other: R3) -> R13 {
        R13::from_nat(other@)
    }
}

impl From<R4> for R13 {
    fn from(other: R4) -> (r: R13) {
        widen(other)
    }
}

impl FromSpecImpl<R4> for R13 {
    open spec fn obeys_from_spec() -> bool {
        true
    }

    open spec fn from_spec(other: R4) -> R13 {
        R13::from_nat(other@)
    }
}

impl From<R5> for R13 {
    fn from(other: R5) -> (r: R13) {
        widen(other)
    }
}

impl FromSpecImpl<R5> for R13 {
    open spec fn obeys_from_spec() -> bool {
        true
    }

    open spec fn from_spec(other: R5) -> R13 {
        R13::from_nat(other@)
    }
}

impl From<R6> for R13 {
    fn from(other: R6) -> (r: R13) {
        widen(other)
    }
}

impl FromSpecImpl<R6> for R13 {
    open spec fn obeys_from_spec() -> bool {
        true
    }

    open spec fn from_spec(other: R6) -> R13 {
        R13::from_nat(other@)
    }
}

impl From<R7> for R13 {
    fn from(other: R7) -> (r: R13) {
        widen(other)
    }
}

impl FromSpecImpl<R7> for R13 {
    open spec fn obeys_from_spec() -> bool {
        true
    }

    open spec fn from_spec(other: R7) -> R13 {
        R13::from_nat(other@)
    }
}

impl From<R8> for R13 {
    fn from(other: R8) -> (r: R13) {
        widen(other)
    }
}

impl FromSpecImpl<R8> for R13 {
    open spec fn obeys_from_spec() -> bool {
        true
    }

    open spec fn from_spec(other: R8) -> R13 {
        R13::from_nat(other@)
    }
}

impl From<R9> for R13 {
    fn from(other: R9) -> (r: R13) {
        widen(other)
    }
}

impl FromSpecImpl<R9> for R13 {
    open spec fn obeys_from_spec() -> bool {
        true
    }

    open spec fn from_spec(other: R9) -> R13 {
        R13::from_nat(other@)
    }
}

impl From<R10> for R13 {
    fn from(other: R10) -> (r: R13) {
        widen(other)
    }
}

impl FromSpecImpl<R10> for R13 {
    open spec fn obeys_from_spec() -> bool {
        true
    }

    open spec fn from_spec(other: R10) -> R13 {
        R13::from_nat(other@)
    }
}

impl From<R11> for R13 {
    fn from(other: R11) -> (r: R13) {
        widen(other)
    }
}

impl FromSpecImpl<R11> for R13 {
    open spec fn obeys_from_spec() -> bool {
        true
    }

    open spec fn from_spec(other: R11) -> R13 {
        R13::from_nat(other@)
    }
}

impl From<R12> for R13 {
    fn from(other: R12) -> (r: R13) {
        widen(other)
    }
}

impl FromSpecImpl<R12> for R13 {
    open spec fn obeys_from_spec() -> bool {
        true
    }

    open spec fn from_spec(other: R12) -> R13 {
        R13::from_nat(other@)
    }
}

impl From<R1> for R14 {
    fn from(other: R1) -> (r: R14) {
        widen(other)
    }
}

impl FromSpecImpl<R1> for R14 {
    open spec fn obeys_from_spec() -> bool {
        true
    }

    open spec fn from_spec(other: R1) -> R14 {
        R14::from_nat(other@)
    }
}

impl From<R2> for R14 {
    fn from(other: R2) -> (r: R14) {
        widen(other)
    }
}

impl FromSpecImpl<R2> for R14 {
    open spec fn obeys_from_spec() -> bool {
        true
    }

    open spec fn from_spec(other: R2) -> R14 {
        R14::from_nat(other@)
    }
}

impl From<R3> for R14 {
    fn from(other: R3) -> (r: R14) {
        widen(other)
    }
}

impl FromSpecImpl<R3> for R14 {
    open spec fn obeys_from_spec() -> bool {
        true
    }

    open spec fn from_spec(other: R3) -> R14 {
        R14::from_nat(other@)
    }
}

impl From<R4> for R14 {
    fn from(other: R4) -> (r: R14) {
        widen(other)
    }
}

impl FromSpecImpl<R4> for R14 {
    open spec fn obeys_from_spec() -> bool {
        true
    }

    open spec fn from_spec(other: R4) -> R14 {
        R14::from_nat(other@)
    }
}

impl From<R5> for R14 {
    fn from(other: R5) -> (r: R14) {
        widen(other)
    }
}

impl FromSpecImpl<R5> for R14 {
    open spec fn obeys_from_spec() -> bool {
        true
    }

    open spec fn from_spec(other: R5) -> R14 {
        R14::from_nat(other@)
    }
}

impl From<R6> for R14 {
    fn from(other: R6) -> (r: R14) {
        widen(other)
    }
}

impl FromSpecImpl<R6> for R14 {
    open spec fn obeys_from_spec() -> bool {
        true
    }

    open spec fn from_spec(other: R6) -> R14 {
        R14::from_nat(other@)
    }
}

impl From<R7> for R14 {
    fn from(other: R7) -> (r: R14) {
        widen(other)
    }
}

impl FromSpecImpl<R7> for R14 {
    open spec fn obeys_from_spec() -> bool {
        true
    }

    open spec fn from_spec(other: R7) -> R14 {
        R14::from_nat(other@)
    }
}

impl From<R8> for R14 {
    fn from(other: R8) -> (r: R14) {
        widen(other)
    }
}

impl FromSpecImpl<R8> for R14 {
    open spec fn obeys_from_spec() -> bool {
        true
    }

    open spec fn from_spec(other: R8) -> R14 {
        R14::from_nat(other@)
    }
}

impl From<R9> for R14 {
    fn from(other: R9) -> (r: R14) {
        widen(other)
    }
}

impl FromSpecImpl<R9> for R14 {
    open spec fn obeys_from_spec() -> bool {
        true
    }

    open spec fn from_spec(other: R9) -> R14 {
        R14::from_nat(other@)
    }
}

impl From<R10> for R14 {
    fn from(other: R10) -> (r: R14) {
        widen(other)
    }
}

impl FromSpecImpl<R10> for R14 {
    open spec fn obeys_from_spec() -> bool {
        true
    }

    open spec fn from_spec(other: R10) -> R14 {
        R14::from_nat(other@)
    }
}

impl From<R11> for R14 {
    fn from(other: R11) -> (r: R14) {
        widen(other)
    }
}

impl FromSpecImpl<R11> for R14 {
    open spec fn obeys_from_spec() -> bool {
        true
    }

    open spec fn from_spec(other: R11) -> R14 {
        R14::from_nat(other@)
    }
}

impl From<R12> for R14 {
    fn from(other: R12) -> (r: R14) {
        widen(other)
    }
}

impl FromSpecImpl<R12> for R14 {
    open spec fn obeys_from_spec() -> bool {
        true
    }

    open spec fn from_spec(other: R12) -> R14 {
        R14::from_nat(other@)
    }
}

impl From<R13> for R14 {
    fn from(other: R13) -> (r: R14) {
        widen(other)
    }
}

impl FromSpecImpl<R13> for R14 {
    open spec fn obeys_from_spec() -> bool {
        true
    }

    open spec fn from_spec(other: R13) -> R14 {
        R14::from_nat(other@)
    }
}

impl From<R1> for R15 {
    fn from(other: R1) -> (r: R15) {
        widen(other)
    }
}

impl FromSpecImpl<R1> for R15 {
    open spec fn obeys_from_spec() -> bool {
        true
    }

    open spec fn from_spec(other: R1) -> R15 {
        R15::from_nat(other@)
    }
}

impl From<R2> for R15 {
    fn from(other: R2) -> (r: R15) {
        widen(other)
    }
}

impl FromSpecImpl<R2> for R15 {
    open spec fn obeys_from_spec() -> bool {
        true
    }

    open spec fn from_spec(other: R2) -> R15 {
        R15::from_nat(other@)
    }
}

impl From<R3> for R15 {
    fn from(other: R3) -> (r: R15) {
        widen(other)
    }
}

impl FromSpecImpl<R3> for R15 {
    open spec fn obeys_from_spec() -> bool {
        true
    }

    open spec fn from_spec(other: R3) -> R15 {
        R15::from_nat(other@)
    }
}

impl From<R4> for R15 {
    fn from(other: R4) -> (r: R15) {
        widen(other)
    }
}

impl FromSpecImpl<R4> for R15 {
    open spec fn obeys_from_spec() -> bool {
        true
    }

    open spec fn from_spec(other: R4) -> R15 {
        R15::from_nat(other@)
    }
}

impl From<R5> for R15 {
    fn from(other: R5) -> (r: R15) {
        widen(other)
    }
}

impl FromSpecImpl<R5> for R15 {
    open spec fn obeys_from_spec() -> bool {
        true
    }

    open spec fn from_spec(other: R5) -> R15 {
        R15::from_nat(other@)
    }
}

impl From<R6> for R15 {
    fn from(other: R6) -> (r: R15) {
        widen(other)
    }
}

impl FromSpecImpl<R6> for R15 {
    open spec fn obeys_from_spec() -> bool {
        true
    }

    open spec fn from_spec(other: R6) -> R15 {
        R15::from_nat(other@)
    }
}

impl From<R7> for R15 {
    fn from(other: R7) -> (r: R15) {
        widen(other)
    }
}

impl FromSpecImpl<R7> for R15 {
    open spec fn obeys_from_spec() -> bool {
        true
    }

    open spec fn from_spec(other: R7) -> R15 {
        R15::from_nat(other@)
    }
}

impl From<R8> for R15 {
    fn from(other: R8) -> (r: R15) {
        widen(other)
    }
}

impl FromSpecImpl<R8> for R15 {
    open spec fn obeys_from_spec() -> bool {
        true
    }

    open spec fn from_spec(other: R8) -> R15 {
        R15::from_nat(other@)
    }
}

impl From<R9> for R15 {
    fn from(other: R9) -> (r: R15) {
        widen(other)
    }
}

impl FromSpecImpl<R9> for R15 {
    open spec fn obeys_from_spec() -> bool {
        true
    }

    open spec fn from_spec(other: R9) -> R15 {
        R15::from_nat(other@)
    }
}

impl From<R10> for R15 {
    fn from(other: R10) -> (r: R15) {
        widen(other)
    }
}

impl FromSpecImpl<R10> for R15 {
    open spec fn obeys_from_spec() -> bool {
        true
    }

    open spec fn from_spec(other: R10) -> R15 {
        R15::from_nat(other@)
    }
}

impl From<R11> for R15 {
    fn from(other: R11) -> (r: R15) {
        widen(other)
    }
}

impl FromSpecImpl<R11> for R15 {
    open spec fn obeys_from_spec() -> bool {
        true
    }

    open spec fn from_spec(other: R11) -> R15 {
        R15::from_nat(other@)
    }
}

impl From<R12> for R15 {
    fn from(other: R12) -> (r: R15) {
        widen(other)
    }
}

impl FromSpecImpl<R12> for R15 {
    open spec fn obeys_from_spec() -> bool {
        true
    }

    open spec fn from_spec(other: R12) -> R15 {
        R15::from_nat(other@)
    }
}

impl From<R13> for R15 {
    fn from(other: R13) -> (r: R15) {
        widen(other)
    }
}

impl FromSpecImpl<R13> for R15 {
    open spec fn obeys_from_spec() -> bool {
        true
    }

    open spec fn from_spec(other: R13) -> R15 {
        R15::from_nat(other@)
    }
}

impl From<R14> for R15 {
    fn from(other: R14) -> (r: R15) {
        widen(other)
    }
}

impl FromSpecImpl<R14> for R15 {
    open spec fn obeys_from_spec() -> bool {
        true
    }

    open spec fn from_spec(other: R14) -> R15 {
        R15::from_nat(other@)
    }
}

impl From<R1> for R16 {
    fn from(other: R1) -> (r: R16) {
        widen(other)
    }
}

impl FromSpecImpl<R1> for R16 {
    open spec fn obeys_from_spec() -> bool {
        true
    }

    open spec fn from_spec(other: R1) -> R16 {
        R16::from_nat(other@)
    }
}

impl From<R2> for R16 {
    fn from(other: R2) -> (r: R16) {
        widen(other)
    }
}

impl FromSpecImpl<R2> for R16 {
    open spec fn obeys_from_spec() -> bool {
        true
    }

    open spec fn from_spec(other: R2) -> R16 {
        R16::from_nat(other@)
    }
}

impl From<R3> for R16 {
    fn from(other: R3) -> (r: R16) {
        widen(other)
    }
}

impl FromSpecImpl<R3> for R16 {
    open spec fn obeys_from_spec() -> bool {
        true
    }

    open spec fn from_spec(other: R3) -> R16 {
        R16::from_nat(other@)
    }
}

impl From<R4> for R16 {
    fn from(other: R4) -> (r: R16) {
        widen(other)
    }
}

impl FromSpecImpl<R4> for R16 {
    open spec fn obeys_from_spec() -> bool {
        true
    }

    open spec fn from_spec(other: R4) -> R16 {
        R16::from_nat(other@)
    }
}

impl From<R5> for R16 {
    fn from(other: R5) -> (r: R16) {
        widen(other)
    }
}

impl FromSpecImpl<R5> for R16 {
    open spec fn obeys_from_spec() -> bool {
        true
    }

    open spec fn from_spec(other: R5) -> R16 {
        R16::from_nat(other@)
    }
}

impl From<R6> for R16 {
    fn from(other: R6) -> (r: R16) {
        widen(other)
    }
}

impl FromSpecImpl<R6> for R16 {
    open spec fn obeys_from_spec() -> bool {
        true
    }

    open spec fn from_spec(other: R6) -> R16 {
        R16::from_nat(other@)
    }
}

impl From<R7> for R16 {
    fn from(other: R7) -> (r: R16) {
        widen(other)
    }
}

impl FromSpecImpl<R7> for R16 {
    open spec fn obeys_from_spec() -> bool {
        true
    }

    open spec fn from_spec(other: R7) -> R16 {
        R16::from_nat(other@)
    }
}

impl From<R8> for R16 {
    fn from(other: R8) -> (r: R16) {
        widen(other)
    }
}

impl FromSpecImpl<R8> for R16 {
    open spec fn obeys_from_spec() -> bool {
        true
    }

    open spec fn from_spec(other: R8) -> R16 {
        R16::from_nat(other@)
    }
}

impl From<R9> for R16 {
    fn from(other: R9) -> (r: R16) {
        widen(other)
    }
}

impl FromSpecImpl<R9> for R16 {
    open spec fn obeys_from_spec() -> bool {
        true
    }

    open spec fn from_spec(other: R9) -> R16 {
        R16::from_nat(other@)
    }
}

impl From<R10> for R16 {
    fn from(other: R10) -> (r: R16) {
        widen(other)
    }
}

impl FromSpecImpl<R10> for R16 {
    open spec fn obeys_from_spec() -> bool {
        true
    }

    open spec fn from_spec(other: R10) -> R16 {
        R16::from_nat(other@)
    }
}

impl From<R11> for R16 {
    fn from(other: R11) -> (r: R16) {
        widen(other)
    }
}

impl FromSpecImpl<R11> for R16 {
    open spec fn obeys_from_spec() -> bool {
        true
    }

    open spec fn from_spec(other: R11) -> R16 {
        R16::from_nat(other@)
    }
}

impl From<R12> for R16 {
    fn from(other: R12) -> (r: R16) {
        widen(other)
    }
}

impl FromSpecImpl<R12> for R16 {
    open spec fn obeys_from_spec() -> bool {
        true
    }

    open spec fn from_spec(other: R12) -> R16 {
        R16::from_nat(other@)
    }
}

impl From<R13> for R16 {
    fn from(other: R13) -> (r: R16) {
        widen(other)
    }
}

impl FromSpecImpl<R13> for R16 {
    open spec fn obeys_from_spec() -> bool {
        true
    }

    open spec fn from_spec(other: R13) -> R16 {
        R16::from_nat(other@)
    }
}

impl From<R14> for R16 {
    fn from(other: R14) -> (r: R16) {
        widen(other)
    }
}

impl FromSpecImpl<R14> for R16 {
    open spec fn obeys_from_spec() -> bool {
        true
    }

    open spec fn from_spec(other: R14) -> R16 {
        R16::from_nat(other@)
    }
}

impl From<R15> for R16 {
    fn from(other: R15) -> (r: R16) {
        widen(other)
    }
}

impl FromSpecImpl<R15> for R16 {
    open spec fn obeys_from_spec() -> bool {
        true
    }

    open spec fn from_spec(other: R15) -> R16 {
        R16::from_nat(other@)
    }
}

impl From<R1> for R17 {
    fn from(other: R1) -> (r: R17) {
        widen(other)
    }
}

impl FromSpecImpl<R1> for R17 {
    open spec fn obeys_from_spec() -> bool {
        true
    }

    open spec fn from_spec(other: R1) -> R17 {
        R17::from_nat(other@)
    }
}

impl From<R2> for R17 {
    fn from(other: R2) -> (r: R17) {
        widen(other)
    }
}

impl FromSpecImpl<R2> for R17 {
    open spec fn obeys_from_spec() -> bool {
        true
    }

    open spec fn from_spec(other: R2) -> R17 {
        R17::from_nat(other@)
    }
}

impl From<R3> for R17 {
    fn from(other: R3) -> (r: R17) {
        widen(other)
    }
}

impl FromSpecImpl<R3> for R17 {
    open spec fn obeys_from_spec() -> bool {
        true
    }

    open spec fn from_spec(other: R3) -> R17 {
        R17::from_nat(other@)
    }
}

impl From<R4> for R17 {
    fn from(other: R4) -> (r: R17) {
        widen(other)
    }
}

impl FromSpecImpl<R4> for R17 {
    open spec fn obeys_from_spec() -> bool {
        true
    }

    open spec fn from_spec(other: R4) -> R17 {
        R17::from_nat(other@)
    }
}

impl From<R5> for R17 {
    fn from(other: R5) -> (r: R17) {
        widen(other)
    }
}

impl FromSpecImpl<R5> for R17 {
    open spec fn obeys_from_spec() -> bool {
        true
    }

    open spec fn from_spec(other: R5) -> R17 {
        R17::from_nat(other@)
    }
}

impl From<R6> for R17 {
    fn from(other: R6) -> (r: R17) {
        widen(other)
    }
}

impl FromSpecImpl<R6> for R17 {
    open spec fn obeys_from_spec() -> bool {
        true
    }

    open spec fn from_spec(other: R6) -> R17 {
        R17::from_nat(other@)
    }
}

impl From<R7> for R17 {
    fn from(other: R7) -> (r: R17) {
        widen(other)
    }
}

impl FromSpecImpl<R7> for R17 {
    open spec fn obeys_from_spec() -> bool {
        true
    }

    open spec fn from_spec(other: R7) -> R17 {
        R17::from_nat(other@)
    }
}

impl From<R8> for R17 {
    fn from(other: R8) -> (r: R17) {
        widen(other)
    }
}

impl FromSpecImpl<R8> for R17 {
    open spec fn obeys_from_spec() -> bool {
        true
    }

    open spec fn from_spec(other: R8) -> R17 {
        R17::from_nat(other@)
    }
}

impl From<R9> for R17 {
    fn from(other: R9) -> (r: R17) {
        widen(other)
    }
}

impl FromSpecImpl<R9> for R17 {
    open spec fn obeys_from_spec() -> bool {
        true
    }

    open spec fn from_spec(other: R9) -> R17 {
        R17::from_nat(other@)
    }
}

impl From<R10> for R17 {
    fn from(other: R10) -> (r: R17) {
        widen(other)
    }
}

impl FromSpecImpl<R10> for R17 {
    open spec fn obeys_from_spec() -> bool {
        true
    }

    open spec fn from_spec(other: R10) -> R17 {
        R17::from_nat(other@)
    }
}

impl From<R11> for R17 {
    fn from(other: R11) -> (r: R17) {
        widen(other)
    }
}

impl FromSpecImpl<R11> for R17 {
    open spec fn obeys_from_spec() -> bool {
        true
    }

    open spec fn from_spec(other: R11) -> R17 {
        R17::from_nat(other@)
    }
}

impl From<R12> for R17 {
    fn from(other: R12) -> (r: R17) {
        widen(other)
    }
}

impl FromSpecImpl<R12> for R17 {
    open spec fn obeys_from_spec() -> bool {
        true
    }

    open spec fn from_spec(other: R12) -> R17 {
        R17::from_nat(other@)
    }
}

impl From<R13> for R17 {
    fn from(other: R13) -> (r: R17) {
        widen(other)
    }
}

impl FromSpecImpl<R13> for R17 {
    open spec fn obeys_from_spec() -> bool {
        true
    }

    open spec fn from_spec(other: R13) -> R17 {
        R17::from_nat(other@)
    }
}

impl From<R14> for R17 {
    fn from(other: R14) -> (r: R17) {
        widen(other)
    }
}

impl FromSpecImpl<R14> for R17 {
    open spec fn obeys_from_spec() -> bool {
        true
    }

    open spec fn from_spec(other: R14) -> R17 {
        R17::from_nat(other@)
    }
}

impl From<R15> for R17 {
    fn from(other: R15) -> (r: R17) {
        widen(other)
    }
}

impl FromSpecImpl<R15> for R17 {
    open spec fn obeys_from_spec() -> bool {
        true
    }

    open spec fn from_spec(other: R15) -> R17 {
        R17::from_nat(other@)
    }
}

impl From<R16> for R17 {
    fn from(other: R16) -> (r: R17) {
        widen(other)
    }
}

impl FromSpecImpl<R16> for R17 {
    open spec fn obeys_from_spec() -> bool {
        true
    }

    open spec fn from_spec(other: R16) -> R17 {
        R17::from_nat(other@)
    }
}

impl From<R1> for R18 {
    fn from(other: R1) -> (r: R18) {
        widen(other)
    }
}

impl FromSpecImpl<R1> for R18 {
    open spec fn obeys_from_spec() -> bool {
        true
    }

    open spec fn from_spec(other: R1) -> R18 {
        R18::from_nat(other@)
    }
}

impl From<R2> for R18 {
    fn from(other: R2) -> (r: R18) {
        widen(other)
    }
}

impl FromSpecImpl<R2> for R18 {
    open spec fn obeys_from_spec() -> bool {
        true
    }

    open spec fn from_spec(other: R2) -> R18 {
        R18::from_nat(other@)
    }
}

impl From<R3> for R18 {
    fn from(other: R3) -> (r: R18) {
        widen(other)
    }
}

impl FromSpecImpl<R3> for R18 {
    open spec fn obeys_from_spec() -> bool {
        true
    }

    open spec fn from_spec(other: R3) -> R18 {
        R18::from_nat(other@)
    }
}

impl From<R4> for R18 {
    fn from(other: R4) -> (r: R18) {
        widen(other)
    }
}

impl FromSpecImpl<R4> for R18 {
    open spec fn obeys_from_spec() -> bool {
        true
    }

    open spec fn from_spec(other: R4) -> R18 {
        R18::from_nat(other@)
    }
}

impl From<R5> for R18 {
    fn from(other: R5) -> (r: R18) {
        widen(other)
    }
}

impl FromSpecImpl<R5> for R18 {
    open spec fn obeys_from_spec() -> bool {
        true
    }

    open spec fn from_spec(other: R5) -> R18 {
        R18::from_nat(other@)
    }
}

impl From<R6> for R18 {
    fn from(other: R6) -> (r: R18) {
        widen(other)
    }
}

impl FromSpecImpl<R6> for R18 {
    open spec fn obeys_from_spec() -> bool {
        true
    }

    open spec fn from_spec(other: R6) -> R18 {
        R18::from_nat(other@)
    }
}

impl From<R7> for R18 {
    fn from(other: R7) -> (r: R18) {
        widen(other)
    }
}

impl FromSpecImpl<R7> for R18 {
    open spec fn obeys_from_spec() -> bool {
        true
    }

    open spec fn from_spec(other: R7) -> R18 {
        R18::from_nat(other@)
    }
}

impl From<R8> for R18 {
    fn from(other: R8) -> (r: R18) {
        widen(other)
    }
}

impl FromSpecImpl<R8> for R18 {
    open spec fn obeys_from_spec() -> bool {
        true
    }

    open spec fn from_spec(other: R8) -> R18 {
        R18::from_nat(other@)
    }
}

impl From<R9> for R18 {
    fn from(other: R9) -> (r: R18) {
        widen(other)
    }
}

impl FromSpecImpl<R9> for R18 {
    open spec fn obeys_from_spec() -> bool {
        true
    }

    open spec fn from_spec(other: R9) -> R18 {
        R18::from_nat(other@)
    }
}

impl From<R10> for R18 {
    fn from(other: R10) -> (r: R18) {
        widen(other)
    }
}

impl FromSpecImpl<R10> for R18 {
    open spec fn obeys_from_spec() -> bool {
        true
    }

    open spec fn from_spec(other: R10) -> R18 {
        R18::from_nat(other@)
    }
}

impl From<R11> for R18 {
    fn from(other: R11) -> (r: R18) {
        widen(other)
    }
}

impl FromSpecImpl<R11> for R18 {
    open spec fn obeys_from_spec() -> bool {
        true
    }

    open spec fn from_spec(other: R11) -> R18 {
        R18::from_nat(other@)
    }
}

impl From<R12> for R18 {
    fn from(other: R12) -> (r: R18) {
        widen(other)
    }
}

impl FromSpecImpl<R12> for R18 {
    open spec fn obeys_from_spec() -> bool {
        true
    }

    open spec fn from_spec(other: R12) -> R18 {
        R18::from_nat(other@)
    }
}

impl From<R13> for R18 {
    fn from(other: R13) -> (r: R18) {
        widen(other)
    }
}

impl FromSpecImpl<R13> for R18 {
    open spec fn obeys_from_spec() -> bool {
        true
    }

    open spec fn from_spec(other: R13) -> R18 {
        R18::from_nat(other@)
    }
}

impl From<R14> for R18 {
    fn from(other: R14) -> (r: R18) {
        widen(other)
    }
}

impl FromSpecImpl<R14> for R18 {
    open spec fn obeys_from_spec() -> bool {
        true
    }

    open spec fn from_spec(other: R14) -> R18 {
        R18::from_nat(other@)
    }
}

impl From<R15> for R18 {
    fn from(other: R15) -> (r: R18) {
        widen(other)
    }
}

impl FromSpecImpl<R15> for R18 {
    open spec fn obeys_from_spec() -> bool {
        true
    }

    open spec fn from_spec(other: R15) -> R18 {
        R18::from_nat(other@)
    }
}

impl From<R16> for R18 {
    fn from(other: R16) -> (r: R18) {
        widen(other)
    }
}

impl FromSpecImpl<R16> for R18 {
    open spec fn obeys_from_spec() -> bool {
        true
    }

    open spec fn from_spec(other: R16) -> R18 {
        R18::from_nat(other@)
    }
}

impl From<R17> for R18 {
    fn from(other: R17) -> (r: R18) {
        widen(other)
    }
}

impl FromSpecImpl<R17> for R18 {
    open spec fn obeys_from_spec() -> bool {
        true
    }

    open spec fn from_spec(other: R17) -> R18 {
        R18::from_nat(other@)
    }
}

impl From<R1> for R19 {
    fn from(other: R1) -> (r: R19) {
        widen(other)
    }
}

impl FromSpecImpl<R1> for R19 {
    open spec fn obeys_from_spec() -> bool {
        true
    }

    open spec fn from_spec(other: R1) -> R19 {
        R19::from_nat(other@)
    }
}

impl From<R2> for R19 {
    fn from(other: R2) -> (r: R19) {
        widen(other)
    }
}

impl FromSpecImpl<R2> for R19 {
    open spec fn obeys_from_spec() -> bool {
        true
    }

    open spec fn from_spec(other: R2) -> R19 {
        R19::from_nat(other@)
    }
}

impl From<R3> for R19 {
    fn from(other: R3) -> (r: R19) {
        widen(other)
    }
}

impl FromSpecImpl<R3> for R19 {
    open spec fn obeys_from_spec() -> bool {
        true
    }

    open spec fn from_spec(other: R3) -> R19 {
        R19::from_nat(other@)
    }
}

impl From<R4> for R19 {
    fn from(other: R4) -> (r: R19) {
        widen(other)
    }
}

impl FromSpecImpl<R4> for R19 {
    open spec fn obeys_from_spec() -> bool {
        true
    }

    open spec fn from_spec(other: R4) -> R19 {
        R19::from_nat(other@)
    }
}

impl From<R5> for R19 {
    fn from(other: R5) -> (r: R19) {
        widen(other)
    }
}

impl FromSpecImpl<R5> for R19 {
    open spec fn obeys_from_spec() -> bool {
        true
    }

    open spec fn from_spec(other: R5) -> R19 {
        R19::from_nat(other@)
    }
}

impl From<R6> for R19 {
    fn from(other: R6) -> (r: R19) {
        widen(other)
    }
}

impl FromSpecImpl<R6> for R19 {
    open spec fn obeys_from_spec() -> bool {
        true
    }

    open spec fn from_spec(other: R6) -> R19 {
        R19::from_nat(other@)
    }
}

impl From<R7> for R19 {
    fn from(other: R7) -> (r: R19) {
        widen(other)
    }
}

impl FromSpecImpl<R7> for R19 {
    open spec fn obeys_from_spec() -> bool {
        true
    }

    open spec fn from_spec(other: R7) -> R19 {
        R19::from_nat(other@)
    }
}

impl From<R8> for R19 {
    fn from(other: R8) -> (r: R19) {
        widen(other)
    }
}

impl FromSpecImpl<R8> for R19 {
    open spec fn obeys_from_spec() -> bool {
        true
    }

    open spec fn from_spec(other: R8) -> R19 {
        R19::from_nat(other@)
    }
}

impl From<R9> for R19 {
    fn from(other: R9) -> (r: R19) {
        widen(other)
    }
}

impl FromSpecImpl<R9> for R19 {
    open spec fn obeys_from_spec() -> bool {
        true
    }

    open spec fn from_spec(other: R9) -> R19 {
        R19::from_nat(other@)
    }
}

impl From<R10> for R19 {
    fn from(other: R10) -> (r: R19) {
        widen(other)
    }
}

impl FromSpecImpl<R10> for R19 {
    open spec fn obeys_from_spec() -> bool {
        true
    }

    open spec fn from_spec(other: R10) -> R19 {
        R19::from_nat(other@)
    }
}

impl From<R11> for R19 {
    fn from(other: R11) -> (r: R19) {
        widen(other)
    }
}

impl FromSpecImpl<R11> for R19 {
    open spec fn obeys_from_spec() -> bool {
        true
    }

    open spec fn from_spec(other: R11) -> R19 {
        R19::from_nat(other@)
    }
}

impl From<R12> for R19 {
    fn from(other: R12) -> (r: R19) {
        widen(other)
    }
}

impl FromSpecImpl<R12> for R19 {
    open spec fn obeys_from_spec() -> bool {
        true
    }

    open spec fn from_spec(other: R12) -> R19 {
        R19::from_nat(other@)
    }
}

impl From<R13> for R19 {
    fn from(other: R13) -> (r: R19) {
        widen(other)
    }
}

impl FromSpecImpl<R13> for R19 {
    open spec fn obeys_from_spec() -> bool {
        true
    }

    open spec fn from_spec(other: R13) -> R19 {
        R19::from_nat(other@)
    }
}

impl From<R14> for R19 {
    fn from(other: R14) -> (r: R19) {
        widen(other)
    }
}

impl FromSpecImpl<R14> for R19 {
    open spec fn obeys_from_spec() -> bool {
        true
    }

    open spec fn from_spec(other: R14) -> R19 {
        R19::from_nat(other@)
    }
}

impl From<R15> for R19 {
    fn from(other: R15) -> (r: R19) {
        widen(other)
    }
}

impl FromSpecImpl<R15> for R19 {
    open spec fn obeys_from_spec() -> bool {
        true
    }

    open spec fn from_spec(other: R15) -> R19 {
        R19::from_nat(other@)
    }
}

impl From<R16> for R19 {
    fn from(other: R16) -> (r: R19) {
        widen(other)
    }
}

impl FromSpecImpl<R16> for R19 {
    open spec fn obeys_from_spec() -> bool {
        true
    }

    open spec fn from_spec(other: R16) -> R19 {
        R19::from_nat(other@)
    }
}

impl From<R17> for R19 {
    fn from(other: R17) -> (r: R19) {
        widen(other)
    }
}

impl FromSpecImpl<R17> for R19 {
    open spec fn obeys_from_spec() -> bool {
        true
    }

    open spec fn from_spec(other: R17) -> R19 {
        R19::from_nat(other@)
    }
}

impl From<R18> for R19 {
    fn from(other: R18) -> (r: R19) {
        widen(other)
    }
}

impl FromSpecImpl<R18> for R19 {
    open spec fn obeys_from_spec() -> bool {
        true
    }

    open spec fn from_spec(other: R18) -> R19 {
        R19::from_nat(other@)
    }
}

impl From<R1> for R20 {
    fn from(other: R1) -> (r: R20) {
        widen(other)
    }
}

impl FromSpecImpl<R1> for R20 {
    open spec fn obeys_from_spec() -> bool {
        true
    }

    open spec fn from_spec(other: R1) -> R20 {
        R20::from_nat(other@)
    }
}

impl From<R2> for R20 {
    fn from(other: R2) -> (r: R20) {
        widen(other)
    }
}

impl FromSpecImpl<R2> for R20 {
    open spec fn obeys_from_spec() -> bool {
        true
    }

    open spec fn from_spec(other: R2) -> R20 {
        R20::from_nat(other@)
    }
}

impl From<R3> for R20 {
    fn from(other: R3) -> (r: R20) {
        widen(other)
    }
}

impl FromSpecImpl<R3> for R20 {
    open spec fn obeys_from_spec() -> bool {
        true
    }

    open spec fn from_spec(other: R3) -> R20 {
        R20::from_nat(other@)
    }
}

impl From<R4> for R20 {
    fn from(other: R4) -> (r: R20) {
        widen(other)
    }
}

impl FromSpecImpl<R4> for R20 {
    open spec fn obeys_from_spec() -> bool {
        true
    }

    open spec fn from_spec(other: R4) -> R20 {
        R20::from_nat(other@)
    }
}

impl From<R5> for R20 {
    fn from(other: R5) -> (r: R20) {
        widen(other)
    }
}

impl FromSpecImpl<R5> for R20 {
    open spec fn obeys_from_spec() -> bool {
        true
    }

    open spec fn from_spec(other: R5) -> R20 {
        R20::from_nat(other@)
    }
}

impl From<R6> for R20 {
    fn from(other: R6) -> (r: R20) {
        widen(other)
    }
}

impl FromSpecImpl<R6> for R20 {
    open spec fn obeys_from_spec() -> bool {
        true
    }

    open spec fn from_spec(other: R6) -> R20 {
        R20::from_nat(other@)
    }
}

impl From<R7> for R20 {
    fn from(other: R7) -> (r: R20) {
        widen(other)
    }
}

impl FromSpecImpl<R7> for R20 {
    open spec fn obeys_from_spec() -> bool {
        true
    }

    open spec fn from_spec(other: R7) -> R20 {
        R20::from_nat(other@)
    }
}

impl From<R8> for R20 {
    fn from(other: R8) -> (r: R20) {
        widen(other)
    }
}

impl FromSpecImpl<R8> for R20 {
    open spec fn obeys_from_spec() -> bool {
        true
    }

    open spec fn from_spec(other: R8) -> R20 {
        R20::from_nat(other@)
    }
}

impl From<R9> for R20 {
    fn from(other: R9) -> (r: R20) {
        widen(other)
    }
}

impl FromSpecImpl<R9> for R20 {
    open spec fn obeys_from_spec() -> bool {
        true
    }

    open spec fn from_spec(other: R9) -> R20 {
        R20::from_nat(other@)
    }
}

impl From<R10> for R20 {
    fn from(other: R10) -> (r: R20) {
        widen(other)
    }
}

impl FromSpecImpl<R10> for R20 {
    open spec fn obeys_from_spec() -> bool {
        true
    }

    open spec fn from_spec(other: R10) -> R20 {
        R20::from_nat(other@)
    }
}

impl From<R11> for R20 {
    fn from(other: R11) -> (r: R20) {
        widen(other)
    }
}

impl FromSpecImpl<R11> for R20 {
    open spec fn obeys_from_spec() -> bool {
        true
    }

    open spec fn from_spec(other: R11) -> R20 {
        R20::from_nat(other@)
    }
}

impl From<R12> for R20 {
    fn from(other: R12) -> (r: R20) {
        widen(other)
    }
}

impl FromSpecImpl<R12> for R20 {
    open spec fn obeys_from_spec() -> bool {
        true
    }

    open spec fn from_spec(other: R12) -> R20 {
        R20::from_nat(other@)
    }
}

impl From<R13> for R20 {
    fn from(other: R13) -> (r: R20) {
        widen(other)
    }
}

impl FromSpecImpl<R13> for R20 {
    open spec fn obeys_from_spec() -> bool {
        true
    }

    open spec fn from_spec(other: R13) -> R20 {
        R20::from_nat(other@)
    }
}

impl From<R14> for R20 {
    fn from(other: R14) -> (r: R20) {
        widen(other)
    }
}

impl FromSpecImpl<R14> for R20 {
    open spec fn obeys_from_spec() -> bool {
        true
    }

    open spec fn from_spec(other: R14) -> R20 {
        R20::from_nat(other@)
    }
}

impl From<R15> for R20 {
    fn from(other: R15) -> (r: R20) {
        widen(other)
    }
}

impl FromSpecImpl<R15> for R20 {
    open spec fn obeys_from_spec() -> bool {
        true
    }

    open spec fn from_spec(other: R15) -> R20 {
        R20::from_nat(other@)
    }
}

impl From<R16> for R20 {
    fn from(other: R16) -> (r: R20) {
        widen(other)
    }
}

impl FromSpecImpl<R16> for R20 {
    open spec fn obeys_from_spec() -> bool {
        true
    }

    open spec fn from_spec(other: R16) -> R20 {
        R20::from_nat(other@)
    }
}

impl From<R17> for R20 {
    fn from(other: R17) -> (r: R20) {
        widen(other)
    }
}

impl FromSpecImpl<R17> for R20 {
    open spec fn obeys_from_spec() -> bool {
        true
    }

    open spec fn from_spec(other: R17) -> R20 {
        R20::from_nat(other@)
    }
}

impl From<R18> for R20 {
    fn from(other: R18) -> (r: R20) {
        widen(other)
    }
}

impl FromSpecImpl<R18> for R20 {
    open spec fn obeys_from_spec() -> bool {
        true
    }

    open spec fn from_spec(other: R18) -> R20 {
        R20::from_nat(other@)
    }
}

impl From<R19> for R20 {
    fn from(other: R19) -> (r: R20) {
        widen(other)
    }
}

impl FromSpecImpl<R19> for R20 {
    open spec fn obeys_from_spec() -> bool {
        true
    }

    open spec fn from_spec(other: R19) -> R20 {
        R20::from_nat(other@)
    }
}

impl From<R1> for R21 {
    fn from(other: R1) -> (r: R21) {
        widen(other)
    }
}

impl FromSpecImpl<R1> for R21 {
    open spec fn obeys_from_spec() -> bool {
        true
    }

    open spec fn from_spec(other: R1) -> R21 {
        R21::from_nat(other@)
    }
}

impl From<R2> for R21 {
    fn from(other: R2) -> (r: R21) {
        widen(other)
    }
}

impl FromSpecImpl<R2> for R21 {
    open spec fn obeys_from_spec() -> bool {
        true
    }

    open spec fn from_spec(other: R2) -> R21 {
        R21::from_nat(other@)
    }
}

impl From<R3> for R21 {
    fn from(other: R3) -> (r: R21) {
        widen(other)
    }
}

impl FromSpecImpl<R3> for R21 {
    open spec fn obeys_from_spec() -> bool {
        true
    }

    open spec fn from_spec(other: R3) -> R21 {
        R21::from_nat(other@)
    }
}

impl From<R4> for R21 {
    fn from(other: R4) -> (r: R21) {
        widen(other)
    }
}

impl FromSpecImpl<R4> for R21 {
    open spec fn obeys_from_spec() -> bool {
        true
    }

    open spec fn from_spec(other: R4) -> R21 {
        R21::from_nat(other@)
    }
}

impl From<R5> for R21 {
    fn from(other: R5) -> (r: R21) {
        widen(other)
    }
}

impl FromSpecImpl<R5> for R21 {
    open spec fn obeys_from_spec() -> bool {
        true
    }

    open spec fn from_spec(other: R5) -> R21 {
        R21::from_nat(other@)
    }
}

impl From<R6> for R21 {
    fn from(other: R6) -> (r: R21) {
        widen(other)
    }
}

impl FromSpecImpl<R6> for R21 {
    open spec fn obeys_from_spec() -> bool {
        true
    }

    open spec fn from_spec(other: R6) -> R21 {
        R21::from_nat(other@)
    }
}

impl From<R7> for R21 {
    fn from(other: R7) -> (r: R21) {
        widen(other)
    }
}

impl FromSpecImpl<R7> for R21 {
    open spec fn obeys_from_spec() -> bool {
        true
    }

    open spec fn from_spec(other: R7) -> R21 {
        R21::from_nat(other@)
    }
}

impl From<R8> for R21 {
    fn from(other: R8) -> (r: R21) {
        widen(other)
    }
}

impl FromSpecImpl<R8> for R21 {
    open spec fn obeys_from_spec() -> bool {
        true
    }

    open spec fn from_spec(other: R8) -> R21 {
        R21::from_nat(other@)
    }
}

impl From<R9> for R21 {
    fn from(other: R9) -> (r: R21) {
        widen(other)
    }
}

impl FromSpecImpl<R9> for R21 {
    open spec fn obeys_from_spec() -> bool {
        true
    }

    open spec fn from_spec(other: R9) -> R21 {
        R21::from_nat(other@)
    }
}

impl From<R10> for R21 {
    fn from(other: R10) -> (r: R21) {
        widen(other)
    }
}

impl FromSpecImpl<R10> for R21 {
    open spec fn obeys_from_spec() -> bool {
        true
    }

    open spec fn from_spec(other: R10) -> R21 {
        R21::from_nat(other@)
    }
}

impl From<R11> for R21 {
    fn from(other: R11) -> (r: R21) {
        widen(other)
    }
}

impl FromSpecImpl<R11> for R21 {
    open spec fn obeys_from_spec() -> bool {
        true
    }

    open spec fn from_spec(other: R11) -> R21 {
        R21::from_nat(other@)
    }
}

impl From<R12> for R21 {
    fn from(other: R12) -> (r: R21) {
        widen(other)
    }
}

impl FromSpecImpl<R12> for R21 {
    open spec fn obeys_from_spec() -> bool {
        true
    }

    open spec fn from_spec(other: R12) -> R21 {
        R21::from_nat(other@)
    }
}

impl From<R13> for R21 {
    fn from(other: R13) -> (r: R21) {
        widen(other)
    }
}

impl FromSpecImpl<R13> for R21 {
    open spec fn obeys_from_spec() -> bool {
        true
    }

    open spec fn from_spec(other: R13) -> R21 {
        R21::from_nat(other@)
    }
}

impl From<R14> for R21 {
    fn from(other: R14) -> (r: R21) {
        widen(other)
    }
}

impl FromSpecImpl<R14> for R21 {
    open spec fn obeys_from_spec() -> bool {
        true
    }

    open spec fn from_spec(other: R14) -> R21 {
        R21::from_nat(other@)
    }
}

impl From<R15> for R21 {
    fn from(other: R15) -> (r: R21) {
        widen(other)
    }
}

impl FromSpecImpl<R15> for R21 {
    open spec fn obeys_from_spec() -> bool {
        true
    }

    open spec fn from_spec(other: R15) -> R21 {
        R21::from_nat(other@)
    }
}

impl From<R16> for R21 {
    fn from(other: R16) -> (r: R21) {
        widen(other)
    }
}

impl FromSpecImpl<R16> for R21 {
    open spec fn obeys_from_spec() -> bool {
        true
    }

    open spec fn from_spec(other: R16) -> R21 {
        R21::from_nat(other@)
    }
}

impl From<R17> for R21 {
    fn from(other: R17) -> (r: R21) {
        widen(other)
    }
}

impl FromSpecImpl<R17> for R21 {
    open spec fn obeys_from_spec() -> bool {
        true
    }

    open spec fn from_spec(other: R17) -> R21 {
        R21::from_nat(other@)
    }
}

impl From<R18> for R21 {
    fn from(other: R18) -> (r: R21) {
        widen(other)
    }
}

impl FromSpecImpl<R18> for R21 {
    open spec fn obeys_from_spec() -> bool {
        true
    }

    open spec fn from_spec(other: R18) -> R21 {
        R21::from_nat(other@)
    }
}

impl From<R19> for R21 {
    fn from(other: R19) -> (r: R21) {
        widen(other)
    }
}

impl FromSpecImpl<R19> for R21 {
    open spec fn obeys_from_spec() -> bool {
        true
    }

    open spec fn from_spec(other: R19) -> R21 {
        R21::from_nat(other@)
    }
}

impl From<R20> for R21 {
    fn from(other: R20) -> (r: R21) {
        widen(other)
    }
}

impl FromSpecImpl<R20> for R21 {
    open spec fn obeys_from_spec() -> bool {
        true
    }

    open spec fn from_spec(other: R20) -> R21 {
        R21::from_nat(other@)
    }
}

impl From<R1> for R22 {
    fn from(other: R1) -> (r: R22) {
        widen(other)
    }
}

impl FromSpecImpl<R1> for R22 {
    open spec fn obeys_from_spec() -> bool {
        true
    }

    open spec fn from_spec(other: R1) -> R22 {
        R22::from_nat(other@)
    }
}

impl From<R2> for R22 {
    fn from(other: R2) -> (r: R22) {
        widen(other)
    }
}

impl FromSpecImpl<R2> for R22 {
    open spec fn obeys_from_spec() -> bool {
        true
    }

    open spec fn from_spec(other: R2) -> R22 {
        R22::from_nat(other@)
    }
}

impl From<R3> for R22 {
    fn from(other: R3) -> (r: R22) {
        widen(other)
    }
}

impl FromSpecImpl<R3> for R22 {
    open spec fn obeys_from_spec() -> bool {
        true
    }

    open spec fn from_spec(other: R3) -> R22 {
        R22::from_nat(other@)
    }
}

impl From<R4> for R22 {
    fn from(other: R4) -> (r: R22) {
        widen(other)
    }
}

impl FromSpecImpl<R4> for R22 {
    open spec fn obeys_from_spec() -> bool {
        true
    }

    open spec fn from_spec(other: R4) -> R22 {
        R22::from_nat(other@)
    }
}

impl From<R5> for R22 {
    fn from(other: R5) -> (r: R22) {
        widen(other)
    }
}

impl FromSpecImpl<R5> for R22 {
    open spec fn obeys_from_spec() -> bool {
        true
    }

    open spec fn from_spec(other: R5) -> R22 {
        R22::from_nat(other@)
    }
}

impl From<R6> for R22 {
    fn from(other: R6) -> (r: R22) {
        widen(other)
    }
}

impl FromSpecImpl<R6> for R22 {
    open spec fn obeys_from_spec() -> bool {
        true
    }

    open spec fn from_spec(other: R6) -> R22 {
        R22::from_nat(other@)
    }
}

impl From<R7> for R22 {
    fn from(other: R7) -> (r: R22) {
        widen(other)
    }
}

impl FromSpecImpl<R7> for R22 {
    open spec fn obeys_from_spec() -> bool {
        true
    }

    open spec fn from_spec(other: R7) -> R22 {
        R22::from_nat(other@)
    }
}

impl From<R8> for R22 {
    fn from(other: R8) -> (r: R22) {
        widen(other)
    }
}

impl FromSpecImpl<R8> for R22 {
    open spec fn obeys_from_spec() -> bool {
        true
    }

    open spec fn from_spec(other: R8) -> R22 {
        R22::from_nat(other@)
    }
}

impl From<R9> for R22 {
    fn from(other: R9) -> (r: R22) {
        widen(other)
    }
}

impl FromSpecImpl<R9> for R22 {
    open spec fn obeys_from_spec() -> bool {
        true
    }

    open spec fn from_spec(other: R9) -> R22 {
        R22::from_nat(other@)
    }
}

impl From<R10> for R22 {
    fn from(other: R10) -> (r: R22) {
        widen(other)
    }
}

impl FromSpecImpl<R10> for R22 {
    open spec fn obeys_from_spec() -> bool {
        true
    }

    open spec fn from_spec(other: R10) -> R22 {
        R22::from_nat(other@)
    }
}

impl From<R11> for R22 {
    fn from(other: R11) -> (r: R22) {
        widen(other)
    }
}

impl FromSpecImpl<R11> for R22 {
    open spec fn obeys_from_spec() -> bool {
        true
    }

    open spec fn from_spec(other: R11) -> R22 {
        R22::from_nat(other@)
    }
}

impl From<R12> for R22 {
    fn from(other: R12) -> (r: R22) {
        widen(other)
    }
}

impl FromSpecImpl<R12> for R22 {
    open spec fn obeys_from_spec() -> bool {
        true
    }

    open spec fn from_spec(other: R12) -> R22 {
        R22::from_nat(other@)
    }
}

impl From<R13> for R22 {
    fn from(other: R13) -> (r: R22) {
        widen(other)
    }
}

impl FromSpecImpl<R13> for R22 {
    open spec fn obeys_from_spec() -> bool {
        true
    }

    open spec fn from_spec(other: R13) -> R22 {
        R22::from_nat(other@)
    }
}

impl From<R14> for R22 {
    fn from(other: R14) -> (r: R22) {
        widen(other)
    }
}

impl FromSpecImpl<R14> for R22 {
    open spec fn obeys_from_spec() -> bool {
        true
    }

    open spec fn from_spec(other: R14) -> R22 {
        R22::from_nat(other@)
    }
}

impl From<R15> for R22 {
    fn from(other: R15) -> (r: R22) {
        widen(other)
    }
}

impl FromSpecImpl<R15> for R22 {
    open spec fn obeys_from_spec() -> bool {
        true
    }

    open spec fn from_spec(other: R15) -> R22 {
        R22::from_nat(other@)
    }
}

impl From<R16> for R22 {
    fn from(other: R16) -> (r: R22) {
        widen(other)
    }
}

impl FromSpecImpl<R16> for R22 {
    open spec fn obeys_from_spec() -> bool {
        true
    }

    open spec fn from_spec(other: R16) -> R22 {
        R22::from_nat(other@)
    }
}

impl From<R17> for R22 {
    fn from(other: R17) -> (r: R22) {
        widen(other)
    }
}

impl FromSpecImpl<R17> for R22 {
    open spec fn obeys_from_spec() -> bool {
        true
    }

    open spec fn from_spec(other: R17) -> R22 {
        R22::from_nat(other@)
    }
}

impl From<R18> for R22 {
    fn from(other: R18) -> (r: R22) {
        widen(other)
    }
}

impl FromSpecImpl<R18> for R22 {
    open spec fn obeys_from_spec() -> bool {
        true
    }

    open spec fn from_spec(other: R18) -> R22 {
        R22::from_nat(other@)
    }
}

impl From<R19> for R22 {
    fn from(other: R19) -> (r: R22) {
        widen(other)
    }
}

impl FromSpecImpl<R19> for R22 {
    open spec fn obeys_from_spec() -> bool {
        true
    }

    open spec fn from_spec(other: R19) -> R22 {
        R22::from_nat(other@)
    }
}

impl From<R20> for R22 {
    fn from(other: R20) -> (r: R22) {
        widen(other)
    }
}

impl FromSpecImpl<R20> for R22 {
    open spec fn obeys_from_spec() -> bool {
        true
    }

    open spec fn from_spec(other: R20) -> R22 {
        R22::from_nat(other@)
    }
}

impl From<R21> for R22 {
    fn from(other: R21) -> (r: R22) {
        widen(other)
    }
}

impl FromSpecImpl<R21> for R22 {
    open spec fn obeys_from_spec() -> bool {
        true
    }

    open spec fn from_spec(other: R21) -> R22 {
        R22::from_nat(other@)
    }
}

impl From<R1> for R23 {
    fn from(other: R1) -> (r: R23) {
        widen(other)
    }
}

impl FromSpecImpl<R1> for R23 {
    open spec fn obeys_from_spec() -> bool {
        true
    }

    open spec fn from_spec(other: R1) -> R23 {
        R23::from_nat(other@)
    }
}

impl From<R2> for R23 {
    fn from(other: R2) -> (r: R23) {
        widen(other)
    }
}

impl FromSpecImpl<R2> for R23 {
    open spec fn obeys_from_spec() -> bool {
        true
    }

    open spec fn from_spec(other: R2) -> R23 {
        R23::from_nat(other@)
    }
}

impl From<R3> for R23 {
    fn from(other: R3) -> (r: R23) {
        widen(other)
    }
}

impl FromSpecImpl<R3> for R23 {
    open spec fn obeys_from_spec() -> bool {
        true
    }

    open spec fn from_spec(other: R3) -> R23 {
        R23::from_nat(other@)
    }
}

impl From<R4> for R23 {
    fn from(other: R4) -> (r: R23) {
        widen(other)
    }
}

impl FromSpecImpl<R4> for R23 {
    open spec fn obeys_from_spec() -> bool {
        true
    }

    open spec fn from_spec(other: R4) -> R23 {
        R23::from_nat(other@)
    }
}

impl From<R5> for R23 {
    fn from(other: R5) -> (r: R23) {
        widen(other)
    }
}

impl FromSpecImpl<R5> for R23 {
    open spec fn obeys_from_spec() -> bool {
        true
    }

    open spec fn from_spec(other: R5) -> R23 {
        R23::from_nat(other@)
    }
}

impl From<R6> for R23 {
    fn from(other: R6) -> (r: R23) {
        widen(other)
    }
}

impl FromSpecImpl<R6> for R23 {
    open spec fn obeys_from_spec() -> bool {
        true
    }

    open spec fn from_spec(other: R6) -> R23 {
        R23::from_nat(other@)
    }
}

impl From<R7> for R23 {
    fn from(other: R7) -> (r: R23) {
        widen(other)
    }
}

impl FromSpecImpl<R7> for R23 {
    open spec fn obeys_from_spec() -> bool {
        true
    }

    open spec fn from_spec(other: R7) -> R23 {
        R23::from_nat(other@)
    }
}

impl From<R8> for R23 {
    fn from(other: R8) -> (r: R23) {
        widen(other)
    }
}

impl FromSpecImpl<R8> for R23 {
    open spec fn obeys_from_spec() -> bool {
        true
    }

    open spec fn from_spec(other: R8) -> R23 {
        R23::from_nat(other@)
    }
}

impl From<R9> for R23 {
    fn from(other: R9) -> (r: R23) {
        widen(other)
    }
}

impl FromSpecImpl<R9> for R23 {
    open spec fn obeys_from_spec() -> bool {
        true
    }

    open spec fn from_spec(other: R9) -> R23 {
        R23::from_nat(other@)
    }
}

impl From<R10> for R23 {
    fn from(other: R10) -> (r: R23) {
        widen(other)
    }
}

impl FromSpecImpl<R10> for R23 {
    open spec fn obeys_from_spec() -> bool {
        true
    }

    open spec fn from_spec(other: R10) -> R23 {
        R23::from_nat(other@)
    }
}

impl From<R11> for R23 {
    fn from(other: R11) -> (r: R23) {
        widen(other)
    }
}

impl FromSpecImpl<R11> for R23 {
    open spec fn obeys_from_spec() -> bool {
        true
    }

    open spec fn from_spec(other: R11) -> R23 {
        R23::from_nat(other@)
    }
}

impl From<R12> for R23 {
    fn from(other: R12) -> (r: R23) {
        widen(other)
    }
}

impl FromSpecImpl<R12> for R23 {
    open spec fn obeys_from_spec() -> bool {
        true
    }

    open spec fn from_spec(other: R12) -> R23 {
        R23::from_nat(other@)
    }
}

impl From<R13> for R23 {
    fn from(other: R13) -> (r: R23) {
        widen(other)
    }
}

impl FromSpecImpl<R13> for R23 {
    open spec fn obeys_from_spec() -> bool {
        true
    }

    open spec fn from_spec(other: R13) -> R23 {
        R23::from_nat(other@)
    }
}

impl From<R14> for R23 {
    fn from(other: R14) -> (r: R23) {
        widen(other)
    }
}

impl FromSpecImpl<R14> for R23 {
    open spec fn obeys_from_spec() -> bool {
        true
    }

    open spec fn from_spec(other: R14) -> R23 {
        R23::from_nat(other@)
    }
}

impl From<R15> for R23 {
    fn from(other: R15) -> (r: R23) {
        widen(other)
    }
}

impl FromSpecImpl<R15> for R23 {
    open spec fn obeys_from_spec() -> bool {
        true
    }

    open spec fn from_spec(other: R15) -> R23 {
        R23::from_nat(other@)
    }
}

impl From<R16> for R23 {
    fn from(other: R16) -> (r: R23) {
        widen(other)
    }
}

impl FromSpecImpl<R16> for R23 {
    open spec fn obeys_from_spec() -> bool {
        true
    }

    open spec fn from_spec(other: R16) -> R23 {
        R23::from_nat(other@)
    }
}

impl From<R17> for R23 {
    fn from(other: R17) -> (r: R23) {
        widen(other)
    }
}

impl FromSpecImpl<R17> for R23 {
    open spec fn obeys_from_spec() -> bool {
        true
    }

    open spec fn from_spec(other: R17) -> R23 {
        R23::from_nat(other@)
    }
}

impl From<R18> for R23 {
    fn from(other: R18) -> (r: R23) {
        widen(other)
    }
}

impl FromSpecImpl<R18> for R23 {
    open spec fn obeys_from_spec() -> bool {
        true
    }

    open spec fn from_spec(other: R18) -> R23 {
        R23::from_nat(other@)
    }
}

impl From<R19> for R23 {
    fn from(other: R19) -> (r: R23) {
        widen(other)
    }
}

impl FromSpecImpl<R19> for R23 {
    open spec fn obeys_from_spec() -> bool {
        true
    }

    open spec fn from_spec(other: R19) -> R23 {
        R23::from_nat(other@)
    }
}

impl From<R20> for R23 {
    fn from(other: R20) -> (r: R23) {
        widen(other)
    }
}

impl FromSpecImpl<R20> for R23 {
    open spec fn obeys_from_spec() -> bool {
        true
    }

    open spec fn from_spec(other: R20) -> R23 {
        R23::from_nat(other@)
    }
}

impl From<R21> for R23 {
    fn from(other: R21) -> (r: R23) {
        widen(other)
    }
}

impl FromSpecImpl<R21> for R23 {
    open spec fn obeys_from_spec() -> bool {
        true
    }

    open spec fn from_spec(other: R21) -> R23 {
        R23::from_nat(other@)
    }
}

impl From<R22> for R23 {
    fn from(other: R22) -> (r: R23) {
        widen(other)
    }
}

impl FromSpecImpl<R22> for R23 {
    open spec fn obeys_from_spec() -> bool {
        true
    }

    open spec fn from_spec(other: R22) -> R23 {
        R23::from_nat(other@)
    }
}

impl From<R1> for R24 {
    fn from(other: R1) -> (r: R24) {
        widen(other)
    }
}

impl FromSpecImpl<R1> for R24 {
    open spec fn obeys_from_spec() -> bool {
        true
    }

    open spec fn from_spec(other: R1) -> R24 {
        R24::from_nat(other@)
    }
}

impl From<R2> for R24 {
    fn from(other: R2) -> (r: R24) {
        widen(other)
    }
}

impl FromSpecImpl<R2> for R24 {
    open spec fn obeys_from_spec() -> bool {
        true
    }

    open spec fn from_spec(other: R2) -> R24 {
        R24::from_nat(other@)
    }
}

impl From<R3> for R24 {
    fn from(other: R3) -> (r: R24) {
        widen(other)
    }
}

impl FromSpecImpl<R3> for R24 {
    open spec fn obeys_from_spec() -> bool {
        true
    }

    open spec fn from_spec(other: R3) -> R24 {
        R24::from_nat(other@)
    }
}

impl From<R4> for R24 {
    fn from(other: R4) -> (r: R24) {
        widen(other)
    }
}

impl FromSpecImpl<R4> for R24 {
    open spec fn obeys_from_spec() -> bool {
        true
    }

    open spec fn from_spec(other: R4) -> R24 {
        R24::from_nat(other@)
    }
}

impl From<R5> for R24 {
    fn from(other: R5) -> (r: R24) {
        widen(other)
    }
}

impl FromSpecImpl<R5> for R24 {
    open spec fn obeys_from_spec() -> bool {
        true
    }

    open spec fn from_spec(other: R5) -> R24 {
        R24::from_nat(other@)
    }
}

impl From<R6> for R24 {
    fn from(other: R6) -> (r: R24) {
        widen(other)
    }
}

impl FromSpecImpl<R6> for R24 {
    open spec fn obeys_from_spec() -> bool {
        true
    }

    open spec fn from_spec(other: R6) -> R24 {
        R24::from_nat(other@)
    }
}

impl From<R7> for R24 {
    fn from(other: R7) -> (r: R24) {
        widen(other)
    }
}

impl FromSpecImpl<R7> for R24 {
    open spec fn obeys_from_spec() -> bool {
        true
    }

    open spec fn from_spec(other: R7) -> R24 {
        R24::from_nat(other@)
    }
}

impl From<R8> for R24 {
    fn from(other: R8) -> (r: R24) {
        widen(other)
    }
}

impl FromSpecImpl<R8> for R24 {
    open spec fn obeys_from_spec() -> bool {
        true
    }

    open spec fn from_spec(other: R8) -> R24 {
        R24::from_nat(other@)
    }
}

impl From<R9> for R24 {
    fn from(other: R9) -> (r: R24) {
        widen(other)
    }
}

impl FromSpecImpl<R9> for R24 {
    open spec fn obeys_from_spec() -> bool {
        true
    }

    open spec fn from_spec(other: R9) -> R24 {
        R24::from_nat(other@)
    }
}

impl From<R10> for R24 {
    fn from(other: R10) -> (r: R24) {
        widen(other)
    }
}

impl FromSpecImpl<R10> for R24 {
    open spec fn obeys_from_spec() -> bool {
        true
    }

    open spec fn from_spec(other: R10) -> R24 {
        R24::from_nat(other@)
    }
}

impl From<R11> for R24 {
    fn from(other: R11) -> (r: R24) {
        widen(other)
    }
}

impl FromSpecImpl<R11> for R24 {
    open spec fn obeys_from_spec() -> bool {
        true
    }

    open spec fn from_spec(other: R11) -> R24 {
        R24::from_nat(other@)
    }
}

impl From<R12> for R24 {
    fn from(other: R12) -> (r: R24) {
        widen(other)
    }
}

impl FromSpecImpl<R12> for R24 {
    open spec fn obeys_from_spec() -> bool {
        true
    }

    open spec fn from_spec(other: R12) -> R24 {
        R24::from_nat(other@)
    }
}

impl From<R13> for R24 {
    fn from(other: R13) -> (r: R24) {
        widen(other)
    }
}

impl FromSpecImpl<R13> for R24 {
    open spec fn obeys_from_spec() -> bool {
        true
    }

    open spec fn from_spec(other: R13) -> R24 {
        R24::from_nat(other@)
    }
}

impl From<R14> for R24 {
    fn from(other: R14) -> (r: R24) {
        widen(other)
    }
}

impl FromSpecImpl<R14> for R24 {
    open spec fn obeys_from_spec() -> bool {
        true
    }

    open spec fn from_spec(other: R14) -> R24 {
        R24::from_nat(other@)
    }
}

impl From<R15> for R24 {
    fn from(other: R15) -> (r: R24) {
        widen(other)
    }
}

impl FromSpecImpl<R15> for R24 {
    open spec fn obeys_from_spec() -> bool {
        true
    }

    open spec fn from_spec(other: R15) -> R24 {
        R24::from_nat(other@)
    }
}

impl From<R16> for R24 {
    fn from(other: R16) -> (r: R24) {
        widen(other)
    }
}

impl FromSpecImpl<R16> for R24 {
    open spec fn obeys_from_spec() -> bool {
        true
    }

    open spec fn from_spec(other: R16) -> R24 {
        R24::from_nat(other@)
    }
}

impl From<R17> for R24 {
    fn from(other: R17) -> (r: R24) {
        widen(other)
    }
}

impl FromSpecImpl<R17> for R24 {
    open spec fn obeys_from_spec() -> bool {
        true
    }

    open spec fn from_spec(other: R17) -> R24 {
        R24::from_nat(other@)
    }
}

impl From<R18> for R24 {
    fn from(other: R18) -> (r: R24) {
        widen(other)
    }
}

impl FromSpecImpl<R18> for R24 {
    open spec fn obeys_from_spec() -> bool {
        true
    }

    open spec fn from_spec(other: R18) -> R24 {
        R24::from_nat(other@)
    }
}

impl From<R19> for R24 {
    fn from(other: R19) -> (r: R24) {
        widen(other)
    }
}

impl FromSpecImpl<R19> for R24 {
    open spec fn obeys_from_spec() -> bool {
        true
    }

    open spec fn from_spec(other: R19) -> R24 {
        R24::from_nat(other@)
    }
}

impl From<R20> for R24 {
    fn from(other: R20) -> (r: R24) {
        widen(other)
    }
}

impl FromSpecImpl<R20> for R24 {
    open spec fn obeys_from_spec() -> bool {
        true
    }

    open spec fn from_spec(other: R20) -> R24 {
        R24::from_nat(other@)
    }
}

impl From<R21> for R24 {
    fn from(other: R21) -> (r: R24) {
        widen(other)
    }
}

impl FromSpecImpl<R21> for R24 {
    open spec fn obeys_from_spec() -> bool {
        true
    }

    open spec fn from_spec(other: R21) -> R24 {
        R24::from_nat(other@)
    }
}

impl From<R22> for R24 {
    fn from(other: R22) -> (r: R24) {
        widen(other)
    }
}

impl FromSpecImpl<R22> for R24 {
    open spec fn obeys_from_spec() -> bool {
        true
    }

    open spec fn from_spec(other: R22) -> R24 {
        R24::from_nat(other@)
    }
}

impl From<R23> for R24 {
    fn from(other: R23) -> (r: R24) {
        widen(other)
    }
}

impl FromSpecImpl<R23> for R24 {
    open spec fn obeys_from_spec() -> bool {
        true
    }

    open spec fn from_spec(other: R23) -> R24 {
        R24::from_nat(other@)
    }
}

impl From<R1> for R25 {
    fn from(other: R1) -> (r: R25) {
        widen(other)
    }
}

impl FromSpecImpl<R1> for R25 {
    open spec fn obeys_from_spec() -> bool {
        true
    }

    open spec fn from_spec(other: R1) -> R25 {
        R25::from_nat(other@)
    }
}

impl From<R2> for R25 {
    fn from(other: R2) -> (r: R25) {
        widen(other)
    }
}

impl FromSpecImpl<R2> for R25 {
    open spec fn obeys_from_spec() -> bool {
        true
    }

    open spec fn from_spec(other: R2) -> R25 {
        R25::from_nat(other@)
    }
}

impl From<R3> for R25 {
    fn from(other: R3) -> (r: R25) {
        widen(other)
    }
}

impl FromSpecImpl<R3> for R25 {
    open spec fn obeys_from_spec() -> bool {
        true
    }

    open spec fn from_spec(other: R3) -> R25 {
        R25::from_nat(other@)
    }
}

impl From<R4> for R25 {
    fn from(other: R4) -> (r: R25) {
        widen(other)
    }
}

impl FromSpecImpl<R4> for R25 {
    open spec fn obeys_from_spec() -> bool {
        true
    }

    open spec fn from_spec(other: R4) -> R25 {
        R25::from_nat(other@)
    }
}

impl From<R5> for R25 {
    fn from(other: R5) -> (r: R25) {
        widen(other)
    }
}

impl FromSpecImpl<R5> for R25 {
    open spec fn obeys_from_spec() -> bool {
        true
    }

    open spec fn from_spec(other: R5) -> R25 {
        R25::from_nat(other@)
    }
}

impl From<R6> for R25 {
    fn from(other: R6) -> (r: R25) {
        widen(other)
    }
}

impl FromSpecImpl<R6> for R25 {
    open spec fn obeys_from_spec() -> bool {
        true
    }

    open spec fn from_spec(other: R6) -> R25 {
        R25::from_nat(other@)
    }
}

impl From<R7> for R25 {
    fn from(other: R7) -> (r: R25) {
        widen(other)
    }
}

impl FromSpecImpl<R7> for R25 {
    open spec fn obeys_from_spec() -> bool {
        true
    }

    open spec fn from_spec(other: R7) -> R25 {
        R25::from_nat(other@)
    }
}

impl From<R8> for R25 {
    fn from(other: R8) -> (r: R25) {
        widen(other)
    }
}

impl FromSpecImpl<R8> for R25 {
    open spec fn obeys_from_spec() -> bool {
        true
    }

    open spec fn from_spec(other: R8) -> R25 {
        R25::from_nat(other@)
    }
}

impl From<R9> for R25 {
    fn from(other: R9) -> (r: R25) {
        widen(other)
    }
}

impl FromSpecImpl<R9> for R25 {
    open spec fn obeys_from_spec() -> bool {
        true
    }

    open spec fn from_spec(other: R9) -> R25 {
        R25::from_nat(other@)
    }
}

impl From<R10> for R25 {
    fn from(other: R10) -> (r: R25) {
        widen(other)
    }
}

impl FromSpecImpl<R10> for R25 {
    open spec fn obeys_from_spec() -> bool {
        true
    }

    open spec fn from_spec(other: R10) -> R25 {
        R25::from_nat(other@)
    }
}

impl From<R11> for R25 {
    fn from(other: R11) -> (r: R25) {
        widen(other)
    }
}

impl FromSpecImpl<R11> for R25 {
    open spec fn obeys_from_spec() -> bool {
        true
    }

    open spec fn from_spec(other: R11) -> R25 {
        R25::from_nat(other@)
    }
}

impl From<R12> for R25 {
    fn from(other: R12) -> (r: R25) {
        widen(other)
    }
}

impl FromSpecImpl<R12> for R25 {
    open spec fn obeys_from_spec() -> bool {
        true
    }

    open spec fn from_spec(other: R12) -> R25 {
        R25::from_nat(other@)
    }
}

impl From<R13> for R25 {
    fn from(other: R13) -> (r: R25) {
        widen(other)
    }
}

impl FromSpecImpl<R13> for R25 {
    open spec fn obeys_from_spec() -> bool {
        true
    }

    open spec fn from_spec(other: R13) -> R25 {
        R25::from_nat(other@)
    }
}

impl From<R14> for R25 {
    fn from(other: R14) -> (r: R25) {
        widen(other)
    }
}

impl FromSpecImpl<R14> for R25 {
    open spec fn obeys_from_spec() -> bool {
        true
    }

    open spec fn from_spec(other: R14) -> R25 {
        R25::from_nat(other@)
    }
}

impl From<R15> for R25 {
    fn from(other: R15) -> (r: R25) {
        widen(other)
    }
}

impl FromSpecImpl<R15> for R25 {
    open spec fn obeys_from_spec() -> bool {
        true
    }

    open spec fn from_spec(other: R15) -> R25 {
        R25::from_nat(other@)
    }
}

impl From<R16> for R25 {
    fn from(other: R16) -> (r: R25) {
        widen(other)
    }
}

impl FromSpecImpl<R16> for R25 {
    open spec fn obeys_from_spec() -> bool {
        true
    }

    open spec fn from_spec(other: R16) -> R25 {
        R25::from_nat(other@)
    }
}

impl From<R17> for R25 {
    fn from(other: R17) -> (r: R25) {
        widen(other)
    }
}

impl FromSpecImpl<R17> for R25 {
    open spec fn obeys_from_spec() -> bool {
        true
    }

    open spec fn from_spec(other: R17) -> R25 {
        R25::from_nat(other@)
    }
}

impl From<R18> for R25 {
    fn from(other: R18) -> (r: R25) {
        widen(other)
    }
}

impl FromSpecImpl<R18> for R25 {
    open spec fn obeys_from_spec() -> bool {
        true
    }

    open spec fn from_spec(other: R18) -> R25 {
        R25::from_nat(other@)
    }
}

impl From<R19> for R25 {
    fn from(other: R19) -> (r: R25) {
        widen(other)
    }
}

impl FromSpecImpl<R19> for R25 {
    open spec fn obeys_from_spec() -> bool {
        true
    }

    open spec fn from_spec(other: R19) -> R25 {
        R25::from_nat(other@)
    }
}

impl From<R20> for R25 {
    fn from(other: R20) -> (r: R25) {
        widen(other)
    }
}

impl FromSpecImpl<R20> for R25 {
    open spec fn obeys_from_spec() -> bool {
        true
    }

    open spec fn from_spec(other: R20) -> R25 {
        R25::from_nat(other@)
    }
}

impl From<R21> for R25 {
    fn from(other: R21) -> (r: R25) {
        widen(other)
    }
}

impl FromSpecImpl<R21> for R25 {
    open spec fn obeys_from_spec() -> bool {
        true
    }

    open spec fn from_spec(other: R21) -> R25 {
        R25::from_nat(other@)
    }
}

impl From<R22> for R25 {
    fn from(other: R22) -> (r: R25) {
        widen(other)
    }
}

impl FromSpecImpl<R22> for R25 {
    open spec fn obeys_from_spec() -> bool {
        true
    }

    open spec fn from_spec(other: R22) -> R25 {
        R25::from_nat(other@)
    }
}

impl From<R23> for R25 {
    fn from(other: R23) -> (r: R25) {
        widen(other)
    }
}

impl FromSpecImpl<R23> for R25 {
    open spec fn obeys_from_spec() -> bool {
        true
    }

    open spec fn from_spec(other: R23) -> R25 {
        R25::from_nat(other@)
    }
}

impl From<R24> for R25 {
    fn from(other: R24) -> (r: R25) {
        widen(other)
    }
}

impl FromSpecImpl<R24> for R25 {
    open spec fn obeys_from_spec() -> bool {
        true
    }

    open spec fn from_spec(other: R24) -> R25 {
        R25::from_nat(other@)
    }
}

impl From<R1> for R26 {
    fn from(other: R1) -> (r: R26) {
        widen(other)
    }
}

impl FromSpecImpl<R1> for R26 {
    open spec fn obeys_from_spec() -> bool {
        true
    }

    open spec fn from_spec(other: R1) -> R26 {
        R26::from_nat(other@)
    }
}

impl From<R2> for R26 {
    fn from(other: R2) -> (r: R26) {
        widen(other)
    }
}

impl FromSpecImpl<R2> for R26 {
    open spec fn obeys_from_spec() -> bool {
        true
    }

    open spec fn from_spec(other: R2) -> R26 {
        R26::from_nat(other@)
    }
}

impl From<R3> for R26 {
    fn from(other: R3) -> (r: R26) {
        widen(other)
    }
}

impl FromSpecImpl<R3> for R26 {
    open spec fn obeys_from_spec() -> bool {
        true
    }

    open spec fn from_spec(other: R3) -> R26 {
        R26::from_nat(other@)
    }
}

impl From<R4> for R26 {
    fn from(other: R4) -> (r: R26) {
        widen(other)
    }
}

impl FromSpecImpl<R4> for R26 {
    open spec fn obeys_from_spec() -> bool {
        true
    }

    open spec fn from_spec(other: R4) -> R26 {
        R26::from_nat(other@)
    }
}

impl From<R5> for R26 {
    fn from(other: R5) -> (r: R26) {
        widen(other)
    }
}

impl FromSpecImpl<R5> for R26 {
    open spec fn obeys_from_spec() -> bool {
        true
    }

    open spec fn from_spec(other: R5) -> R26 {
        R26::from_nat(other@)
    }
}

impl From<R6> for R26 {
    fn from(other: R6) -> (r: R26) {
        widen(other)
    }
}

impl FromSpecImpl<R6> for R26 {
    open spec fn obeys_from_spec() -> bool {
        true
    }

    open spec fn from_spec(other: R6) -> R26 {
        R26::from_nat(other@)
    }
}

impl From<R7> for R26 {
    fn from(other: R7) -> (r: R26) {
        widen(other)
    }
}

impl FromSpecImpl<R7> for R26 {
    open spec fn obeys_from_spec() -> bool {
        true
    }

    open spec fn from_spec(other: R7) -> R26 {
        R26::from_nat(other@)
    }
}

impl From<R8> for R26 {
    fn from(other: R8) -> (r: R26) {
        widen(other)
    }
}

impl FromSpecImpl<R8> for R26 {
    open spec fn obeys_from_spec() -> bool {
        true
    }

    open spec fn from_spec(other: R8) -> R26 {
        R26::from_nat(other@)
    }
}

impl From<R9> for R26 {
    fn from(other: R9) -> (r: R26) {
        widen(other)
    }
}

impl FromSpecImpl<R9> for R26 {
    open spec fn obeys_from_spec() -> bool {
        true
    }

    open spec fn from_spec(other: R9) -> R26 {
        R26::from_nat(other@)
    }
}

impl From<R10> for R26 {
    fn from(other: R10) -> (r: R26) {
        widen(other)
    }
}

impl FromSpecImpl<R10> for R26 {
    open spec fn obeys_from_spec() -> bool {
        true
    }

    open spec fn from_spec(other: R10) -> R26 {
        R26::from_nat(other@)
    }
}

impl From<R11> for R26 {
    fn from(other: R11) -> (r: R26) {
        widen(other)
    }
}

impl FromSpecImpl<R11> for R26 {
    open spec fn obeys_from_spec() -> bool {
        true
    }

    open spec fn from_spec(other: R11) -> R26 {
        R26::from_nat(other@)
    }
}

impl From<R12> for R26 {
    fn from(other: R12) -> (r: R26) {
        widen(other)
    }
}

impl FromSpecImpl<R12> for R26 {
    open spec fn obeys_from_spec() -> bool {
        true
    }

    open spec fn from_spec(other: R12) -> R26 {
        R26::from_nat(other@)
    }
}

impl From<R13> for R26 {
    fn from(other: R13) -> (r: R26) {
        widen(other)
    }
}

impl FromSpecImpl<R13> for R26 {
    open spec fn obeys_from_spec() -> bool {
        true
    }

    open spec fn from_spec(other: R13) -> R26 {
        R26::from_nat(other@)
    }
}

impl From<R14> for R26 {
    fn from(other: R14) -> (r: R26) {
        widen(other)
    }
}

impl FromSpecImpl<R14> for R26 {
    open spec fn obeys_from_spec() -> bool {
        true
    }

    open spec fn from_spec(other: R14) -> R26 {
        R26::from_nat(other@)
    }
}

impl From<R15> for R26 {
    fn from(other: R15) -> (r: R26) {
        widen(other)
    }
}

impl FromSpecImpl<R15> for R26 {
    open spec fn obeys_from_spec() -> bool {
        true
    }

    open spec fn from_spec(other: R15) -> R26 {
        R26::from_nat(other@)
    }
}

impl From<R16> for R26 {
    fn from(other: R16) -> (r: R26) {
        widen(other)
    }
}

impl FromSpecImpl<R16> for R26 {
    open spec fn obeys_from_spec() -> bool {
        true
    }

    open spec fn from_spec(other: R16) -> R26 {
        R26::from_nat(other@)
    }
}

impl From<R17> for R26 {
    fn from(other: R17) -> (r: R26) {
        widen(other)
    }
}

impl FromSpecImpl<R17> for R26 {
    open spec fn obeys_from_spec() -> bool {
        true
    }

    open spec fn from_spec(other: R17) -> R26 {
        R26::from_nat(other@)
    }
}

impl From<R18> for R26 {
    fn from(other: R18) -> (r: R26) {
        widen(other)
    }
}

impl FromSpecImpl<R18> for R26 {
    open spec fn obeys_from_spec() -> bool {
        true
    }

    open spec fn from_spec(other: R18) -> R26 {
        R26::from_nat(other@)
    }
}

impl From<R19> for R26 {
    fn from(other: R19) -> (r: R26) {
        widen(other)
    }
}

impl FromSpecImpl<R19> for R26 {
    open spec fn obeys_from_spec() -> bool {
        true
    }

    open spec fn from_spec(other: R19) -> R26 {
        R26::from_nat(other@)
    }
}

impl From<R20> for R26 {
    fn from(other: R20) -> (r: R26) {
        widen(other)
    }
}

impl FromSpecImpl<R20> for R26 {
    open spec fn obeys_from_spec() -> bool {
        true
    }

    open spec fn from_spec(other: R20) -> R26 {
        R26::from_nat(other@)
    }
}

impl From<R21> for R26 {
    fn from(other: R21) -> (r: R26) {
        widen(other)
    }
}

impl FromSpecImpl<R21> for R26 {
    open spec fn obeys_from_spec() -> bool {
        true
    }

    open spec fn from_spec(other: R21) -> R26 {
        R26::from_nat(other@)
    }
}

impl From<R22> for R26 {
    fn from(other: R22) -> (r: R26) {
        widen(other)
    }
}

impl FromSpecImpl<R22> for R26 {
    open spec fn obeys_from_spec() -> bool {
        true
    }

    open spec fn from_spec(other: R22) -> R26 {
        R26::from_nat(other@)
    }
}

impl From<R23> for R26 {
    fn from(other: R23) -> (r: R26) {
        widen(other)
    }
}

impl FromSpecImpl<R23> for R26 {
    open spec fn obeys_from_spec() -> bool {
        true
    }

    open spec fn from_spec(other: R23) -> R26 {
        R26::from_nat(other@)
    }
}

impl From<R24> for R26 {
    fn from(other: R24) -> (r: R26) {
        widen(other)
    }
}

impl FromSpecImpl<R24> for R26 {
    open spec fn obeys_from_spec() -> bool {
        true
    }

    open spec fn from_spec(other: R24) -> R26 {
        R26::from_nat(other@)
    }
}

impl From<R25> for R26 {
    fn from(other: R25) -> (r: R26) {
        widen(other)
    }
}

impl FromSpecImpl<R25> for R26 {
    open spec fn obeys_from_spec() -> bool {
        true
    }

    open spec fn from_spec(other: R25) -> R26 {
        R26::from_nat(other@)
    }
}

impl From<R1> for R27 {
    fn from(other: R1) -> (r: R27) {
        widen(other)
    }
}

impl FromSpecImpl<R1> for R27 {
    open spec fn obeys_from_spec() -> bool {
        true
    }

    open spec fn from_spec(other: R1) -> R27 {
        R27::from_nat(other@)
    }
}

impl From<R2> for R27 {
    fn from(other: R2) -> (r: R27) {
        widen(other)
    }
}

impl FromSpecImpl<R2> for R27 {
    open spec fn obeys_from_spec() -> bool {
        true
    }

    open spec fn from_spec(other: R2) -> R27 {
        R27::from_nat(other@)
    }
}

impl From<R3> for R27 {
    fn from(other: R3) -> (r: R27) {
        widen(other)
    }
}

impl FromSpecImpl<R3> for R27 {
    open spec fn obeys_from_spec() -> bool {
        true
    }

    open spec fn from_spec(other: R3) -> R27 {
        R27::from_nat(other@)
    }
}

impl From<R4> for R27 {
    fn from(other: R4) -> (r: R27) {
        widen(other)
    }
}

impl FromSpecImpl<R4> for R27 {
    open spec fn obeys_from_spec() -> bool {
        true
    }

    open spec fn from_spec(other: R4) -> R27 {
        R27::from_nat(other@)
    }
}

impl From<R5> for R27 {
    fn from(other: R5) -> (r: R27) {
        widen(other)
    }
}

impl FromSpecImpl<R5> for R27 {
    open spec fn obeys_from_spec() -> bool {
        true
    }

    open spec fn from_spec(other: R5) -> R27 {
        R27::from_nat(other@)
    }
}

impl From<R6> for R27 {
    fn from(other: R6) -> (r: R27) {
        widen(other)
    }
}

impl FromSpecImpl<R6> for R27 {
    open spec fn obeys_from_spec() -> bool {
        true
    }

    open spec fn from_spec(other: R6) -> R27 {
        R27::from_nat(other@)
    }
}

impl From<R7> for R27 {
    fn from(other: R7) -> (r: R27) {
        widen(other)
    }
}

impl FromSpecImpl<R7> for R27 {
    open spec fn obeys_from_spec() -> bool {
        true
    }

    open spec fn from_spec(other: R7) -> R27 {
        R27::from_nat(other@)
    }
}

impl From<R8> for R27 {
    fn from(other: R8) -> (r: R27) {
        widen(other)
    }
}

impl FromSpecImpl<R8> for R27 {
    open spec fn obeys_from_spec() -> bool {
        true
    }

    open spec fn from_spec(other: R8) -> R27 {
        R27::from_nat(other@)
    }
}

impl From<R9> for R27 {
    fn from(other: R9) -> (r: R27) {
        widen(other)
    }
}

impl FromSpecImpl<R9> for R27 {
    open spec fn obeys_from_spec() -> bool {
        true
    }

    open spec fn from_spec(other: R9) -> R27 {
        R27::from_nat(other@)
    }
}

impl From<R10> for R27 {
    fn from(other: R10) -> (r: R27) {
        widen(other)
    }
}

impl FromSpecImpl<R10> for R27 {
    open spec fn obeys_from_spec() -> bool {
        true
    }

    open spec fn from_spec(other: R10) -> R27 {
        R27::from_nat(other@)
    }
}

impl From<R11> for R27 {
    fn from(other: R11) -> (r: R27) {
        widen(other)
    }
}

impl FromSpecImpl<R11> for R27 {
    open spec fn obeys_from_spec() -> bool {
        true
    }

    open spec fn from_spec(other: R11) -> R27 {
        R27::from_nat(other@)
    }
}

impl From<R12> for R27 {
    fn from(other: R12) -> (r: R27) {
        widen(other)
    }
}

impl FromSpecImpl<R12> for R27 {
    open spec fn obeys_from_spec() -> bool {
        true
    }

    open spec fn from_spec(other: R12) -> R27 {
        R27::from_nat(other@)
    }
}

impl From<R13> for R27 {
    fn from(other: R13) -> (r: R27) {
        widen(other)
    }
}

impl FromSpecImpl<R13> for R27 {
    open spec fn obeys_from_spec() -> bool {
        true
    }

    open spec fn from_spec(other: R13) -> R27 {
        R27::from_nat(other@)
    }
}

impl From<R14> for R27 {
    fn from(other: R14) -> (r: R27) {
        widen(other)
    }
}

impl FromSpecImpl<R14> for R27 {
    open spec fn obeys_from_spec() -> bool {
        true
    }

    open spec fn from_spec(other: R14) -> R27 {
        R27::from_nat(other@)
    }
}

impl From<R15> for R27 {
    fn from(other: R15) -> (r: R27) {
        widen(other)
    }
}

impl FromSpecImpl<R15> for R27 {
    open spec fn obeys_from_spec() -> bool {
        true
    }

    open spec fn from_spec(other: R15) -> R27 {
        R27::from_nat(other@)
    }
}

impl From<R16> for R27 {
    fn from(other: R16) -> (r: R27) {
        widen(other)
    }
}

impl FromSpecImpl<R16> for R27 {
    open spec fn obeys_from_spec() -> bool {
        true
    }

    open spec fn from_spec(other: R16) -> R27 {
        R27::from_nat(other@)
    }
}

impl From<R17> for R27 {
    fn from(other: R17) -> (r: R27) {
        widen(other)
    }
}

impl FromSpecImpl<R17> for R27 {
    open spec fn obeys_from_spec() -> bool {
        true
    }

    open spec fn from_spec(other: R17) -> R27 {
        R27::from_nat(other@)
    }
}

impl From<R18> for R27 {
    fn from(other: R18) -> (r: R27) {
        widen(other)
    }
}

impl FromSpecImpl<R18> for R27 {
    open spec fn obeys_from_spec() -> bool {
        true
    }

    open spec fn from_spec(other: R18) -> R27 {
        R27::from_nat(other@)
    }
}

impl From<R19> for R27 {
    fn from(other: R19) -> (r: R27) {
        widen(other)
    }
}

impl FromSpecImpl<R19> for R27 {
    open spec fn obeys_from_spec() -> bool {
        true
    }

    open spec fn from_spec(other: R19) -> R27 {
        R27::from_nat(other@)
    }
}

impl From<R20> for R27 {
    fn from(other: R20) -> (r: R27) {
        widen(other)
    }
}

impl FromSpecImpl<R20> for R27 {
    open spec fn obeys_from_spec() -> bool {
        true
    }

    open spec fn from_spec(other: R20) -> R27 {
        R27::from_nat(other@)
    }
}

impl From<R21> for R27 {
    fn from(other: R21) -> (r: R27) {
        widen(other)
    }
}

impl FromSpecImpl<R21> for R27 {
    open spec fn obeys_from_spec() -> bool {
        true
    }

    open spec fn from_spec(other: R21) -> R27 {
        R27::from_nat(other@)
    }
}

impl From<R22> for R27 {
    fn from(other: R22) -> (r: R27) {
        widen(other)
    }
}

impl FromSpecImpl<R22> for R27 {
    open spec fn obeys_from_spec() -> bool {
        true
    }

    open spec fn from_spec(other: R22) -> R27 {
        R27::from_nat(other@)
    }
}

impl From<R23> for R27 {
    fn from(other: R23) -> (r: R27) {
        widen(other)
    }
}

impl FromSpecImpl<R23> for R27 {
    open spec fn obeys_from_spec() -> bool {
        true
    }

    open spec fn from_spec(other: R23) -> R27 {
        R27::from_nat(other@)
    }
}

impl From<R24> for R27 {
    fn from(other: R24) -> (r: R27) {
        widen(other)
    }
}

impl FromSpecImpl<R24> for R27 {
    open spec fn obeys_from_spec() -> bool {
        true
    }

    open spec fn from_spec(other: R24) -> R27 {
        R27::from_nat(other@)
    }
}

impl From<R25> for R27 {
    fn from(other: R25) -> (r: R27) {
        widen(other)
    }
}

impl FromSpecImpl<R25> for R27 {
    open spec fn obeys_from_spec() -> bool {
        true
    }

    open spec fn from_spec(other: R25) -> R27 {
        R27::from_nat(other@)
    }
}

impl From<R26> for R27 {
    fn from(other: R26) -> (r: R27) {
        widen(other)
    }
}

impl FromSpecImpl<R26> for R27 {
    open spec fn obeys_from_spec() -> bool {
        true
    }

    open spec fn from_spec(other: R26) -> R27 {
        R27::from_nat(other@)
    }
}

impl From<R1> for R28 {
    fn from(other: R1) -> (r: R28) {
        widen(other)
    }
}

impl FromSpecImpl<R1> for R28 {
    open spec fn obeys_from_spec() -> bool {
        true
    }

    open spec fn from_spec(other: R1) -> R28 {
        R28::from_nat(other@)
    }
}

impl From<R2> for R28 {
    fn from(other: R2) -> (r: R28) {
        widen(other)
    }
}

impl FromSpecImpl<R2> for R28 {
    open spec fn obeys_from_spec() -> bool {
        true
    }

    open spec fn from_spec(other: R2) -> R28 {
        R28::from_nat(other@)
    }
}

impl From<R3> for R28 {
    fn from(other: R3) -> (r: R28) {
        widen(other)
    }
}

impl FromSpecImpl<R3> for R28 {
    open spec fn obeys_from_spec() -> bool {
        true
    }

    open spec fn from_spec(other: R3) -> R28 {
        R28::from_nat(other@)
    }
}

impl From<R4> for R28 {
    fn from(other: R4) -> (r: R28) {
        widen(other)
    }
}

impl FromSpecImpl<R4> for R28 {
    open spec fn obeys_from_spec() -> bool {
        true
    }

    open spec fn from_spec(other: R4) -> R28 {
        R28::from_nat(other@)
    }
}

impl From<R5> for R28 {
    fn from(other: R5) -> (r: R28) {
        widen(other)
    }
}

impl FromSpecImpl<R5> for R28 {
    open spec fn obeys_from_spec() -> bool {
        true
    }

    open spec fn from_spec(other: R5) -> R28 {
        R28::from_nat(other@)
    }
}

impl From<R6> for R28 {
    fn from(other: R6) -> (r: R28) {
        widen(other)
    }
}

impl FromSpecImpl<R6> for R28 {
    open spec fn obeys_from_spec() -> bool {
        true
    }

    open spec fn from_spec(other: R6) -> R28 {
        R28::from_nat(other@)
    }
}

impl From<R7> for R28 {
    fn from(other: R7) -> (r: R28) {
        widen(other)
    }
}

impl FromSpecImpl<R7> for R28 {
    open spec fn obeys_from_spec() -> bool {
        true
    }

    open spec fn from_spec(other: R7) -> R28 {
        R28::from_nat(other@)
    }
}

impl From<R8> for R28 {
    fn from(other: R8) -> (r: R28) {
        widen(other)
    }
}

impl FromSpecImpl<R8> for R28 {
    open spec fn obeys_from_spec() -> bool {
        true
    }

    open spec fn from_spec(other: R8) -> R28 {
        R28::from_nat(other@)
    }
}

impl From<R9> for R28 {
    fn from(other: R9) -> (r: R28) {
        widen(other)
    }
}

impl FromSpecImpl<R9> for R28 {
    open spec fn obeys_from_spec() -> bool {
        true
    }

    open spec fn from_spec(other: R9) -> R28 {
        R28::from_nat(other@)
    }
}

impl From<R10> for R28 {
    fn from(other: R10) -> (r: R28) {
        widen(other)
    }
}

impl FromSpecImpl<R10> for R28 {
    open spec fn obeys_from_spec() -> bool {
        true
    }

    open spec fn from_spec(other: R10) -> R28 {
        R28::from_nat(other@)
    }
}

impl From<R11> for R28 {
    fn from(other: R11) -> (r: R28) {
        widen(other)
    }
}

impl FromSpecImpl<R11> for R28 {
    open spec fn obeys_from_spec() -> bool {
        true
    }

    open spec fn from_spec(other: R11) -> R28 {
        R28::from_nat(other@)
    }
}

impl From<R12> for R28 {
    fn from(other: R12) -> (r: R28) {
        widen(other)
    }
}

impl FromSpecImpl<R12> for R28 {
    open spec fn obeys_from_spec() -> bool {
        true
    }

    open spec fn from_spec(other: R12) -> R28 {
        R28::from_nat(other@)
    }
}

impl From<R13> for R28 {
    fn from(other: R13) -> (r: R28) {
        widen(other)
    }
}

impl FromSpecImpl<R13> for R28 {
    open spec fn obeys_from_spec() -> bool {
        true
    }

    open spec fn from_spec(other: R13) -> R28 {
        R28::from_nat(other@)
    }
}

impl From<R14> for R28 {
    fn from(other: R14) -> (r: R28) {
        widen(other)
    }
}

impl FromSpecImpl<R14> for R28 {
    open spec fn obeys_from_spec() -> bool {
        true
    }

    open spec fn from_spec(other: R14) -> R28 {
        R28::from_nat(other@)
    }
}

impl From<R15> for R28 {
    fn from(other: R15) -> (r: R28) {
        widen(other)
    }
}

impl FromSpecImpl<R15> for R28 {
    open spec fn obeys_from_spec() -> bool {
        true
    }

    open spec fn from_spec(other: R15) -> R28 {
        R28::from_nat(other@)
    }
}

impl From<R16> for R28 {
    fn from(other: R16) -> (r: R28) {
        widen(other)
    }
}

impl FromSpecImpl<R16> for R28 {
    open spec fn obeys_from_spec() -> bool {
        true
    }

    open spec fn from_spec(other: R16) -> R28 {
        R28::from_nat(other@)
    }
}

impl From<R17> for R28 {
    fn from(other: R17) -> (r: R28) {
        widen(other)
    }
}

impl FromSpecImpl<R17> for R28 {
    open spec fn obeys_from_spec() -> bool {
        true
    }

    open spec fn from_spec(other: R17) -> R28 {
        R28::from_nat(other@)
    }
}

impl From<R18> for R28 {
    fn from(other: R18) -> (r: R28) {
        widen(other)
    }
}

impl FromSpecImpl<R18> for R28 {
    open spec fn obeys_from_spec() -> bool {
        true
    }

    open spec fn from_spec(other: R18) -> R28 {
        R28::from_nat(other@)
    }
}

impl From<R19> for R28 {
    fn from(other: R19) -> (r: R28) {
        widen(other)
    }
}

impl FromSpecImpl<R19> for R28 {
    open spec fn obeys_from_spec() -> bool {
        true
    }

    open spec fn from_spec(other: R19) -> R28 {
        R28::from_nat(other@)
    }
}

impl From<R20> for R28 {
    fn from(other: R20) -> (r: R28) {
        widen(other)
    }
}

impl FromSpecImpl<R20> for R28 {
    open spec fn obeys_from_spec() -> bool {
        true
    }

    open spec fn from_spec(other: R20) -> R28 {
        R28::from_nat(other@)
    }
}

impl From<R21> for R28 {
    fn from(other: R21) -> (r: R28) {
        widen(other)
    }
}

impl FromSpecImpl<R21> for R28 {
    open spec fn obeys_from_spec() -> bool {
        true
    }

    open spec fn from_spec(other: R21) -> R28 {
        R28::from_nat(other@)
    }
}

impl From<R22> for R28 {
    fn from(other: R22) -> (r: R28) {
        widen(other)
    }
}

impl FromSpecImpl<R22> for R28 {
    open spec fn obeys_from_spec() -> bool {
        true
    }

    open spec fn from_spec(other: R22) -> R28 {
        R28::from_nat(other@)
    }
}

impl From<R23> for R28 {
    fn from(other: R23) -> (r: R28) {
        widen(other)
    }
}

impl FromSpecImpl<R23> for R28 {
    open spec fn obeys_from_spec() -> bool {
        true
    }

    open spec fn from_spec(other: R23) -> R28 {
        R28::from_nat(other@)
    }
}

impl From<R24> for R28 {
    fn from(other: R24) -> (r: R28) {
        widen(other)
    }
}

impl FromSpecImpl<R24> for R28 {
    open spec fn obeys_from_spec() -> bool {
        true
    }

    open spec fn from_spec(other: R24) -> R28 {
        R28::from_nat(other@)
    }
}

impl From<R25> for R28 {
    fn from(other: R25) -> (r: R28) {
        widen(other)
    }
}

impl FromSpecImpl<R25> for R28 {
    open spec fn obeys_from_spec() -> bool {
        true
    }

    open spec fn from_spec(other: R25) -> R28 {
        R28::from_nat(other@)
    }
}

impl From<R26> for R28 {
    fn from(other: R26) -> (r: R28) {
        widen(other)
    }
}

impl FromSpecImpl<R26> for R28 {
    open spec fn obeys_from_spec() -> bool {
        true
    }

    open spec fn from_spec(other: R26) -> R28 {
        R28::from_nat(other@)
    }
}

impl From<R27> for R28 {
    fn from(other: R27) -> (r: R28) {
        widen(other)
    }
}

impl FromSpecImpl<R27> for R28 {
    open spec fn obeys_from_spec() -> bool {
        true
    }

    open spec fn from_spec(other: R27) -> R28 {
        R28::from_nat(other@)
    }
}

impl From<R1> for R29 {
    fn from(other: R1) -> (r: R29) {
        widen(other)
    }
}

impl FromSpecImpl<R1> for R29 {
    open spec fn obeys_from_spec() -> bool {
        true
    }

    open spec fn from_spec(other: R1) -> R29 {
        R29::from_nat(other@)
    }
}

impl From<R2> for R29 {
    fn from(other: R2) -> (r: R29) {
        widen(other)
    }
}

impl FromSpecImpl<R2> for R29 {
    open spec fn obeys_from_spec() -> bool {
        true
    }

    open spec fn from_spec(other: R2) -> R29 {
        R29::from_nat(other@)
    }
}

impl From<R3> for R29 {
    fn from(other: R3) -> (r: R29) {
        widen(other)
    }
}

impl FromSpecImpl<R3> for R29 {
    open spec fn obeys_from_spec() -> bool {
        true
    }

    open spec fn from_spec(other: R3) -> R29 {
        R29::from_nat(other@)
    }
}

impl From<R4> for R29 {
    fn from(other: R4) -> (r: R29) {
        widen(other)
    }
}

impl FromSpecImpl<R4> for R29 {
    open spec fn obeys_from_spec() -> bool {
        true
    }

    open spec fn from_spec(other: R4) -> R29 {
        R29::from_nat(other@)
    }
}

impl From<R5> for R29 {
    fn from(other: R5) -> (r: R29) {
        widen(other)
    }
}

impl FromSpecImpl<R5> for R29 {
    open spec fn obeys_from_spec() -> bool {
        true
    }

    open spec fn from_spec(other: R5) -> R29 {
        R29::from_nat(other@)
    }
}

impl From<R6> for R29 {
    fn from(other: R6) -> (r: R29) {
        widen(other)
    }
}

impl FromSpecImpl<R6> for R29 {
    open spec fn obeys_from_spec() -> bool {
        true
    }

    open spec fn from_spec(other: R6) -> R29 {
        R29::from_nat(other@)
    }
}

impl From<R7> for R29 {
    fn from(other: R7) -> (r: R29) {
        widen(other)
    }
}

impl FromSpecImpl<R7> for R29 {
    open spec fn obeys_from_spec() -> bool {
        true
    }

    open spec fn from_spec(other: R7) -> R29 {
        R29::from_nat(other@)
    }
}

impl From<R8> for R29 {
    fn from(other: R8) -> (r: R29) {
        widen(other)
    }
}

impl FromSpecImpl<R8> for R29 {
    open spec fn obeys_from_spec() -> bool {
        true
    }

    open spec fn from_spec(other: R8) -> R29 {
        R29::from_nat(other@)
    }
}

impl From<R9> for R29 {
    fn from(other: R9) -> (r: R29) {
        widen(other)
    }
}

impl FromSpecImpl<R9> for R29 {
    open spec fn obeys_from_spec() -> bool {
        true
    }

    open spec fn from_spec(other: R9) -> R29 {
        R29::from_nat(other@)
    }
}

impl From<R10> for R29 {
    fn from(other: R10) -> (r: R29) {
        widen(other)
    }
}

impl FromSpecImpl<R10> for R29 {
    open spec fn obeys_from_spec() -> bool {
        true
    }

    open spec fn from_spec(other: R10) -> R29 {
        R29::from_nat(other@)
    }
}

impl From<R11> for R29 {
    fn from(other: R11) -> (r: R29) {
        widen(other)
    }
}

impl FromSpecImpl<R11> for R29 {
    open spec fn obeys_from_spec() -> bool {
        true
    }

    open spec fn from_spec(other: R11) -> R29 {
        R29::from_nat(other@)
    }
}

impl From<R12> for R29 {
    fn from(other: R12) -> (r: R29) {
        widen(other)
    }
}

impl FromSpecImpl<R12> for R29 {
    open spec fn obeys_from_spec() -> bool {
        true
    }

    open spec fn from_spec(other: R12) -> R29 {
        R29::from_nat(other@)
    }
}

impl From<R13> for R29 {
    fn from(other: R13) -> (r: R29) {
        widen(other)
    }
}

impl FromSpecImpl<R13> for R29 {
    open spec fn obeys_from_spec() -> bool {
        true
    }

    open spec fn from_spec(other: R13) -> R29 {
        R29::from_nat(other@)
    }
}

impl From<R14> for R29 {
    fn from(other: R14) -> (r: R29) {
        widen(other)
    }
}

impl FromSpecImpl<R14> for R29 {
    open spec fn obeys_from_spec() -> bool {
        true
    }

    open spec fn from_spec(other: R14) -> R29 {
        R29::from_nat(other@)
    }
}

impl From<R15> for R29 {
    fn from(other: R15) -> (r: R29) {
        widen(other)
    }
}

impl FromSpecImpl<R15> for R29 {
    open spec fn obeys_from_spec() -> bool {
        true
    }

    open spec fn from_spec(other: R15) -> R29 {
        R29::from_nat(other@)
    }
}

impl From<R16> for R29 {
    fn from(other: R16) -> (r: R29) {
        widen(other)
    }
}

impl FromSpecImpl<R16> for R29 {
    open spec fn obeys_from_spec() -> bool {
        true
    }

    open spec fn from_spec(other: R16) -> R29 {
        R29::from_nat(other@)
    }
}

impl From<R17> for R29 {
    fn from(other: R17) -> (r: R29) {
        widen(other)
    }
}

impl FromSpecImpl<R17> for R29 {
    open spec fn obeys_from_spec() -> bool {
        true
    }

    open spec fn from_spec(other: R17) -> R29 {
        R29::from_nat(other@)
    }
}

impl From<R18> for R29 {
    fn from(other: R18) -> (r: R29) {
        widen(other)
    }
}

impl FromSpecImpl<R18> for R29 {
    open spec fn obeys_from_spec() -> bool {
        true
    }

    open spec fn from_spec(other: R18) -> R29 {
        R29::from_nat(other@)
    }
}

impl From<R19> for R29 {
    fn from(other: R19) -> (r: R29) {
        widen(other)
    }
}

impl FromSpecImpl<R19> for R29 {
    open spec fn obeys_from_spec() -> bool {
        true
    }

    open spec fn from_spec(other: R19) -> R29 {
        R29::from_nat(other@)
    }
}

impl From<R20> for R29 {
    fn from(other: R20) -> (r: R29) {
        widen(other)
    }
}

impl FromSpecImpl<R20> for R29 {
    open spec fn obeys_from_spec() -> bool {
        true
    }

    open spec fn from_spec(other: R20) -> R29 {
        R29::from_nat(other@)
    }
}

impl From<R21> for R29 {
    fn from(other: R21) -> (r: R29) {
        widen(other)
    }
}

impl FromSpecImpl<R21> for R29 {
    open spec fn obeys_from_spec() -> bool {
        true
    }

    open spec fn from_spec(other: R21) -> R29 {
        R29::from_nat(other@)
    }
}

impl From<R22> for R29 {
    fn from(other: R22) -> (r: R29) {
        widen(other)
    }
}

impl FromSpecImpl<R22> for R29 {
    open spec fn obeys_from_spec() -> bool {
        true
    }

    open spec fn from_spec(other: R22) -> R29 {
        R29::from_nat(other@)
    }
}

impl From<R23> for R29 {
    fn from(other: R23) -> (r: R29) {
        widen(other)
    }
}

impl FromSpecImpl<R23> for R29 {
    open spec fn obeys_from_spec() -> bool {
        true
    }

    open spec fn from_spec(other: R23) -> R29 {
        R29::from_nat(other@)
    }
}

impl From<R24> for R29 {
    fn from(other: R24) -> (r: R29) {
        widen(other)
    }
}

impl FromSpecImpl<R24> for R29 {
    open spec fn obeys_from_spec() -> bool {
        true
    }

    open spec fn from_spec(other: R24) -> R29 {
        R29::from_nat(other@)
    }
}

impl From<R25> for R29 {
    fn from(other: R25) -> (r: R29) {
        widen(other)
    }
}

impl FromSpecImpl<R25> for R29 {
    open spec fn obeys_from_spec() -> bool {
        true
    }

    open spec fn from_spec(other: R25) -> R29 {
        R29::from_nat(other@)
    }
}

impl From<R26> for R29 {
    fn from(other: R26) -> (r: R29) {
        widen(other)
    }
}

impl FromSpecImpl<R26> for R29 {
    open spec fn obeys_from_spec() -> bool {
        true
    }

    open spec fn from_spec(other: R26) -> R29 {
        R29::from_nat(other@)
    }
}

impl From<R27> for R29 {
    fn from(other: R27) -> (r: R29) {
        widen(other)
    }
}

impl FromSpecImpl<R27> for R29 {
    open spec fn obeys_from_spec() -> bool {
        true
    }

    open spec fn from_spec(other: R27) -> R29 {
        R29::from_nat(other@)
    }
}

impl From<R28> for R29 {
    fn from(other: R28) -> (r: R29) {
        widen(other)
    }
}

impl FromSpecImpl<R28> for R29 {
    open spec fn obeys_from_spec() -> bool {
        true
    }

    open spec fn from_spec(other: R28) -> R29 {
        R29::from_nat(other@)
    }
}

impl From<R1> for R30 {
    fn from(other: R1) -> (r: R30) {
        widen(other)
    }
}

impl FromSpecImpl<R1> for R30 {
    open spec fn obeys_from_spec() -> bool {
        true
    }

    open spec fn from_spec(other: R1) -> R30 {
        R30::from_nat(other@)
    }
}

impl From<R2> for R30 {
    fn from(other: R2) -> (r: R30) {
        widen(other)
    }
}

impl FromSpecImpl<R2> for R30 {
    open spec fn obeys_from_spec() -> bool {
        true
    }

    open spec fn from_spec(other: R2) -> R30 {
        R30::from_nat(other@)
    }
}

impl From<R3> for R30 {
    fn from(other: R3) -> (r: R30) {
        widen(other)
    }
}

impl FromSpecImpl<R3> for R30 {
    open spec fn obeys_from_spec() -> bool {
        true
    }

    open spec fn from_spec(other: R3) -> R30 {
        R30::from_nat(other@)
    }
}

impl From<R4> for R30 {
    fn from(other: R4) -> (r: R30) {
        widen(other)
    }
}

impl FromSpecImpl<R4> for R30 {
    open spec fn obeys_from_spec() -> bool {
        true
    }

    open spec fn from_spec(other: R4) -> R30 {
        R30::from_nat(other@)
    }
}

impl From<R5> for R30 {
    fn from(other: R5) -> (r: R30) {
        widen(other)
    }
}

impl FromSpecImpl<R5> for R30 {
    open spec fn obeys_from_spec() -> bool {
        true
    }

    open spec fn from_spec(other: R5) -> R30 {
        R30::from_nat(other@)
    }
}

impl From<R6> for R30 {
    fn from(other: R6) -> (r: R30) {
        widen(other)
    }
}

impl FromSpecImpl<R6> for R30 {
    open spec fn obeys_from_spec() -> bool {
        true
    }

    open spec fn from_spec(other: R6) -> R30 {
        R30::from_nat(other@)
    }
}

impl From<R7> for R30 {
    fn from(other: R7) -> (r: R30) {
        widen(other)
    }
}

impl FromSpecImpl<R7> for R30 {
    open spec fn obeys_from_spec() -> bool {
        true
    }

    open spec fn from_spec(other: R7) -> R30 {
        R30::from_nat(other@)
    }
}

impl From<R8> for R30 {
    fn from(other: R8) -> (r: R30) {
        widen(other)
    }
}

impl FromSpecImpl<R8> for R30 {
    open spec fn obeys_from_spec() -> bool {
        true
    }

    open spec fn from_spec(other: R8) -> R30 {
        R30::from_nat(other@)
    }
}

impl From<R9> for R30 {
    fn from(other: R9) -> (r: R30) {
        widen(other)
    }
}

impl FromSpecImpl<R9> for R30 {
    open spec fn obeys_from_spec() -> bool {
        true
    }

    open spec fn from_spec(other: R9) -> R30 {
        R30::from_nat(other@)
    }
}

impl From<R10> for R30 {
    fn from(other: R10) -> (r: R30) {
        widen(other)
    }
}

impl FromSpecImpl<R10> for R30 {
    open spec fn obeys_from_spec() -> bool {
        true
    }

    open spec fn from_spec(other: R10) -> R30 {
        R30::from_nat(other@)
    }
}

impl From<R11> for R30 {
    fn from(other: R11) -> (r: R30) {
        widen(other)
    }
}

impl FromSpecImpl<R11> for R30 {
    open spec fn obeys_from_spec() -> bool {
        true
    }

    open spec fn from_spec(other: R11) -> R30 {
        R30::from_nat(other@)
    }
}

impl From<R12> for R30 {
    fn from(other: R12) -> (r: R30) {
        widen(other)
    }
}

impl FromSpecImpl<R12> for R30 {
    open spec fn obeys_from_spec() -> bool {
        true
    }

    open spec fn from_spec(other: R12) -> R30 {
        R30::from_nat(other@)
    }
}

impl From<R13> for R30 {
    fn from(other: R13) -> (r: R30) {
        widen(other)
    }
}

impl FromSpecImpl<R13> for R30 {
    open spec fn obeys_from_spec() -> bool {
        true
    }

    open spec fn from_spec(other: R13) -> R30 {
        R30::from_nat(other@)
    }
}

impl From<R14> for R30 {
    fn from(other: R14) -> (r: R30) {
        widen(other)
    }
}

impl FromSpecImpl<R14> for R30 {
    open spec fn obeys_from_spec() -> bool {
        true
    }

    open spec fn from_spec(other: R14) -> R30 {
        R30::from_nat(other@)
    }
}

impl From<R15> for R30 {
    fn from(other: R15) -> (r: R30) {
        widen(other)
    }
}

impl FromSpecImpl<R15> for R30 {
    open spec fn obeys_from_spec() -> bool {
        true
    }

    open spec fn from_spec(other: R15) -> R30 {
        R30::from_nat(other@)
    }
}

impl From<R16> for R30 {
    fn from(other: R16) -> (r: R30) {
        widen(other)
    }
}

impl FromSpecImpl<R16> for R30 {
    open spec fn obeys_from_spec() -> bool {
        true
    }

    open spec fn from_spec(other: R16) -> R30 {
        R30::from_nat(other@)
    }
}

impl From<R17> for R30 {
    fn from(other: R17) -> (r: R30) {
        widen(other)
    }
}

impl FromSpecImpl<R17> for R30 {
    open spec fn obeys_from_spec() -> bool {
        true
    }

    open spec fn from_spec(other: R17) -> R30 {
        R30::from_nat(other@)
    }
}

impl From<R18> for R30 {
    fn from(other: R18) -> (r: R30) {
        widen(other)
    }
}

impl FromSpecImpl<R18> for R30 {
    open spec fn obeys_from_spec() -> bool {
        true
    }

    open spec fn from_spec(other: R18) -> R30 {
        R30::from_nat(other@)
    }
}

impl From<R19> for R30 {
    fn from(other: R19) -> (r: R30) {
        widen(other)
    }
}

impl FromSpecImpl<R19> for R30 {
    open spec fn obeys_from_spec() -> bool {
        true
    }

    open spec fn from_spec(other: R19) -> R30 {
        R30::from_nat(other@)
    }
}

impl From<R20> for R30 {
    fn from(other: R20) -> (r: R30) {
        widen(other)
    }
}

impl FromSpecImpl<R20> for R30 {
    open spec fn obeys_from_spec() -> bool {
        true
    }

    open spec fn from_spec(other: R20) -> R30 {
        R30::from_nat(other@)
    }
}

impl From<R21> for R30 {
    fn from(other: R21) -> (r: R30) {
        widen(other)
    }
}

impl FromSpecImpl<R21> for R30 {
    open spec fn obeys_from_spec() -> bool {
        true
    }

    open spec fn from_spec(other: R21) -> R30 {
        R30::from_nat(other@)
    }
}

impl From<R22> for R30 {
    fn from(other: R22) -> (r: R30) {
        widen(other)
    }
}

impl FromSpecImpl<R22> for R30 {
    open spec fn obeys_from_spec() -> bool {
        true
    }

    open spec fn from_spec(other: R22) -> R30 {
        R30::from_nat(other@)
    }
}

impl From<R23> for R30 {
    fn from(other: R23) -> (r: R30) {
        widen(other)
    }
}

impl FromSpecImpl<R23> for R30 {
    open spec fn obeys_from_spec() -> bool {
        true
    }

    open spec fn from_spec(other: R23) -> R30 {
        R30::from_nat(other@)
    }
}

impl From<R24> for R30 {
    fn from(other: R24) -> (r: R30) {
        widen(other)
    }
}

impl FromSpecImpl<R24> for R30 {
    open spec fn obeys_from_spec() -> bool {
        true
    }

    open spec fn from_spec(other: R24) -> R30 {
        R30::from_nat(other@)
    }
}

impl From<R25> for R30 {
    fn from(other: R25) -> (r: R30) {
        widen(other)
    }
}

impl FromSpecImpl<R25> for R30 {
    open spec fn obeys_from_spec() -> bool {
        true
    }

    open spec fn from_spec(other: R25) -> R30 {
        R30::from_nat(other@)
    }
}

impl From<R26> for R30 {
    fn from(other: R26) -> (r: R30) {
        widen(other)
    }
}

impl FromSpecImpl<R26> for R30 {
    open spec fn obeys_from_spec() -> bool {
        true
    }

    open spec fn from_spec(other: R26) -> R30 {
        R30::from_nat(other@)
    }
}

impl From<R27> for R30 {
    fn from(other: R27) -> (r: R30) {
        widen(other)
    }
}

impl FromSpecImpl<R27> for R30 {
    open spec fn obeys_from_spec() -> bool {
        true
    }

    open spec fn from_spec(other: R27) -> R30 {
        R30::from_nat(other@)
    }
}

impl From<R28> for R30 {
    fn from(other: R28) -> (r: R30) {
        widen(other)
    }
}

impl FromSpecImpl<R28> for R30 {
    open spec fn obeys_from_spec() -> bool {
        true
    }

    open spec fn from_spec(other: R28) -> R30 {
        R30::from_nat(other@)
    }
}

impl From<R29> for R30 {
    fn from(other: R29) -> (r: R30) {
        widen(other)
    }
}

impl FromSpecImpl<R29> for R30 {
    open spec fn obeys_from_spec() -> bool {
        true
    }

    open spec fn from_spec(other: R29) -> R30 {
        R30::from_nat(other@)
    }
}

impl From<R1> for R31 {
    fn from(other: R1) -> (r: R31) {
        widen(other)
    }
}

impl FromSpecImpl<R1> for R31 {
    open spec fn obeys_from_spec() -> bool {
        true
    }

    open spec fn from_spec(other: R1) -> R31 {
        R31::from_nat(other@)
    }
}

impl From<R2> for R31 {
    fn from(other: R2) -> (r: R31) {
        widen(other)
    }
}

impl FromSpecImpl<R2> for R31 {
    open spec fn obeys_from_spec() -> bool {
        true
    }

    open spec fn from_spec(other: R2) -> R31 {
        R31::from_nat(other@)
    }
}

impl From<R3> for R31 {
    fn from(other: R3) -> (r: R31) {
        widen(other)
    }
}

impl FromSpecImpl<R3> for R31 {
    open spec fn obeys_from_spec() -> bool {
        true
    }

    open spec fn from_spec(other: R3) -> R31 {
        R31::from_nat(other@)
    }
}

impl From<R4> for R31 {
    fn from(other: R4) -> (r: R31) {
        widen(other)
    }
}

impl FromSpecImpl<R4> for R31 {
    open spec fn obeys_from_spec() -> bool {
        true
    }

    open spec fn from_spec(other: R4) -> R31 {
        R31::from_nat(other@)
    }
}

impl From<R5> for R31 {
    fn from(other: R5) -> (r: R31) {
        widen(other)
    }
}

impl FromSpecImpl<R5> for R31 {
    open spec fn obeys_from_spec() -> bool {
        true
    }

    open spec fn from_spec(other: R5) -> R31 {
        R31::from_nat(other@)
    }
}

impl From<R6> for R31 {
    fn from(other: R6) -> (r: R31) {
        widen(other)
    }
}

impl FromSpecImpl<R6> for R31 {
    open spec fn obeys_from_spec() -> bool {
        true
    }

    open spec fn from_spec(other: R6) -> R31 {
        R31::from_nat(other@)
    }
}

impl From<R7> for R31 {
    fn from(other: R7) -> (r: R31) {
        widen(other)
    }
}

impl FromSpecImpl<R7> for R31 {
    open spec fn obeys_from_spec() -> bool {
        true
    }

    open spec fn from_spec(other: R7) -> R31 {
        R31::from_nat(other@)
    }
}

impl From<R8> for R31 {
    fn from(other: R8) -> (r: R31) {
        widen(other)
    }
}

impl FromSpecImpl<R8> for R31 {
    open spec fn obeys_from_spec() -> bool {
        true
    }

    open spec fn from_spec(other: R8) -> R31 {
        R31::from_nat(other@)
    }
}

impl From<R9> for R31 {
    fn from(other: R9) -> (r: R31) {
        widen(other)
    }
}

impl FromSpecImpl<R9> for R31 {
    open spec fn obeys_from_spec() -> bool {
        true
    }

    open spec fn from_spec(other: R9) -> R31 {
        R31::from_nat(other@)
    }
}

impl From<R10> for R31 {
    fn from(other: R10) -> (r: R31) {
        widen(other)
    }
}

impl FromSpecImpl<R10> for R31 {
    open spec fn obeys_from_spec() -> bool {
        true
    }

    open spec fn from_spec(other: R10) -> R31 {
        R31::from_nat(other@)
    }
}

impl From<R11> for R31 {
    fn from(other: R11) -> (r: R31) {
        widen(other)
    }
}

impl FromSpecImpl<R11> for R31 {
    open spec fn obeys_from_spec() -> bool {
        true
    }

    open spec fn from_spec(other: R11) -> R31 {
        R31::from_nat(other@)
    }
}

impl From<R12> for R31 {
    fn from(other: R12) -> (r: R31) {
        widen(other)
    }
}

impl FromSpecImpl<R12> for R31 {
    open spec fn obeys_from_spec() -> bool {
        true
    }

    open spec fn from_spec(other: R12) -> R31 {
        R31::from_nat(other@)
    }
}

impl From<R13> for R31 {
    fn from(other: R13) -> (r: R31) {
        widen(other)
    }
}

impl FromSpecImpl<R13> for R31 {
    open spec fn obeys_from_spec() -> bool {
        true
    }

    open spec fn from_spec(other: R13) -> R31 {
        R31::from_nat(other@)
    }
}

impl From<R14> for R31 {
    fn from(other: R14) -> (r: R31) {
        widen(other)
    }
}

impl FromSpecImpl<R14> for R31 {
    open spec fn obeys_from_spec() -> bool {
        true
    }

    open spec fn from_spec(other: R14) -> R31 {
        R31::from_nat(other@)
    }
}

impl From<R15> for R31 {
    fn from(other: R15) -> (r: R31) {
        widen(other)
    }
}

impl FromSpecImpl<R15> for R31 {
    open spec fn obeys_from_spec() -> bool {
        true
    }

    open spec fn from_spec(other: R15) -> R31 {
        R31::from_nat(other@)
    }
}

impl From<R16> for R31 {
    fn from(other: R16) -> (r: R31) {
        widen(other)
    }
}

impl FromSpecImpl<R16> for R31 {
    open spec fn obeys_from_spec() -> bool {
        true
    }

    open spec fn from_spec(other: R16) -> R31 {
        R31::from_nat(other@)
    }
}

impl From<R17> for R31 {
    fn from(other: R17) -> (r: R31) {
        widen(other)
    }
}

impl FromSpecImpl<R17> for R31 {
    open spec fn obeys_from_spec() -> bool {
        true
    }

    open spec fn from_spec(other: R17) -> R31 {
        R31::from_nat(other@)
    }
}

impl From<R18> for R31 {
    fn from(other: R18) -> (r: R31) {
        widen(other)
    }
}

impl FromSpecImpl<R18> for R31 {
    open spec fn obeys_from_spec() -> bool {
        true
    }

    open spec fn from_spec(other: R18) -> R31 {
        R31::from_nat(other@)
    }
}

impl From<R19> for R31 {
    fn from(other: R19) -> (r: R31) {
        widen(other)
    }
}

impl FromSpecImpl<R19> for R31 {
    open spec fn obeys_from_spec() -> bool {
        true
    }

    open spec fn from_spec(other: R19) -> R31 {
        R31::from_nat(other@)
    }
}

impl From<R20> for R31 {
    fn from(other: R20) -> (r: R31) {
        widen(other)
    }
}

impl FromSpecImpl<R20> for R31 {
    open spec fn obeys_from_spec() -> bool {
        true
    }

    open spec fn from_spec(other: R20) -> R31 {
        R31::from_nat(other@)
    }
}

impl From<R21> for R31 {
    fn from(other: R21) -> (r: R31) {
        widen(other)
    }
}

impl FromSpecImpl<R21> for R31 {
    open spec fn obeys_from_spec() -> bool {
        true
    }

    open spec fn from_spec(other: R21) -> R31 {
        R31::from_nat(other@)
    }
}

impl From<R22> for R31 {
    fn from(other: R22) -> (r: R31) {
        widen(other)
    }
}

impl FromSpecImpl<R22> for R31 {
    open spec fn obeys_from_spec() -> bool {
        true
    }

    open spec fn from_spec(other: R22) -> R31 {
        R31::from_nat(other@)
    }
}

impl From<R23> for R31 {
    fn from(other: R23) -> (r: R31) {
        widen(other)
    }
}

impl FromSpecImpl<R23> for R31 {
    open spec fn obeys_from_spec() -> bool {
        true
    }

    open spec fn from_spec(other: R23) -> R31 {
        R31::from_nat(other@)
    }
}

impl From<R24> for R31 {
    fn from(other: R24) -> (r: R31) {
        widen(other)
    }
}

impl FromSpecImpl<R24> for R31 {
    open spec fn obeys_from_spec() -> bool {
        true
    }

    open spec fn from_spec(other: R24) -> R31 {
        R31::from_nat(other@)
    }
}

impl From<R25> for R31 {
    fn from(other: R25) -> (r: R31) {
        widen(other)
    }
}

impl FromSpecImpl<R25> for R31 {
    open spec fn obeys_from_spec() -> bool {
        true
    }

    open spec fn from_spec(other: R25) -> R31 {
        R31::from_nat(other@)
    }
}

impl From<R26> for R31 {
    fn from(other: R26) -> (r: R31) {
        widen(other)
    }
}

impl FromSpecImpl<R26> for R31 {
    open spec fn obeys_from_spec() -> bool {
        true
    }

    open spec fn from_spec(other: R26) -> R31 {
        R31::from_nat(other@)
    }
}

impl From<R27> for R31 {
    fn from(other: R27) -> (r: R31) {
        widen(other)
    }
}

impl FromSpecImpl<R27> for R31 {
    open spec fn obeys_from_spec() -> bool {
        true
    }

    open spec fn from_spec(other: R27) -> R31 {
        R31::from_nat(other@)
    }
}

impl From<R28> for R31 {
    fn from(other: R28) -> (r: R31) {
        widen(other)
    }
}

impl FromSpecImpl<R28> for R31 {
    open spec fn obeys_from_spec() -> bool {
        true
    }

    open spec fn from_spec(other: R28) -> R31 {
        R31::from_nat(other@)
    }
}

impl From<R29> for R31 {
    fn from(other: R29) -> (r: R31) {
        widen(other)
    }
}

impl FromSpecImpl<R29> for R31 {
    open spec fn obeys_from_spec() -> bool {
        true
    }

    open spec fn from_spec(other: R29) -> R31 {
        R31::from_nat(other@)
    }
}

impl From<R30> for R31 {
    fn from(other: R30) -> (r: R31) {
        widen(other)
    }
}

impl FromSpecImpl<R30> for R31 {
    open spec fn obeys_from_spec() -> bool {
        true
    }

    open spec fn from_spec(other: R30) -> R31 {
        R31::from_nat(other@)
    }
}

impl From<R1> for R32 {
    fn from(other: R1) -> (r: R32) {
        widen(other)
    }
}

impl FromSpecImpl<R1> for R32 {
    open spec fn obeys_from_spec() -> bool {
        true
    }

    open spec fn from_spec(other: R1) -> R32 {
        R32::from_nat(other@)
    }
}

impl From<R2> for R32 {
    fn from(other: R2) -> (r: R32) {
        widen(other)
    }
}

impl FromSpecImpl<R2> for R32 {
    open spec fn obeys_from_spec() -> bool {
        true
    }

    open spec fn from_spec(other: R2) -> R32 {
        R32::from_nat(other@)
    }
}

impl From<R3> for R32 {
    fn from(other: R3) -> (r: R32) {
        widen(other)
    }
}

impl FromSpecImpl<R3> for R32 {
    open spec fn obeys_from_spec() -> bool {
        true
    }

    open spec fn from_spec(other: R3) -> R32 {
        R32::from_nat(other@)
    }
}

impl From<R4> for R32 {
    fn from(other: R4) -> (r: R32) {
        widen(other)
    }
}

impl FromSpecImpl<R4> for R32 {
    open spec fn obeys_from_spec() -> bool {
        true
    }

    open spec fn from_spec(other: R4) -> R32 {
        R32::from_nat(other@)
    }
}

impl From<R5> for R32 {
    fn from(other: R5) -> (r: R32) {
        widen(other)
    }
}

impl FromSpecImpl<R5> for R32 {
    open spec fn obeys_from_spec() -> bool {
        true
    }

    open spec fn from_spec(other: R5) -> R32 {
        R32::from_nat(other@)
    }
}

impl From<R6> for R32 {
    fn from(other: R6) -> (r: R32) {
        widen(other)
    }
}

impl FromSpecImpl<R6> for R32 {
    open spec fn obeys_from_spec() -> bool {
        true
    }

    open spec fn from_spec(other: R6) -> R32 {
        R32::from_nat(other@)
    }
}

impl From<R7> for R32 {
    fn from(other: R7) -> (r: R32) {
        widen(other)
    }
}

impl FromSpecImpl<R7> for R32 {
    open spec fn obeys_from_spec() -> bool {
        true
    }

    open spec fn from_spec(other: R7) -> R32 {
        R32::from_nat(other@)
    }
}

impl From<R8> for R32 {
    fn from(other: R8) -> (r: R32) {
        widen(other)
    }
}

impl FromSpecImpl<R8> for R32 {
    open spec fn obeys_from_spec() -> bool {
        true
    }

    open spec fn from_spec(other: R8) -> R32 {
        R32::from_nat(other@)
    }
}

impl From<R9> for R32 {
    fn from(other: R9) -> (r: R32) {
        widen(other)
    }
}

impl FromSpecImpl<R9> for R32 {
    open spec fn obeys_from_spec() -> bool {
        true
    }

    open spec fn from_spec(other: R9) -> R32 {
        R32::from_nat(other@)
    }
}

impl From<R10> for R32 {
    fn from(other: R10) -> (r: R32) {
        widen(other)
    }
}

impl FromSpecImpl<R10> for R32 {
    open spec fn obeys_from_spec() -> bool {
        true
    }

    open spec fn from_spec(other: R10) -> R32 {
        R32::from_nat(other@)
    }
}

impl From<R11> for R32 {
    fn from(other: R11) -> (r: R32) {
        widen(other)
    }
}

impl FromSpecImpl<R11> for R32 {
    open spec fn obeys_from_spec() -> bool {
        true
    }

    open spec fn from_spec(other: R11) -> R32 {
        R32::from_nat(other@)
    }
}

impl From<R12> for R32 {
    fn from(other: R12) -> (r: R32) {
        widen(other)
    }
}

impl FromSpecImpl<R12> for R32 {
    open spec fn obeys_from_spec() -> bool {
        true
    }

    open spec fn from_spec(other: R12) -> R32 {
        R32::from_nat(other@)
    }
}

impl From<R13> for R32 {
    fn from(other: R13) -> (r: R32) {
        widen(other)
    }
}

impl FromSpecImpl<R13> for R32 {
    open spec fn obeys_from_spec() -> bool {
        true
    }

    open spec fn from_spec(other: R13) -> R32 {
        R32::from_nat(other@)
    }
}

impl From<R14> for R32 {
    fn from(other: R14) -> (r: R32) {
        widen(other)
    }
}

impl FromSpecImpl<R14> for R32 {
    open spec fn obeys_from_spec() -> bool {
        true
    }

    open spec fn from_spec(other: R14) -> R32 {
        R32::from_nat(other@)
    }
}

impl From<R15> for R32 {
    fn from(other: R15) -> (r: R32) {
        widen(other)
    }
}

impl FromSpecImpl<R15> for R32 {
    open spec fn obeys_from_spec() -> bool {
        true
    }

    open spec fn from_spec(other: R15) -> R32 {
        R32::from_nat(other@)
    }
}

impl From<R16> for R32 {
    fn from(other: R16) -> (r: R32) {
        widen(other)
    }
}

impl FromSpecImpl<R16> for R32 {
    open spec fn obeys_from_spec() -> bool {
        true
    }

    open spec fn from_spec(other: R16) -> R32 {
        R32::from_nat(other@)
    }
}

impl From<R17> for R32 {
    fn from(other: R17) -> (r: R32) {
        widen(other)
    }
}

impl FromSpecImpl<R17> for R32 {
    open spec fn obeys_from_spec() -> bool {
        true
    }

    open spec fn from_spec(other: R17) -> R32 {
        R32::from_nat(other@)
    }
}

impl From<R18> for R32 {
    fn from(other: R18) -> (r: R32) {
        widen(other)
    }
}

impl FromSpecImpl<R18> for R32 {
    open spec fn obeys_from_spec() -> bool {
        true
    }

    open spec fn from_spec(other: R18) -> R32 {
        R32::from_nat(other@)
    }
}

impl From<R19> for R32 {
    fn from(other: R19) -> (r: R32) {
        widen(other)
    }
}

impl FromSpecImpl<R19> for R32 {
    open spec fn obeys_from_spec() -> bool {
        true
    }

    open spec fn from_spec(other: R19) -> R32 {
        R32::from_nat(other@)
    }
}

impl From<R20> for R32 {
    fn from(other: R20) -> (r: R32) {
        widen(other)
    }
}

impl FromSpecImpl<R20> for R32 {
    open spec fn obeys_from_spec() -> bool {
        true
    }

    open spec fn from_spec(other: R20) -> R32 {
        R32::from_nat(other@)
    }
}

impl From<R21> for R32 {
    fn from(other: R21) -> (r: R32) {
        widen(other)
    }
}

impl FromSpecImpl<R21> for R32 {
    open spec fn obeys_from_spec() -> bool {
        true
    }

    open spec fn from_spec(other: R21) -> R32 {
        R32::from_nat(other@)
    }
}

impl From<R22> for R32 {
    fn from(other: R22) -> (r: R32) {
        widen(other)
    }
}

impl FromSpecImpl<R22> for R32 {
    open spec fn obeys_from_spec() -> bool {
        true
    }

    open spec fn from_spec(other: R22) -> R32 {
        R32::from_nat(other@)
    }
}

impl From<R23> for R32 {
    fn from(other: R23) -> (r: R32) {
        widen(other)
    }
}

impl FromSpecImpl<R23> for R32 {
    open spec fn obeys_from_spec() -> bool {
        true
    }

    open spec fn from_spec(other: R23) -> R32 {
        R32::from_nat(other@)
    }
}

impl From<R24> for R32 {
    fn from(other: R24) -> (r: R32) {
        widen(other)
    }
}

impl FromSpecImpl<R24> for R32 {
    open spec fn obeys_from_spec() -> bool {
        true
    }

    open spec fn from_spec(other: R24) -> R32 {
        R32::from_nat(other@)
    }
}

impl From<R25> for R32 {
    fn from(other: R25) -> (r: R32) {
        widen(other)
    }
}

impl FromSpecImpl<R25> for R32 {
    open spec fn obeys_from_spec() -> bool {
        true
    }

    open spec fn from_spec(other: R25) -> R32 {
        R32::from_nat(other@)
    }
}

impl From<R26> for R32 {
    fn from(other: R26) -> (r: R32) {
        widen(other)
    }
}

impl FromSpecImpl<R26> for R32 {
    open spec fn obeys_from_spec() -> bool {
        true
    }

    open spec fn from_spec(other: R26) -> R32 {
        R32::from_nat(other@)
    }
}

impl From<R27> for R32 {
    fn from(other: R27) -> (r: R32) {
        widen(other)
    }
}

impl FromSpecImpl<R27> for R32 {
    open spec fn obeys_from_spec() -> bool {
        true
    }

    open spec fn from_spec(other: R27) -> R32 {
        R32::from_nat(other@)
    }
}

impl From<R28> for R32 {
    fn from(other: R28) -> (r: R32) {
        widen(other)
    }
}

impl FromSpecImpl<R28> for R32 {
    open spec fn obeys_from_spec() -> bool {
        true
    }

    open spec fn from_spec(other: R28) -> R32 {
        R32::from_nat(other@)
    }
}

impl From<R29> for R32 {
    fn from(other: R29) -> (r: R32) {
        widen(other)
    }
}

impl FromSpecImpl<R29> for R32 {
    open spec fn obeys_from_spec() -> bool {
        true
    }

    open spec fn from_spec(other: R29) -> R32 {
        R32::from_nat(other@)
    }
}

impl From<R30> for R32 {
    fn from(other: R30) -> (r: R32) {
        widen(other)
    }
}

impl FromSpecImpl<R30> for R32 {
    open spec fn obeys_from_spec() -> bool {
        true
    }

    open spec fn from_spec(other: R30) -> R32 {
        R32::from_nat(other@)
    }
}

impl From<R31> for R32 {
    fn from(other: R31) -> (r: R32) {
        widen(other)
    }
}

impl FromSpecImpl<R31> for R32 {
    open spec fn obeys_from_spec() -> bool {
        true
    }

    open spec fn from_spec(other: R31) -> R32 {
        R32::from_nat(other@)
    }
}

} // verus!
