//! The bit widths 7 and 8: too many patterns to name, so a value wraps a `u8`
//! that is known to carry no bit above the width.

use crate::bits::BitField;
use vstd::arithmetic::power2::{lemma2_to64, pow2};
use vstd::prelude::*;

verus! {

/// An integer of 7 bits, held in a `u8`.
#[derive(Clone, Copy, PartialEq, Eq, Structural)]
pub struct U7(u8);

impl View for U7 {
    type V = nat;

    closed spec fn view(&self) -> nat {
        self.0 as nat
    }
}

impl U7 {
    /// No bit above the width is set.
    #[verifier::type_invariant]
    closed spec fn in_domain(self) -> bool {
        self.0 <= 0x7f
    }

    /// The number held, in the type that backs it.
    pub fn value(&self) -> (r: u8)
        ensures
            r == self@,
            r < Self::limit(),
    {
        proof {
            use_type_invariant(self);
        }
        self.0
    }

    /// The number held, as a `u8`.
    pub fn into_u8(self) -> (r: u8)
        ensures
            r == self@,
    {
        self.value()
    }

    /// The number held, as a `u16`.
    pub fn into_u16(self) -> (r: u16)
        ensures
            r == self@,
    {
        self.value() as u16
    }

    /// The number held, as an `i32`.
    pub fn into_i32(self) -> (r: i32)
        ensures
            r == self@,
    {
        self.value() as i32
    }
}

impl BitField for U7 {
    open spec fn width() -> nat {
        7
    }

    open spec fn limit() -> nat {
        0x80
    }

    closed spec fn from_nat(v: nat) -> Self {
        U7(v as u8)
    }

    proof fn lemma_domain() {
        lemma2_to64();
        assert(Self::limit() == pow2(Self::width()));
    }

    proof fn lemma_from_nat(v: nat) {
    }

    proof fn lemma_view(self) {
    }

    fn bit_width() -> (w: u32) {
        7
    }

    fn into_u32(self) -> (r: u32) {
        self.value() as u32
    }

    fn from_u32_unchecked(other: u32) -> (r: Self) {
        U7(other as u8)
    }
}

/// An integer of 8 bits, held in a `u8`.
#[derive(Clone, Copy, PartialEq, Eq, Structural)]
pub struct U8(u8);

impl View for U8 {
    type V = nat;

    closed spec fn view(&self) -> nat {
        self.0 as nat
    }
}

impl U8 {
    /// No bit above the width is set.
    #[verifier::type_invariant]
    closed spec fn in_domain(self) -> bool {
        self.0 <= 0xff
    }

    /// The number held, in the type that backs it.
    pub fn value(&self) -> (r: u8)
        ensures
            r == self@,
            r < Self::limit(),
    {
        proof {
            use_type_invariant(self);
        }
        self.0
    }

    /// The number held, as a `u8`.
    pub fn into_u8(self) -> (r: u8)
        ensures
            r == self@,
    {
        self.value()
    }

    /// The number held, as a `u16`.
    pub fn into_u16(self) -> (r: u16)
        ensures
            r == self@,
    {
        self.value() as u16
    }

    /// The number held, as an `i32`.
    pub fn into_i32(self) -> (r: i32)
        ensures
            r == self@,
    {
        self.value() as i32
    }
}

impl BitField for U8 {
    open spec fn width() -> nat {
        8
    }

    open spec fn limit() -> nat {
        0x100
    }

    closed spec fn from_nat(v: nat) -> Self {
        U8(v as u8)
    }

    proof fn lemma_domain() {
        lemma2_to64();
        assert(Self::limit() == pow2(Self::width()));
    }

    proof fn lemma_from_nat(v: nat) {
    }

    proof fn lemma_view(self) {
    }

    fn bit_width() -> (w: u32) {
        8
    }

    fn into_u32(self) -> (r: u32) {
        self.value() as u32
    }

    fn from_u32_unchecked(other: u32) -> (r: Self) {
        U8(other as u8)
    }
}

} // verus!
