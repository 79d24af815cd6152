//! The bit widths 9 to 16: too many patterns to name, so a value wraps a `u16`
//! that is known to carry no bit above the width.

use crate::bits::BitField;
use vstd::arithmetic::power2::{lemma2_to64, pow2};
use vstd::prelude::*;

verus! {

/// An integer of 9 bits, held in a `u16`.
#[derive(Clone, Copy, PartialEq, Eq, Structural)]
pub struct U9(u16);

impl View for U9 {
    type V = nat;

    closed spec fn view(&self) -> nat {
        self.0 as nat
    }
}

impl U9 {
    /// No bit above the width is set.
    #[verifier::type_invariant]
    closed spec fn in_domain(self) -> bool {
        self.0 <= 0x1ff
    }

    /// The number held, in the type that backs it.
    pub fn value(&self) -> (r: u16)
        ensures
            r == self@,
            r < Self::limit(),
    {
        proof {
            use_type_invariant(self);
        }
        self.0
    }

    /// The number held, as a `u16`.
    pub fn into_u16(self) -> (r: u16)
        ensures
            r == self@,
    {
        self.value()
    }

    /// The number held, as an `i32`.
    pub fn into_i32(self) -> (r: i32)
        ensures
            r == self@,
    {
        self.value() as i32
    }
}

impl BitField for U9 {
    open spec fn width() -> nat {
        9
    }

    open spec fn limit() -> nat {
        0x200
    }

    closed spec fn from_nat(v: nat) -> Self {
        U9(v as u16)
    }

    proof fn lemma_domain() {
        lemma2_to64();
        assert(Self::limit() == pow2(Self::width()));
    }

    proof fn lemma_from_nat(v: nat) {
    }

    proof fn lemma_view(self) {
    }

    fn bit_width() -> (w: u32) {
        9
    }

    fn into_u32(self) -> (r: u32) {
        self.value() as u32
    }

    fn from_u32_unchecked(other: u32) -> (r: Self) {
        U9(other as u16)
    }
}

/// An integer of 10 bits, held in a `u16`.
#[derive(Clone, Copy, PartialEq, Eq, Structural)]
pub struct U10(u16);

impl View for U10 {
    type V = nat;

    closed spec fn view(&self) -> nat {
        self.0 as nat
    }
}

impl U10 {
    /// No bit above the width is set.
    #[verifier::type_invariant]
    closed spec fn in_domain(self) -> bool {
        self.0 <= 0x3ff
    }

    /// The number held, in the type that backs it.
    pub fn value(&self) -> (r: u16)
        ensures
            r == self@,
            r < Self::limit(),
    {
        proof {
            use_type_invariant(self);
        }
        self.0
    }

    /// The number held, as a `u16`.
    pub fn into_u16(self) -> (r: u16)
        ensures
            r == self@,
    {
        self.value()
    }

    /// The number held, as an `i32`.
    pub fn into_i32(self) -> (r: i32)
        ensures
            r == self@,
    {
        self.value() as i32
    }
}

impl BitField for U10 {
    open spec fn width() -> nat {
        10
    }

    open spec fn limit() -> nat {
        0x400
    }

    closed spec fn from_nat(v: nat) -> Self {
        U10(v as u16)
    }

    proof fn lemma_domain() {
        lemma2_to64();
        assert(Self::limit() == pow2(Self::width()));
    }

    proof fn lemma_from_nat(v: nat) {
    }

    proof fn lemma_view(self) {
    }

    fn bit_width() -> (w: u32) {
        10
    }

    fn into_u32(self) -> (r: u32) {
        self.value() as u32
    }

    fn from_u32_unchecked(other: u32) -> (r: Self) {
        U10(other as u16)
    }
}

/// An integer of 11 bits, held in a `u16`.
#[derive(Clone, Copy, PartialEq, Eq, Structural)]
pub struct U11(u16);

impl View for U11 {
    type V = nat;

    closed spec fn view(&self) -> nat {
        self.0 as nat
    }
}

impl U11 {
    /// No bit above the width is set.
    #[verifier::type_invariant]
    closed spec fn in_domain(self) -> bool {
        self.0 <= 0x7ff
    }

    /// The number held, in the type that backs it.
    pub fn value(&self) -> (r: u16)
        ensures
            r == self@,
            r < Self::limit(),
    {
        proof {
            use_type_invariant(self);
        }
        self.0
    }

    /// The number held, as a `u16`.
    pub fn into_u16(self) -> (r: u16)
        ensures
            r == self@,
    {
        self.value()
    }

    /// The number held, as an `i32`.
    pub fn into_i32(self) -> (r: i32)
        ensures
            r == self@,
    {
        self.value() as i32
    }
}

impl BitField for U11 {
    open spec fn width() -> nat {
        11
    }

    open spec fn limit() -> nat {
        0x800
    }

    closed spec fn from_nat(v: nat) -> Self {
        U11(v as u16)
    }

    proof fn lemma_domain() {
        lemma2_to64();
        assert(Self::limit() == pow2(Self::width()));
    }

    proof fn lemma_from_nat(v: nat) {
    }

    proof fn lemma_view(self) {
    }

    fn bit_width() -> (w: u32) {
        11
    }

    fn into_u32(self) -> (r: u32) {
        self.value() as u32
    }

    fn from_u32_unchecked(other: u32) -> (r: Self) {
        U11(other as u16)
    }
}

/// An integer of 12 bits, held in a `u16`.
#[derive(Clone, Copy, PartialEq, Eq, Structural)]
pub struct U12(u16);

impl View for U12 {
    type V = nat;

    closed spec fn view(&self) -> nat {
        self.0 as nat
    }
}

impl U12 {
    /// No bit above the width is set.
    #[verifier::type_invariant]
    closed spec fn in_domain(self) -> bool {
        self.0 <= 0xfff
    }

    /// The number held, in the type that backs it.
    pub fn value(&self) -> (r: u16)
        ensures
            r == self@,
            r < Self::limit(),
    {
        proof {
            use_type_invariant(self);
        }
        self.0
    }

    /// The number held, as a `u16`.
    pub fn into_u16(self) -> (r: u16)
        ensures
            r == self@,
    {
        self.value()
    }

    /// The number held, as an `i32`.
    pub fn into_i32(self) -> (r: i32)
        ensures
            r == self@,
    {
        self.value() as i32
    }
}

impl BitField for U12 {
    open spec fn width() -> nat {
        12
    }

    open spec fn limit() -> nat {
        0x1000
    }

    closed spec fn from_nat(v: nat) -> Self {
        U12(v as u16)
    }

    proof fn lemma_domain() {
        lemma2_to64();
        assert(Self::limit() == pow2(Self::width()));
    }

    proof fn lemma_from_nat(v: nat) {
    }

    proof fn lemma_view(self) {
    }

    fn bit_width() -> (w: u32) {
        12
    }

    fn into_u32(self) -> (r: u32) {
        self.value() as u32
    }

    fn from_u32_unchecked(other: u32) -> (r: Self) {
        U12(other as u16)
    }
}

/// An integer of 13 bits, held in a `u16`.
#[derive(Clone, Copy, PartialEq, Eq, Structural)]
pub struct U13(u16);

impl View for U13 {
    type V = nat;

    closed spec fn view(&self) -> nat {
        self.0 as nat
    }
}

impl U13 {
    /// No bit above the width is set.
    #[verifier::type_invariant]
    closed spec fn in_domain(self) -> bool {
        self.0 <= 0x1fff
    }

    /// The number held, in the type that backs it.
    pub fn value(&self) -> (r: u16)
        ensures
            r == self@,
            r < Self::limit(),
    {
        proof {
            use_type_invariant(self);
        }
        self.0
    }

    /// The number held, as a `u16`.
    pub fn into_u16(self) -> (r: u16)
        ensures
            r == self@,
    {
        self.value()
    }

    /// The number held, as an `i32`.
    pub fn into_i32(self) -> (r: i32)
        ensures
            r == self@,
    {
        self.value() as i32
    }
}

impl BitField for U13 {
    open spec fn width() -> nat {
        13
    }

    open spec fn limit() -> nat {
        0x2000
    }

    closed spec fn from_nat(v: nat) -> Self {
        U13(v as u16)
    }

    proof fn lemma_domain() {
        lemma2_to64();
        assert(Self::limit() == pow2(Self::width()));
    }

    proof fn lemma_from_nat(v: nat) {
    }

    proof fn lemma_view(self) {
    }

    fn bit_width() -> (w: u32) {
        13
    }

    fn into_u32(self) -> (r: u32) {
        self.value() as u32
    }

    fn from_u32_unchecked(other: u32) -> (r: Self) {
        U13(other as u16)
    }
}

/// An integer of 14 bits, held in a `u16`.
#[derive(Clone, Copy, PartialEq, Eq, Structural)]
pub struct U14(u16);

impl View for U14 {
    type V = nat;

    closed spec fn view(&self) -> nat {
        self.0 as nat
    }
}

impl U14 {
    /// No bit above the width is set.
    #[verifier::type_invariant]
    closed spec fn in_domain(self) -> bool {
        self.0 <= 0x3fff
    }

    /// The number held, in the type that backs it.
    pub fn value(&self) -> (r: u16)
        ensures
            r == self@,
            r < Self::limit(),
    {
        proof {
            use_type_invariant(self);
        }
        self.0
    }

    /// The number held, as a `u16`.
    pub fn into_u16(self) -> (r: u16)
        ensures
            r == self@,
    {
        self.value()
    }

    /// The number held, as an `i32`.
    pub fn into_i32(self) -> (r: i32)
        ensures
            r == self@,
    {
        self.value() as i32
    }
}

impl BitField for U14 {
    open spec fn width() -> nat {
        14
    }

    open spec fn limit() -> nat {
        0x4000
    }

    closed spec fn from_nat(v: nat) -> Self {
        U14(v as u16)
    }

    proof fn lemma_domain() {
        lemma2_to64();
        assert(Self::limit() == pow2(Self::width()));
    }

    proof fn lemma_from_nat(v: nat) {
    }

    proof fn lemma_view(self) {
    }

    fn bit_width() -> (w: u32) {
        14
    }

    fn into_u32(self) -> (r: u32) {
        self.value() as u32
    }

    fn from_u32_unchecked(other: u32) -> (r: Self) {
        U14(other as u16)
    }
}

/// An integer of 15 bits, held in a `u16`.
#[derive(Clone, Copy, PartialEq, Eq, Structural)]
pub struct U15(u16);

impl View for U15 {
    type V = nat;

    closed spec fn view(&self) -> nat {
        self.0 as nat
    }
}

impl U15 {
    /// No bit above the width is set.
    #[verifier::type_invariant]
    closed spec fn in_domain(self) -> bool {
        self.0 <= 0x7fff
    }

    /// The number held, in the type that backs it.
    pub fn value(&self) -> (r: u16)
        ensures
            r == self@,
            r < Self::limit(),
    {
        proof {
            use_type_invariant(self);
        }
        self.0
    }

    /// The number held, as a `u16`.
    pub fn into_u16(self) -> (r: u16)
        ensures
            r == self@,
    {
        self.value()
    }

    /// The number held, as an `i32`.
    pub fn into_i32(self) -> (r: i32)
        ensures
            r == self@,
    {
        self.value() as i32
    }
}

impl BitField for U15 {
    open spec fn width() -> nat {
        15
    }

    open spec fn limit() -> nat {
        0x8000
    }

    closed spec fn from_nat(v: nat) -> Self {
        U15(v as u16)
    }

    proof fn lemma_domain() {
        lemma2_to64();
        assert(Self::limit() == pow2(Self::width()));
    }

    proof fn lemma_from_nat(v: nat) {
    }

    proof fn lemma_view(self) {
    }

    fn bit_width() -> (w: u32) {
        15
    }

    fn into_u32(self) -> (r: u32) {
        self.value() as u32
    }

    fn from_u32_unchecked(other: u32) -> (r: Self) {
        U15(other as u16)
    }
}

/// An integer of 16 bits, held in a `u16`.
#[derive(Clone, Copy, PartialEq, Eq, Structural)]
pub struct U16(u16);

impl View for U16 {
    type V = nat;

    closed spec fn view(&self) -> nat {
        self.0 as nat
    }
}

impl U16 {
    /// No bit above the width is set.
    #[verifier::type_invariant]
    closed spec fn in_domain(self) -> bool {
        self.0 <= 0xffff
    }

    /// The number held, in the type that backs it.
    pub fn value(&self) -> (r: u16)
        ensures
            r == self@,
            r < Self::limit(),
    {
        proof {
            use_type_invariant(self);
        }
        self.0
    }

    /// The number held, as a `u16`.
    pub fn into_u16(self) -> (r: u16)
        ensures
            r == self@,
    {
        self.value()
    }

    /// The number held, as an `i32`.
    pub fn into_i32(self) -> (r: i32)
        ensures
            r == self@,
    {
        self.value() as i32
    }
}

impl BitField for U16 {
    open spec fn width() -> nat {
        16
    }

    open spec fn limit() -> nat {
        0x10000
    }

    closed spec fn from_nat(v: nat) -> Self {
        U16(v as u16)
    }

    proof fn lemma_domain() {
        lemma2_to64();
        assert(Self::limit() == pow2(Self::width()));
    }

    proof fn lemma_from_nat(v: nat) {
    }

    proof fn lemma_view(self) {
    }

    fn bit_width() -> (w: u32) {
        16
    }

    fn into_u32(self) -> (r: u32) {
        self.value() as u32
    }

    fn from_u32_unchecked(other: u32) -> (r: Self) {
        U16(other as u16)
    }
}

} // verus!
