//! The bit widths 17 to 32: too many patterns to name, so a value wraps a `u32`
//! that is known to carry no bit above the width.

use crate::bits::BitField;
use vstd::arithmetic::power2::{lemma2_to64, pow2};
use vstd::prelude::*;

verus! {

/// An integer of 17 bits, held in a `u32`.
#[derive(Clone, Copy, PartialEq, Eq, Structural)]
pub struct U17(u32);

impl View for U17 {
    type V = nat;

    closed spec fn view(&self) -> nat {
        self.0 as nat
    }
}

impl U17 {
    /// No bit above the width is set.
    #[verifier::type_invariant]
    closed spec fn in_domain(self) -> bool {
        self.0 <= 0x1ffff
    }

    /// The number held, in the type that backs it.
    pub fn value(&self) -> (r: u32)
        ensures
            r == self@,
            r < Self::limit(),
    {
        proof {
            use_type_invariant(self);
        }
        self.0
    }

    /// The number held, as an `i32`.
    pub fn into_i32(self) -> (r: i32)
        ensures
            r == self@,
    {
        self.value() as i32
    }
}

impl BitField for U17 {
    open spec fn width() -> nat {
        17
    }

    open spec fn limit() -> nat {
        0x20000
    }

    closed spec fn from_nat(v: nat) -> Self {
        U17(v as u32)
    }

    proof fn lemma_domain() {
        lemma2_to64();
        assert(Self::limit() == pow2(Self::width()));
    }

    proof fn lemma_from_nat(v: nat) {
    }

    proof fn lemma_view(self) {
    }

    fn bit_width() -> (w: u32) {
        17
    }

    fn into_u32(self) -> (r: u32) {
        self.value()
    }

    fn from_u32_unchecked(other: u32) -> (r: Self) {
        U17(other)
    }
}

/// An integer of 18 bits, held in a `u32`.
#[derive(Clone, Copy, PartialEq, Eq, Structural)]
pub struct U18(u32);

impl View for U18 {
    type V = nat;

    closed spec fn view(&self) -> nat {
        self.0 as nat
    }
}

impl U18 {
    /// No bit above the width is set.
    #[verifier::type_invariant]
    closed spec fn in_domain(self) -> bool {
        self.0 <= 0x3ffff
    }

    /// The number held, in the type that backs it.
    pub fn value(&self) -> (r: u32)
        ensures
            r == self@,
            r < Self::limit(),
    {
        proof {
            use_type_invariant(self);
        }
        self.0
    }

    /// The number held, as an `i32`.
    pub fn into_i32(self) -> (r: i32)
        ensures
            r == self@,
    {
        self.value() as i32
    }
}

impl BitField for U18 {
    open spec fn width() -> nat {
        18
    }

    open spec fn limit() -> nat {
        0x40000
    }

    closed spec fn from_nat(v: nat) -> Self {
        U18(v as u32)
    }

    proof fn lemma_domain() {
        lemma2_to64();
        assert(Self::limit() == pow2(Self::width()));
    }

    proof fn lemma_from_nat(v: nat) {
    }

    proof fn lemma_view(self) {
    }

    fn bit_width() -> (w: u32) {
        18
    }

    fn into_u32(self) -> (r: u32) {
        self.value()
    }

    fn from_u32_unchecked(other: u32) -> (r: Self) {
        U18(other)
    }
}

/// An integer of 19 bits, held in a `u32`.
#[derive(Clone, Copy, PartialEq, Eq, Structural)]
pub struct U19(u32);

impl View for U19 {
    type V = nat;

    closed spec fn view(&self) -> nat {
        self.0 as nat
    }
}

impl U19 {
    /// No bit above the width is set.
    #[verifier::type_invariant]
    closed spec fn in_domain(self) -> bool {
        self.0 <= 0x7ffff
    }

    /// The number held, in the type that backs it.
    pub fn value(&self) -> (r: u32)
        ensures
            r == self@,
            r < Self::limit(),
    {
        proof {
            use_type_invariant(self);
        }
        self.0
    }

    /// The number held, as an `i32`.
    pub fn into_i32(self) -> (r: i32)
        ensures
            r == self@,
    {
        self.value() as i32
    }
}

impl BitField for U19 {
    open spec fn width() -> nat {
        19
    }

    open spec fn limit() -> nat {
        0x80000
    }

    closed spec fn from_nat(v: nat) -> Self {
        U19(v as u32)
    }

    proof fn lemma_domain() {
        lemma2_to64();
        assert(Self::limit() == pow2(Self::width()));
    }

    proof fn lemma_from_nat(v: nat) {
    }

    proof fn lemma_view(self) {
    }

    fn bit_width() -> (w: u32) {
        19
    }

    fn into_u32(self) -> (r: u32) {
        self.value()
    }

    fn from_u32_unchecked(other: u32) -> (r: Self) {
        U19(other)
    }
}

/// An integer of 20 bits, held in a `u32`.
#[derive(Clone, Copy, PartialEq, Eq, Structural)]
pub struct U20(u32);

impl View for U20 {
    type V = nat;

    closed spec fn view(&self) -> nat {
        self.0 as nat
    }
}

impl U20 {
    /// No bit above the width is set.
    #[verifier::type_invariant]
    closed spec fn in_domain(self) -> bool {
        self.0 <= 0xfffff
    }

    /// The number held, in the type that backs it.
    pub fn value(&self) -> (r: u32)
        ensures
            r == self@,
            r < Self::limit(),
    {
        proof {
            use_type_invariant(self);
        }
        self.0
    }

    /// The number held, as an `i32`.
    pub fn into_i32(self) -> (r: i32)
        ensures
            r == self@,
    {
        self.value() as i32
    }
}

impl BitField for U20 {
    open spec fn width() -> nat {
        20
    }

    open spec fn limit() -> nat {
        0x100000
    }

    closed spec fn from_nat(v: nat) -> Self {
        U20(v as u32)
    }

    proof fn lemma_domain() {
        lemma2_to64();
        assert(Self::limit() == pow2(Self::width()));
    }

    proof fn lemma_from_nat(v: nat) {
    }

    proof fn lemma_view(self) {
    }

    fn bit_width() -> (w: u32) {
        20
    }

    fn into_u32(self) -> (r: u32) {
        self.value()
    }

    fn from_u32_unchecked(other: u32) -> (r: Self) {
        U20(other)
    }
}

/// An integer of 21 bits, held in a `u32`.
#[derive(Clone, Copy, PartialEq, Eq, Structural)]
pub struct U21(u32);

impl View for U21 {
    type V = nat;

    closed spec fn view(&self) -> nat {
        self.0 as nat
    }
}

impl U21 {
    /// No bit above the width is set.
    #[verifier::type_invariant]
    closed spec fn in_domain(self) -> bool {
        self.0 <= 0x1fffff
    }

    /// The number held, in the type that backs it.
    pub fn value(&self) -> (r: u32)
        ensures
            r == self@,
            r < Self::limit(),
    {
        proof {
            use_type_invariant(self);
        }
        self.0
    }

    /// The number held, as an `i32`.
    pub fn into_i32(self) -> (r: i32)
        ensures
            r == self@,
    {
        self.value() as i32
    }
}

impl BitField for U21 {
    open spec fn width() -> nat {
        21
    }

    open spec fn limit() -> nat {
        0x200000
    }

    closed spec fn from_nat(v: nat) -> Self {
        U21(v as u32)
    }

    proof fn lemma_domain() {
        lemma2_to64();
        assert(Self::limit() == pow2(Self::width()));
    }

    proof fn lemma_from_nat(v: nat) {
    }

    proof fn lemma_view(self) {
    }

    fn bit_width() -> (w: u32) {
        21
    }

    fn into_u32(self) -> (r: u32) {
        self.value()
    }

    fn from_u32_unchecked(other: u32) -> (r: Self) {
        U21(other)
    }
}

/// An integer of 22 bits, held in a `u32`.
#[derive(Clone, Copy, PartialEq, Eq, Structural)]
pub struct U22(u32);

impl View for U22 {
    type V = nat;

    closed spec fn view(&self) -> nat {
        self.0 as nat
    }
}

impl U22 {
    /// No bit above the width is set.
    #[verifier::type_invariant]
    closed spec fn in_domain(self) -> bool {
        self.0 <= 0x3fffff
    }

    /// The number held, in the type that backs it.
    pub fn value(&self) -> (r: u32)
        ensures
            r == self@,
            r < Self::limit(),
    {
        proof {
            use_type_invariant(self);
        }
        self.0
    }

    /// The number held, as an `i32`.
    pub fn into_i32(self) -> (r: i32)
        ensures
            r == self@,
    {
        self.value() as i32
    }
}

impl BitField for U22 {
    open spec fn width() -> nat {
        22
    }

    open spec fn limit() -> nat {
        0x400000
    }

    closed spec fn from_nat(v: nat) -> Self {
        U22(v as u32)
    }

    proof fn lemma_domain() {
        lemma2_to64();
        assert(Self::limit() == pow2(Self::width()));
    }

    proof fn lemma_from_nat(v: nat) {
    }

    proof fn lemma_view(self) {
    }

    fn bit_width() -> (w: u32) {
        22
    }

    fn into_u32(self) -> (r: u32) {
        self.value()
    }

    fn from_u32_unchecked(other: u32) -> (r: Self) {
        U22(other)
    }
}

/// An integer of 23 bits, held in a `u32`.
#[derive(Clone, Copy, PartialEq, Eq, Structural)]
pub struct U23(u32);

impl View for U23 {
    type V = nat;

    closed spec fn view(&self) -> nat {
        self.0 as nat
    }
}

impl U23 {
    /// No bit above the width is set.
    #[verifier::type_invariant]
    closed spec fn in_domain(self) -> bool {
        self.0 <= 0x7fffff
    }

    /// The number held, in the type that backs it.
    pub fn value(&self) -> (r: u32)
        ensures
            r == self@,
            r < Self::limit(),
    {
        proof {
            use_type_invariant(self);
        }
        self.0
    }

    /// The number held, as an `i32`.
    pub fn into_i32(self) -> (r: i32)
        ensures
            r == self@,
    {
        self.value() as i32
    }
}

impl BitField for U23 {
    open spec fn width() -> nat {
        23
    }

    open spec fn limit() -> nat {
        0x800000
    }

    closed spec fn from_nat(v: nat) -> Self {
        U23(v as u32)
    }

    proof fn lemma_domain() {
        lemma2_to64();
        assert(Self::limit() == pow2(Self::width()));
    }

    proof fn lemma_from_nat(v: nat) {
    }

    proof fn lemma_view(self) {
    }

    fn bit_width() -> (w: u32) {
        23
    }

    fn into_u32(self) -> (r: u32) {
        self.value()
    }

    fn from_u32_unchecked(other: u32) -> (r: Self) {
        U23(other)
    }
}

/// An integer of 24 bits, held in a `u32`.
#[derive(Clone, Copy, PartialEq, Eq, Structural)]
pub struct U24(u32);

impl View for U24 {
    type V = nat;

    closed spec fn view(&self) -> nat {
        self.0 as nat
    }
}

impl U24 {
    /// No bit above the width is set.
    #[verifier::type_invariant]
    closed spec fn in_domain(self) -> bool {
        self.0 <= 0xffffff
    }

    /// The number held, in the type that backs it.
    pub fn value(&self) -> (r: u32)
        ensures
            r == self@,
            r < Self::limit(),
    {
        proof {
            use_type_invariant(self);
        }
        self.0
    }

    /// The number held, as an `i32`.
    pub fn into_i32(self) -> (r: i32)
        ensures
            r == self@,
    {
        self.value() as i32
    }
}

impl BitField for U24 {
    open spec fn width() -> nat {
        24
    }

    open spec fn limit() -> nat {
        0x1000000
    }

    closed spec fn from_nat(v: nat) -> Self {
        U24(v as u32)
    }

    proof fn lemma_domain() {
        lemma2_to64();
        assert(Self::limit() == pow2(Self::width()));
    }

    proof fn lemma_from_nat(v: nat) {
    }

    proof fn lemma_view(self) {
    }

    fn bit_width() -> (w: u32) {
        24
    }

    fn into_u32(self) -> (r: u32) {
        self.value()
    }

    fn from_u32_unchecked(other: u32) -> (r: Self) {
        U24(other)
    }
}

/// An integer of 25 bits, held in a `u32`.
#[derive(Clone, Copy, PartialEq, Eq, Structural)]
pub struct U25(u32);

impl View for U25 {
    type V = nat;

    closed spec fn view(&self) -> nat {
        self.0 as nat
    }
}

impl U25 {
    /// No bit above the width is set.
    #[verifier::type_invariant]
    closed spec fn in_domain(self) -> bool {
        self.0 <= 0x1ffffff
    }

    /// The number held, in the type that backs it.
    pub fn value(&self) -> (r: u32)
        ensures
            r == self@,
            r < Self::limit(),
    {
        proof {
            use_type_invariant(self);
        }
        self.0
    }

    /// The number held, as an `i32`.
    pub fn into_i32(self) -> (r: i32)
        ensures
            r == self@,
    {
        self.value() as i32
    }
}

impl BitField for U25 {
    open spec fn width() -> nat {
        25
    }

    open spec fn limit() -> nat {
        0x2000000
    }

    closed spec fn from_nat(v: nat) -> Self {
        U25(v as u32)
    }

    proof fn lemma_domain() {
        lemma2_to64();
        assert(Self::limit() == pow2(Self::width()));
    }

    proof fn lemma_from_nat(v: nat) {
    }

    proof fn lemma_view(self) {
    }

    fn bit_width() -> (w: u32) {
        25
    }

    fn into_u32(self) -> (r: u32) {
        self.value()
    }

    fn from_u32_unchecked(other: u32) -> (r: Self) {
        U25(other)
    }
}

/// An integer of 26 bits, held in a `u32`.
#[derive(Clone, Copy, PartialEq, Eq, Structural)]
pub struct U26(u32);

impl View for U26 {
    type V = nat;

    closed spec fn view(&self) -> nat {
        self.0 as nat
    }
}

impl U26 {
    /// No bit above the width is set.
    #[verifier::type_invariant]
    closed spec fn in_domain(self) -> bool {
        self.0 <= 0x3ffffff
    }

    /// The number held, in the type that backs it.
    pub fn value(&self) -> (r: u32)
        ensures
            r == self@,
            r < Self::limit(),
    {
        proof {
            use_type_invariant(self);
        }
        self.0
    }

    /// The number held, as an `i32`.
    pub fn into_i32(self) -> (r: i32)
        ensures
            r == self@,
    {
        self.value() as i32
    }
}

impl BitField for U26 {
    open spec fn width() -> nat {
        26
    }

    open spec fn limit() -> nat {
        0x4000000
    }

    closed spec fn from_nat(v: nat) -> Self {
        U26(v as u32)
    }

    proof fn lemma_domain() {
        lemma2_to64();
        assert(Self::limit() == pow2(Self::width()));
    }

    proof fn lemma_from_nat(v: nat) {
    }

    proof fn lemma_view(self) {
    }

    fn bit_width() -> (w: u32) {
        26
    }

    fn into_u32(self) -> (r: u32) {
        self.value()
    }

    fn from_u32_unchecked(other: u32) -> (r: Self) {
        U26(other)
    }
}

/// An integer of 27 bits, held in a `u32`.
#[derive(Clone, Copy, PartialEq, Eq, Structural)]
pub struct U27(u32);

impl View for U27 {
    type V = nat;

    closed spec fn view(&self) -> nat {
        self.0 as nat
    }
}

impl U27 {
    /// No bit above the width is set.
    #[verifier::type_invariant]
    closed spec fn in_domain(self) -> bool {
        self.0 <= 0x7ffffff
    }

    /// The number held, in the type that backs it.
    pub fn value(&self) -> (r: u32)
        ensures
            r == self@,
            r < Self::limit(),
    {
        proof {
            use_type_invariant(self);
        }
        self.0
    }

    /// The number held, as an `i32`.
    pub fn into_i32(self) -> (r: i32)
        ensures
            r == self@,
    {
        self.value() as i32
    }
}

impl BitField for U27 {
    open spec fn width() -> nat {
        27
    }

    open spec fn limit() -> nat {
        0x8000000
    }

    closed spec fn from_nat(v: nat) -> Self {
        U27(v as u32)
    }

    proof fn lemma_domain() {
        lemma2_to64();
        assert(Self::limit() == pow2(Self::width()));
    }

    proof fn lemma_from_nat(v: nat) {
    }

    proof fn lemma_view(self) {
    }

    fn bit_width() -> (w: u32) {
        27
    }

    fn into_u32(self) -> (r: u32) {
        self.value()
    }

    fn from_u32_unchecked(other: u32) -> (r: Self) {
        U27(other)
    }
}

/// An integer of 28 bits, held in a `u32`.
#[derive(Clone, Copy, PartialEq, Eq, Structural)]
pub struct U28(u32);

impl View for U28 {
    type V = nat;

    closed spec fn view(&self) -> nat {
        self.0 as nat
    }
}

impl U28 {
    /// No bit above the width is set.
    #[verifier::type_invariant]
    closed spec fn in_domain(self) -> bool {
        self.0 <= 0xfffffff
    }

    /// The number held, in the type that backs it.
    pub fn value(&self) -> (r: u32)
        ensures
            r == self@,
            r < Self::limit(),
    {
        proof {
            use_type_invariant(self);
        }
        self.0
    }

    /// The number held, as an `i32`.
    pub fn into_i32(self) -> (r: i32)
        ensures
            r == self@,
    {
        self.value() as i32
    }
}

impl BitField for U28 {
    open spec fn width() -> nat {
        28
    }

    open spec fn limit() -> nat {
        0x10000000
    }

    closed spec fn from_nat(v: nat) -> Self {
        U28(v as u32)
    }

    proof fn lemma_domain() {
        lemma2_to64();
        assert(Self::limit() == pow2(Self::width()));
    }

    proof fn lemma_from_nat(v: nat) {
    }

    proof fn lemma_view(self) {
    }

    fn bit_width() -> (w: u32) {
        28
    }

    fn into_u32(self) -> (r: u32) {
        self.value()
    }

    fn from_u32_unchecked(other: u32) -> (r: Self) {
        U28(other)
    }
}

/// An integer of 29 bits, held in a `u32`.
#[derive(Clone, Copy, PartialEq, Eq, Structural)]
pub struct U29(u32);

impl View for U29 {
    type V = nat;

    closed spec fn view(&self) -> nat {
        self.0 as nat
    }
}

impl U29 {
    /// No bit above the width is set.
    #[verifier::type_invariant]
    closed spec fn in_domain(self) -> bool {
        self.0 <= 0x1fffffff
    }

    /// The number held, in the type that backs it.
    pub fn value(&self) -> (r: u32)
        ensures
            r == self@,
            r < Self::limit(),
    {
        proof {
            use_type_invariant(self);
        }
        self.0
    }

    /// The number held, as an `i32`.
    pub fn into_i32(self) -> (r: i32)
        ensures
            r == self@,
    {
        self.value() as i32
    }
}

impl BitField for U29 {
    open spec fn width() -> nat {
        29
    }

    open spec fn limit() -> nat {
        0x20000000
    }

    closed spec fn from_nat(v: nat) -> Self {
        U29(v as u32)
    }

    proof fn lemma_domain() {
        lemma2_to64();
        assert(Self::limit() == pow2(Self::width()));
    }

    proof fn lemma_from_nat(v: nat) {
    }

    proof fn lemma_view(self) {
    }

    fn bit_width() -> (w: u32) {
        29
    }

    fn into_u32(self) -> (r: u32) {
        self.value()
    }

    fn from_u32_unchecked(other: u32) -> (r: Self) {
        U29(other)
    }
}

/// An integer of 30 bits, held in a `u32`.
#[derive(Clone, Copy, PartialEq, Eq, Structural)]
pub struct U30(u32);

impl View for U30 {
    type V = nat;

    closed spec fn view(&self) -> nat {
        self.0 as nat
    }
}

impl U30 {
    /// No bit above the width is set.
    #[verifier::type_invariant]
    closed spec fn in_domain(self) -> bool {
        self.0 <= 0x3fffffff
    }

    /// The number held, in the type that backs it.
    pub fn value(&self) -> (r: u32)
        ensures
            r == self@,
            r < Self::limit(),
    {
        proof {
            use_type_invariant(self);
        }
        self.0
    }

    /// The number held, as an `i32`.
    pub fn into_i32(self) -> (r: i32)
        ensures
            r == self@,
    {
        self.value() as i32
    }
}

impl BitField for U30 {
    open spec fn width() -> nat {
        30
    }

    open spec fn limit() -> nat {
        0x40000000
    }

    closed spec fn from_nat(v: nat) -> Self {
        U30(v as u32)
    }

    proof fn lemma_domain() {
        lemma2_to64();
        assert(Self::limit() == pow2(Self::width()));
    }

    proof fn lemma_from_nat(v: nat) {
    }

    proof fn lemma_view(self) {
    }

    fn bit_width() -> (w: u32) {
        30
    }

    fn into_u32(self) -> (r: u32) {
        self.value()
    }

    fn from_u32_unchecked(other: u32) -> (r: Self) {
        U30(other)
    }
}

/// An integer of 31 bits, held in a `u32`.
#[derive(Clone, Copy, PartialEq, Eq, Structural)]
pub struct U31(u32);

impl View for U31 {
    type V = nat;

    closed spec fn view(&self) -> nat {
        self.0 as nat
    }
}

impl U31 {
    /// No bit above the width is set.
    #[verifier::type_invariant]
    closed spec fn in_domain(self) -> bool {
        self.0 <= 0x7fffffff
    }

    /// The number held, in the type that backs it.
    pub fn value(&self) -> (r: u32)
        ensures
            r == self@,
            r < Self::limit(),
    {
        proof {
            use_type_invariant(self);
        }
        self.0
    }

    /// The number held, as an `i32`.
    pub fn into_i32(self) -> (r: i32)
        ensures
            r == self@,
    {
        self.value() as i32
    }
}

impl BitField for U31 {
    open spec fn width() -> nat {
        31
    }

    open spec fn limit() -> nat {
        0x80000000
    }

    closed spec fn from_nat(v: nat) -> Self {
        U31(v as u32)
    }

    proof fn lemma_domain() {
        lemma2_to64();
        assert(Self::limit() == pow2(Self::width()));
    }

    proof fn lemma_from_nat(v: nat) {
    }

    proof fn lemma_view(self) {
    }

    fn bit_width() -> (w: u32) {
        31
    }

    fn into_u32(self) -> (r: u32) {
        self.value()
    }

    fn from_u32_unchecked(other: u32) -> (r: Self) {
        U31(other)
    }
}

/// An integer of 32 bits, held in a `u32`.
#[derive(Clone, Copy, PartialEq, Eq, Structural)]
pub struct U32(u32);

impl View for U32 {
    type V = nat;

    closed spec fn view(&self) -> nat {
        self.0 as nat
    }
}

impl U32 {
    /// No bit above the width is set.
    #[verifier::type_invariant]
    closed spec fn in_domain(self) -> bool {
        self.0 <= 0xffffffff
    }

    /// The number held, in the type that backs it.
    pub fn value(&self) -> (r: u32)
        ensures
            r == self@,
            r < Self::limit(),
    {
        proof {
            use_type_invariant(self);
        }
        self.0
    }
}

impl BitField for U32 {
    open spec fn width() -> nat {
        32
    }

    open spec fn limit() -> nat {
        0x100000000
    }

    closed spec fn from_nat(v: nat) -> Self {
        U32(v as u32)
    }

    proof fn lemma_domain() {
        lemma2_to64();
        assert(Self::limit() == pow2(Self::width()));
    }

    proof fn lemma_from_nat(v: nat) {
    }

    proof fn lemma_view(self) {
    }

    fn bit_width() -> (w: u32) {
        32
    }

    fn into_u32(self) -> (r: u32) {
        self.value()
    }

    fn from_u32_unchecked(other: u32) -> (r: Self) {
        U32(other)
    }
}

} // verus!
