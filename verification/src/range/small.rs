//! The ranges of 1 to 16 items: one member for each index, named by its one
//! hexadecimal digit, so that a `match` over an index needs no fallback arm.

use crate::range::RangeIndex;
use vstd::prelude::*;

verus! {

/// An index into 1 item: there is only the first.
#[derive(Clone, Copy, PartialEq, Eq, Structural)]
pub enum R1 {
    X0,
}

impl View for R1 {
    type V = nat;

    open spec fn view(&self) -> nat {
        match self {
            R1::X0 => 0,
        }
    }
}

impl R1 {
    /// The index held.
    pub fn value(&self) -> (r: usize)
        ensures
            r == self@,
            r < Self::limit(),
    {
        match self {
            R1::X0 => 0x0,
        }
    }
}

impl RangeIndex for R1 {
    open spec fn limit() -> nat {
        1
    }

    open spec fn from_nat(v: nat) -> Self {
        R1::X0
    }

    proof fn lemma_domain() {
        assert(Self::limit() == 1);
    }

    proof fn lemma_from_nat(v: nat) {
    }

    proof fn lemma_view(self) {
    }

    fn cardinality() -> (m: usize) {
        1
    }

    fn into_usize(self) -> (r: usize) {
        self.value()
    }

    fn from_usize_unchecked(other: usize) -> (r: Self) {
        R1::X0
    }
}

/// An index into 2 items. Each member is named by its index.
#[derive(Clone, Copy, PartialEq, Eq, Structural)]
pub enum R2 {
    X0,
    X1,
}

impl View for R2 {
    type V = nat;

    open spec fn view(&self) -> nat {
        match self {
            R2::X0 => 0,
            R2::X1 => 1,
        }
    }
}

impl R2 {
    /// The index held.
    pub fn value(&self) -> (r: usize)
        ensures
            r == self@,
            r < Self::limit(),
    {
        match self {
            R2::X0 => 0x0,
            R2::X1 => 0x1,
        }
    }
}

impl RangeIndex for R2 {
    open spec fn limit() -> nat {
        2
    }

    open spec fn from_nat(v: nat) -> Self {
        if v == 0 {
            R2::X0
        } else {
            R2::X1
        }
    }

    proof fn lemma_domain() {
        assert(Self::limit() == 2);
    }

    proof fn lemma_from_nat(v: nat) {
    }

    proof fn lemma_view(self) {
    }

    fn cardinality() -> (m: usize) {
        2
    }

    fn into_usize(self) -> (r: usize) {
        self.value()
    }

    fn from_usize_unchecked(other: usize) -> (r: Self) {
        match other {
            0x0 => R2::X0,
            _ => R2::X1,
        }
    }
}

/// An index into 3 items. Each member is named by its index.
#[derive(Clone, Copy, PartialEq, Eq, Structural)]
pub enum R3 {
    X0,
    X1,
    X2,
}

impl View for R3 {
    type V = nat;

    open spec fn view(&self) -> nat {
        match self {
            R3::X0 => 0,
            R3::X1 => 1,
            R3::X2 => 2,
        }
    }
}

impl R3 {
    /// The index held.
    pub fn value(&self) -> (r: usize)
        ensures
            r == self@,
            r < Self::limit(),
    {
        match self {
            R3::X0 => 0x0,
            R3::X1 => 0x1,
            R3::X2 => 0x2,
        }
    }
}

impl RangeIndex for R3 {
    open spec fn limit() -> nat {
        3
    }

    open spec fn from_nat(v: nat) -> Self {
        if v == 0 {
            R3::X0
        } else if v == 1 {
            R3::X1
        } else {
            R3::X2
        }
    }

    proof fn lemma_domain() {
        assert(Self::limit() == 3);
    }

    proof fn lemma_from_nat(v: nat) {
    }

    proof fn lemma_view(self) {
    }

    fn cardinality() -> (m: usize) {
        3
    }

    fn into_usize(self) -> (r: usize) {
        self.value()
    }

    fn from_usize_unchecked(other: usize) -> (r: Self) {
        match other {
            0x0 => R3::X0,
            0x1 => R3::X1,
            _ => R3::X2,
        }
    }
}

/// An index into 4 items. Each member is named by its index.
#[derive(Clone, Copy, PartialEq, Eq, Structural)]
pub enum R4 {
    X0,
    X1,
    X2,
    X3,
}

impl View for R4 {
    type V = nat;

    open spec fn view(&self) -> nat {
        match self {
            R4::X0 => 0,
            R4::X1 => 1,
            R4::X2 => 2,
            R4::X3 => 3,
        }
    }
}

impl R4 {
    /// The index held.
    pub fn value(&self) -> (r: usize)
        ensures
            r == self@,
            r < Self::limit(),
    {
        match self {
            R4::X0 => 0x0,
            R4::X1 => 0x1,
            R4::X2 => 0x2,
            R4::X3 => 0x3,
        }
    }
}

impl RangeIndex for R4 {
    open spec fn limit() -> nat {
        4
    }

    open spec fn from_nat(v: nat) -> Self {
        if v == 0 {
            R4::X0
        } else if v == 1 {
            R4::X1
        } else if v == 2 {
            R4::X2
        } else {
            R4::X3
        }
    }

    proof fn lemma_domain() {
        assert(Self::limit() == 4);
    }

    proof fn lemma_from_nat(v: nat) {
    }

    proof fn lemma_view(self) {
    }

    fn cardinality() -> (m: usize) {
        4
    }

    fn into_usize(self) -> (r: usize) {
        self.value()
    }

    fn from_usize_unchecked(other: usize) -> (r: Self) {
        match other {
            0x0 => R4::X0,
            0x1 => R4::X1,
            0x2 => R4::X2,
            _ => R4::X3,
        }
    }
}

/// An index into 5 items. Each member is named by its index.
#[derive(Clone, Copy, PartialEq, Eq, Structural)]
pub enum R5 {
    X0,
    X1,
    X2,
    X3,
    X4,
}

impl View for R5 {
    type V = nat;

    open spec fn view(&self) -> nat {
        match self {
            R5::X0 => 0,
            R5::X1 => 1,
            R5::X2 => 2,
            R5::X3 => 3,
            R5::X4 => 4,
        }
    }
}

impl R5 {
    /// The index held.
    pub fn value(&self) -> (r: usize)
        ensures
            r == self@,
            r < Self::limit(),
    {
        match self {
            R5::X0 => 0x0,
            R5::X1 => 0x1,
            R5::X2 => 0x2,
            R5::X3 => 0x3,
            R5::X4 => 0x4,
        }
    }
}

impl RangeIndex for R5 {
    open spec fn limit() -> nat {
        5
    }

    open spec fn from_nat(v: nat) -> Self {
        if v == 0 {
            R5::X0
        } else if v == 1 {
            R5::X1
        } else if v == 2 {
            R5::X2
        } else if v == 3 {
            R5::X3
        } else {
            R5::X4
        }
    }

    proof fn lemma_domain() {
        assert(Self::limit() == 5);
    }

    proof fn lemma_from_nat(v: nat) {
    }

    proof fn lemma_view(self) {
    }

    fn cardinality() -> (m: usize) {
        5
    }

    fn into_usize(self) -> (r: usize) {
        self.value()
    }

    fn from_usize_unchecked(other: usize) -> (r: Self) {
        match other {
            0x0 => R5::X0,
            0x1 => R5::X1,
            0x2 => R5::X2,
            0x3 => R5::X3,
            _ => R5::X4,
        }
    }
}

/// An index into 6 items. Each member is named by its index.
#[derive(Clone, Copy, PartialEq, Eq, Structural)]
pub enum R6 {
    X0,
    X1,
    X2,
    X3,
    X4,
    X5,
}

impl View for R6 {
    type V = nat;

    open spec fn view(&self) -> nat {
        match self {
            R6::X0 => 0,
            R6::X1 => 1,
            R6::X2 => 2,
            R6::X3 => 3,
            R6::X4 => 4,
            R6::X5 => 5,
        }
    }
}

impl R6 {
    /// The index held.
    pub fn value(&self) -> (r: usize)
        ensures
            r == self@,
            r < Self::limit(),
    {
        match self {
            R6::X0 => 0x0,
            R6::X1 => 0x1,
            R6::X2 => 0x2,
            R6::X3 => 0x3,
            R6::X4 => 0x4,
            R6::X5 => 0x5,
        }
    }
}

impl RangeIndex for R6 {
    open spec fn limit() -> nat {
        6
    }

    open spec fn from_nat(v: nat) -> Self {
        if v == 0 {
            R6::X0
        } else if v == 1 {
            R6::X1
        } else if v == 2 {
            R6::X2
        } else if v == 3 {
            R6::X3
        } else if v == 4 {
            R6::X4
        } else {
            R6::X5
        }
    }

    proof fn lemma_domain() {
        assert(Self::limit() == 6);
    }

    proof fn lemma_from_nat(v: nat) {
    }

    proof fn lemma_view(self) {
    }

    fn cardinality() -> (m: usize) {
        6
    }

    fn into_usize(self) -> (r: usize) {
        self.value()
    }

    fn from_usize_unchecked(other: usize) -> (r: Self) {
        match other {
            0x0 => R6::X0,
            0x1 => R6::X1,
            0x2 => R6::X2,
            0x3 => R6::X3,
            0x4 => R6::X4,
            _ => R6::X5,
        }
    }
}

/// An index into 7 items. Each member is named by its index.
#[derive(Clone, Copy, PartialEq, Eq, Structural)]
pub enum R7 {
    X0,
    X1,
    X2,
    X3,
    X4,
    X5,
    X6,
}

impl View for R7 {
    type V = nat;

    open spec fn view(&self) -> nat {
        match self {
            R7::X0 => 0,
            R7::X1 => 1,
            R7::X2 => 2,
            R7::X3 => 3,
            R7::X4 => 4,
            R7::X5 => 5,
            R7::X6 => 6,
        }
    }
}

impl R7 {
    /// The index held.
    pub fn value(&self) -> (r: usize)
        ensures
            r == self@,
            r < Self::limit(),
    {
        match self {
            R7::X0 => 0x0,
            R7::X1 => 0x1,
            R7::X2 => 0x2,
            R7::X3 => 0x3,
            R7::X4 => 0x4,
            R7::X5 => 0x5,
            R7::X6 => 0x6,
        }
    }
}

impl RangeIndex for R7 {
    open spec fn limit() -> nat {
        7
    }

    open spec fn from_nat(v: nat) -> Self {
        if v == 0 {
            R7::X0
        } else if v == 1 {
            R7::X1
        } else if v == 2 {
            R7::X2
        } else if v == 3 {
            R7::X3
        } else if v == 4 {
            R7::X4
        } else if v == 5 {
            R7::X5
        } else {
            R7::X6
        }
    }

    proof fn lemma_domain() {
        assert(Self::limit() == 7);
    }

    proof fn lemma_from_nat(v: nat) {
    }

    proof fn lemma_view(self) {
    }

    fn cardinality() -> (m: usize) {
        7
    }

    fn into_usize(self) -> (r: usize) {
        self.value()
    }

    fn from_usize_unchecked(other: usize) -> (r: Self) {
        match other {
            0x0 => R7::X0,
            0x1 => R7::X1,
            0x2 => R7::X2,
            0x3 => R7::X3,
            0x4 => R7::X4,
            0x5 => R7::X5,
            _ => R7::X6,
        }
    }
}

/// An index into 8 items. Each member is named by its index.
#[derive(Clone, Copy, PartialEq, Eq, Structural)]
pub enum R8 {
    X0,
    X1,
    X2,
    X3,
    X4,
    X5,
    X6,
    X7,
}

impl View for R8 {
    type V = nat;

    open spec fn view(&self) -> nat {
        match self {
            R8::X0 => 0,
            R8::X1 => 1,
            R8::X2 => 2,
            R8::X3 => 3,
            R8::X4 => 4,
            R8::X5 => 5,
            R8::X6 => 6,
            R8::X7 => 7,
        }
    }
}

impl R8 {
    /// The index held.
    pub fn value(&self) -> (r: usize)
        ensures
            r == self@,
            r < Self::limit(),
    {
        match self {
            R8::X0 => 0x0,
            R8::X1 => 0x1,
            R8::X2 => 0x2,
            R8::X3 => 0x3,
            R8::X4 => 0x4,
            R8::X5 => 0x5,
            R8::X6 => 0x6,
            R8::X7 => 0x7,
        }
    }
}

impl RangeIndex for R8 {
    open spec fn limit() -> nat {
        8
    }

    open spec fn from_nat(v: nat) -> Self {
        if v == 0 {
            R8::X0
        } else if v == 1 {
            R8::X1
        } else if v == 2 {
            R8::X2
        } else if v == 3 {
            R8::X3
        } else if v == 4 {
            R8::X4
        } else if v == 5 {
            R8::X5
        } else if v == 6 {
            R8::X6
        } else {
            R8::X7
        }
    }

    proof fn lemma_domain() {
        assert(Self::limit() == 8);
    }

    proof fn lemma_from_nat(v: nat) {
    }

    proof fn lemma_view(self) {
    }

    fn cardinality() -> (m: usize) {
        8
    }

    fn into_usize(self) -> (r: usize) {
        self.value()
    }

    fn from_usize_unchecked(other: usize) -> (r: Self) {
        match other {
            0x0 => R8::X0,
            0x1 => R8::X1,
            0x2 => R8::X2,
            0x3 => R8::X3,
            0x4 => R8::X4,
            0x5 => R8::X5,
            0x6 => R8::X6,
            _ => R8::X7,
        }
    }
}

/// An index into 9 items. Each member is named by its index.
#[derive(Clone, Copy, PartialEq, Eq, Structural)]
pub enum R9 {
    X0,
    X1,
    X2,
    X3,
    X4,
    X5,
    X6,
    X7,
    X8,
}

impl View for R9 {
    type V = nat;

    open spec fn view(&self) -> nat {
        match self {
            R9::X0 => 0,
            R9::X1 => 1,
            R9::X2 => 2,
            R9::X3 => 3,
            R9::X4 => 4,
            R9::X5 => 5,
            R9::X6 => 6,
            R9::X7 => 7,
            R9::X8 => 8,
        }
    }
}

impl R9 {
    /// The index held.
    pub fn value(&self) -> (r: usize)
        ensures
            r == self@,
            r < Self::limit(),
    {
        match self {
            R9::X0 => 0x0,
            R9::X1 => 0x1,
            R9::X2 => 0x2,
            R9::X3 => 0x3,
            R9::X4 => 0x4,
            R9::X5 => 0x5,
            R9::X6 => 0x6,
            R9::X7 => 0x7,
            R9::X8 => 0x8,
        }
    }
}

impl RangeIndex for R9 {
    open spec fn limit() -> nat {
        9
    }

    open spec fn from_nat(v: nat) -> Self {
        if v == 0 {
            R9::X0
        } else if v == 1 {
            R9::X1
        } else if v == 2 {
            R9::X2
        } else if v == 3 {
            R9::X3
        } else if v == 4 {
            R9::X4
        } else if v == 5 {
            R9::X5
        } else if v == 6 {
            R9::X6
        } else if v == 7 {
            R9::X7
        } else {
            R9::X8
        }
    }

    proof fn lemma_domain() {
        assert(Self::limit() == 9);
    }

    proof fn lemma_from_nat(v: nat) {
    }

    proof fn lemma_view(self) {
    }

    fn cardinality() -> (m: usize) {
        9
    }

    fn into_usize(self) -> (r: usize) {
        self.value()
    }

    fn from_usize_unchecked(other: usize) -> (r: Self) {
        match other {
            0x0 => R9::X0,
            0x1 => R9::X1,
            0x2 => R9::X2,
            0x3 => R9::X3,
            0x4 => R9::X4,
            0x5 => R9::X5,
            0x6 => R9::X6,
            0x7 => R9::X7,
            _ => R9::X8,
        }
    }
}

/// An index into 10 items. Each member is named by its index.
#[derive(Clone, Copy, PartialEq, Eq, Structural)]
pub enum R10 {
    X0,
    X1,
    X2,
    X3,
    X4,
    X5,
    X6,
    X7,
    X8,
    X9,
}

impl View for R10 {
    type V = nat;

    open spec fn view(&self) -> nat {
        match self {
            R10::X0 => 0,
            R10::X1 => 1,
            R10::X2 => 2,
            R10::X3 => 3,
            R10::X4 => 4,
            R10::X5 => 5,
            R10::X6 => 6,
            R10::X7 => 7,
            R10::X8 => 8,
            R10::X9 => 9,
        }
    }
}

impl R10 {
    /// The index held.
    pub fn value(&self) -> (r: usize)
        ensures
            r == self@,
            r < Self::limit(),
    {
        match self {
            R10::X0 => 0x0,
            R10::X1 => 0x1,
            R10::X2 => 0x2,
            R10::X3 => 0x3,
            R10::X4 => 0x4,
            R10::X5 => 0x5,
            R10::X6 => 0x6,
            R10::X7 => 0x7,
            R10::X8 => 0x8,
            R10::X9 => 0x9,
        }
    }
}

impl RangeIndex for R10 {
    open spec fn limit() -> nat {
        10
    }

    open spec fn from_nat(v: nat) -> Self {
        if v == 0 {
            R10::X0
        } else if v == 1 {
            R10::X1
        } else if v == 2 {
            R10::X2
        } else if v == 3 {
            R10::X3
        } else if v == 4 {
            R10::X4
        } else if v == 5 {
            R10::X5
        } else if v == 6 {
            R10::X6
        } else if v == 7 {
            R10::X7
        } else if v == 8 {
            R10::X8
        } else {
            R10::X9
        }
    }

    proof fn lemma_domain() {
        assert(Self::limit() == 10);
    }

    proof fn lemma_from_nat(v: nat) {
    }

    proof fn lemma_view(self) {
    }

    fn cardinality() -> (m: usize) {
        10
    }

    fn into_usize(self) -> (r: usize) {
        self.value()
    }

    fn from_usize_unchecked(other: usize) -> (r: Self) {
        match other {
            0x0 => R10::X0,
            0x1 => R10::X1,
            0x2 => R10::X2,
            0x3 => R10::X3,
            0x4 => R10::X4,
            0x5 => R10::X5,
            0x6 => R10::X6,
            0x7 => R10::X7,
            0x8 => R10::X8,
            _ => R10::X9,
        }
    }
}

/// An index into 11 items. Each member is named by its index.
#[derive(Clone, Copy, PartialEq, Eq, Structural)]
pub enum R11 {
    X0,
    X1,
    X2,
    X3,
    X4,
    X5,
    X6,
    X7,
    X8,
    X9,
    Xa,
}

impl View for R11 {
    type V = nat;

    open spec fn view(&self) -> nat {
        match self {
            R11::X0 => 0,
            R11::X1 => 1,
            R11::X2 => 2,
            R11::X3 => 3,
            R11::X4 => 4,
            R11::X5 => 5,
            R11::X6 => 6,
            R11::X7 => 7,
            R11::X8 => 8,
            R11::X9 => 9,
            R11::Xa => 10,
        }
    }
}

impl R11 {
    /// The index held.
    pub fn value(&self) -> (r: usize)
        ensures
            r == self@,
            r < Self::limit(),
    {
        match self {
            R11::X0 => 0x0,
            R11::X1 => 0x1,
            R11::X2 => 0x2,
            R11::X3 => 0x3,
            R11::X4 => 0x4,
            R11::X5 => 0x5,
            R11::X6 => 0x6,
            R11::X7 => 0x7,
            R11::X8 => 0x8,
            R11::X9 => 0x9,
            R11::Xa => 0xa,
        }
    }
}

impl RangeIndex for R11 {
    open spec fn limit() -> nat {
        11
    }

    open spec fn from_nat(v: nat) -> Self {
        if v == 0 {
            R11::X0
        } else if v == 1 {
            R11::X1
        } else if v == 2 {
            R11::X2
        } else if v == 3 {
            R11::X3
        } else if v == 4 {
            R11::X4
        } else if v == 5 {
            R11::X5
        } else if v == 6 {
            R11::X6
        } else if v == 7 {
            R11::X7
        } else if v == 8 {
            R11::X8
        } else if v == 9 {
            R11::X9
        } else {
            R11::Xa
        }
    }

    proof fn lemma_domain() {
        assert(Self::limit() == 11);
    }

    proof fn lemma_from_nat(v: nat) {
    }

    proof fn lemma_view(self) {
    }

    fn cardinality() -> (m: usize) {
        11
    }

    fn into_usize(self) -> (r: usize) {
        self.value()
    }

    fn from_usize_unchecked(other: usize) -> (r: Self) {
        match other {
            0x0 => R11::X0,
            0x1 => R11::X1,
            0x2 => R11::X2,
            0x3 => R11::X3,
            0x4 => R11::X4,
            0x5 => R11::X5,
            0x6 => R11::X6,
            0x7 => R11::X7,
            0x8 => R11::X8,
            0x9 => R11::X9,
            _ => R11::Xa,
        }
    }
}

/// An index into 12 items. Each member is named by its index.
#[derive(Clone, Copy, PartialEq, Eq, Structural)]
pub enum R12 {
    X0,
    X1,
    X2,
    X3,
    X4,
    X5,
    X6,
    X7,
    X8,
    X9,
    Xa,
    Xb,
}

impl View for R12 {
    type V = nat;

    open spec fn view(&self) -> nat {
        match self {
            R12::X0 => 0,
            R12::X1 => 1,
            R12::X2 => 2,
            R12::X3 => 3,
            R12::X4 => 4,
            R12::X5 => 5,
            R12::X6 => 6,
            R12::X7 => 7,
            R12::X8 => 8,
            R12::X9 => 9,
            R12::Xa => 10,
            R12::Xb => 11,
        }
    }
}

impl R12 {
    /// The index held.
    pub fn value(&self) -> (r: usize)
        ensures
            r == self@,
            r < Self::limit(),
    {
        match self {
            R12::X0 => 0x0,
            R12::X1 => 0x1,
            R12::X2 => 0x2,
            R12::X3 => 0x3,
            R12::X4 => 0x4,
            R12::X5 => 0x5,
            R12::X6 => 0x6,
            R12::X7 => 0x7,
            R12::X8 => 0x8,
            R12::X9 => 0x9,
            R12::Xa => 0xa,
            R12::Xb => 0xb,
        }
    }
}

impl RangeIndex for R12 {
    open spec fn limit() -> nat {
        12
    }

    open spec fn from_nat(v: nat) -> Self {
        if v == 0 {
            R12::X0
        } else if v == 1 {
            R12::X1
        } else if v == 2 {
            R12::X2
        } else if v == 3 {
            R12::X3
        } else if v == 4 {
            R12::X4
        } else if v == 5 {
            R12::X5
        } else if v == 6 {
            R12::X6
        } else if v == 7 {
            R12::X7
        } else if v == 8 {
            R12::X8
        } else if v == 9 {
            R12::X9
        } else if v == 10 {
            R12::Xa
        } else {
            R12::Xb
        }
    }

    proof fn lemma_domain() {
        assert(Self::limit() == 12);
    }

    proof fn lemma_from_nat(v: nat) {
    }

    proof fn lemma_view(self) {
    }

    fn cardinality() -> (m: usize) {
        12
    }

    fn into_usize(self) -> (r: usize) {
        self.value()
    }

    fn from_usize_unchecked(other: usize) -> (r: Self) {
        match other {
            0x0 => R12::X0,
            0x1 => R12::X1,
            0x2 => R12::X2,
            0x3 => R12::X3,
            0x4 => R12::X4,
            0x5 => R12::X5,
            0x6 => R12::X6,
            0x7 => R12::X7,
            0x8 => R12::X8,
            0x9 => R12::X9,
            0xa => R12::Xa,
            _ => R12::Xb,
        }
    }
}

/// An index into 13 items. Each member is named by its index.
#[derive(Clone, Copy, PartialEq, Eq, Structural)]
pub enum R13 {
    X0,
    X1,
    X2,
    X3,
    X4,
    X5,
    X6,
    X7,
    X8,
    X9,
    Xa,
    Xb,
    Xc,
}

impl View for R13 {
    type V = nat;

    open spec fn view(&self) -> nat {
        match self {
            R13::X0 => 0,
            R13::X1 => 1,
            R13::X2 => 2,
            R13::X3 => 3,
            R13::X4 => 4,
            R13::X5 => 5,
            R13::X6 => 6,
            R13::X7 => 7,
            R13::X8 => 8,
            R13::X9 => 9,
            R13::Xa => 10,
            R13::Xb => 11,
            R13::Xc => 12,
        }
    }
}

impl R13 {
    /// The index held.
    pub fn value(&self) -> (r: usize)
        ensures
            r == self@,
            r < Self::limit(),
    {
        match self {
            R13::X0 => 0x0,
            R13::X1 => 0x1,
            R13::X2 => 0x2,
            R13::X3 => 0x3,
            R13::X4 => 0x4,
            R13::X5 => 0x5,
            R13::X6 => 0x6,
            R13::X7 => 0x7,
            R13::X8 => 0x8,
            R13::X9 => 0x9,
            R13::Xa => 0xa,
            R13::Xb => 0xb,
            R13::Xc => 0xc,
        }
    }
}

impl RangeIndex for R13 {
    open spec fn limit() -> nat {
        13
    }

    open spec fn from_nat(v: nat) -> Self {
        if v == 0 {
            R13::X0
        } else if v == 1 {
            R13::X1
        } else if v == 2 {
            R13::X2
        } else if v == 3 {
            R13::X3
        } else if v == 4 {
            R13::X4
        } else if v == 5 {
            R13::X5
        } else if v == 6 {
            R13::X6
        } else if v == 7 {
            R13::X7
        } else if v == 8 {
            R13::X8
        } else if v == 9 {
            R13::X9
        } else if v == 10 {
            R13::Xa
        } else if v == 11 {
            R13::Xb
        } else {
            R13::Xc
        }
    }

    proof fn lemma_domain() {
        assert(Self::limit() == 13);
    }

    proof fn lemma_from_nat(v: nat) {
    }

    proof fn lemma_view(self) {
    }

    fn cardinality() -> (m: usize) {
        13
    }

    fn into_usize(self) -> (r: usize) {
        self.value()
    }

    fn from_usize_unchecked(other: usize) -> (r: Self) {
        match other {
            0x0 => R13::X0,
            0x1 => R13::X1,
            0x2 => R13::X2,
            0x3 => R13::X3,
            0x4 => R13::X4,
            0x5 => R13::X5,
            0x6 => R13::X6,
            0x7 => R13::X7,
            0x8 => R13::X8,
            0x9 => R13::X9,
            0xa => R13::Xa,
            0xb => R13::Xb,
            _ => R13::Xc,
        }
    }
}

/// An index into 14 items. Each member is named by its index.
#[derive(Clone, Copy, PartialEq, Eq, Structural)]
pub enum R14 {
    X0,
    X1,
    X2,
    X3,
    X4,
    X5,
    X6,
    X7,
    X8,
    X9,
    Xa,
    Xb,
    Xc,
    Xd,
}

impl View for R14 {
    type V = nat;

    open spec fn view(&self) -> nat {
        match self {
            R14::X0 => 0,
            R14::X1 => 1,
            R14::X2 => 2,
            R14::X3 => 3,
            R14::X4 => 4,
            R14::X5 => 5,
            R14::X6 => 6,
            R14::X7 => 7,
            R14::X8 => 8,
            R14::X9 => 9,
            R14::Xa => 10,
            R14::Xb => 11,
            R14::Xc => 12,
            R14::Xd => 13,
        }
    }
}

impl R14 {
    /// The index held.
    pub fn value(&self) -> (r: usize)
        ensures
            r == self@,
            r < Self::limit(),
    {
        match self {
            R14::X0 => 0x0,
            R14::X1 => 0x1,
            R14::X2 => 0x2,
            R14::X3 => 0x3,
            R14::X4 => 0x4,
            R14::X5 => 0x5,
            R14::X6 => 0x6,
            R14::X7 => 0x7,
            R14::X8 => 0x8,
            R14::X9 => 0x9,
            R14::Xa => 0xa,
            R14::Xb => 0xb,
            R14::Xc => 0xc,
            R14::Xd => 0xd,
        }
    }
}

impl RangeIndex for R14 {
    open spec fn limit() -> nat {
        14
    }

    open spec fn from_nat(v: nat) -> Self {
        if v == 0 {
            R14::X0
        } else if v == 1 {
            R14::X1
        } else if v == 2 {
            R14::X2
        } else if v == 3 {
            R14::X3
        } else if v == 4 {
            R14::X4
        } else if v == 5 {
            R14::X5
        } else if v == 6 {
            R14::X6
        } else if v == 7 {
            R14::X7
        } else if v == 8 {
            R14::X8
        } else if v == 9 {
            R14::X9
        } else if v == 10 {
            R14::Xa
        } else if v == 11 {
            R14::Xb
        } else if v == 12 {
            R14::Xc
        } else {
            R14::Xd
        }
    }

    proof fn lemma_domain() {
        assert(Self::limit() == 14);
    }

    proof fn lemma_from_nat(v: nat) {
    }

    proof fn lemma_view(self) {
    }

    fn cardinality() -> (m: usize) {
        14
    }

    fn into_usize(self) -> (r: usize) {
        self.value()
    }

    fn from_usize_unchecked(other: usize) -> (r: Self) {
        match other {
            0x0 => R14::X0,
            0x1 => R14::X1,
            0x2 => R14::X2,
            0x3 => R14::X3,
            0x4 => R14::X4,
            0x5 => R14::X5,
            0x6 => R14::X6,
            0x7 => R14::X7,
            0x8 => R14::X8,
            0x9 => R14::X9,
            0xa => R14::Xa,
            0xb => R14::Xb,
            0xc => R14::Xc,
            _ => R14::Xd,
        }
    }
}

/// An index into 15 items. Each member is named by its index.
#[derive(Clone, Copy, PartialEq, Eq, Structural)]
pub enum R15 {
    X0,
    X1,
    X2,
    X3,
    X4,
    X5,
    X6,
    X7,
    X8,
    X9,
    Xa,
    Xb,
    Xc,
    Xd,
    Xe,
}

impl View for R15 {
    type V = nat;

    open spec fn view(&self) -> nat {
        match self {
            R15::X0 => 0,
            R15::X1 => 1,
            R15::X2 => 2,
            R15::X3 => 3,
            R15::X4 => 4,
            R15::X5 => 5,
            R15::X6 => 6,
            R15::X7 => 7,
            R15::X8 => 8,
            R15::X9 => 9,
            R15::Xa => 10,
            R15::Xb => 11,
            R15::Xc => 12,
            R15::Xd => 13,
            R15::Xe => 14,
        }
    }
}

impl R15 {
    /// The index held.
    pub fn value(&self) -> (r: usize)
        ensures
            r == self@,
            r < Self::limit(),
    {
        match self {
            R15::X0 => 0x0,
            R15::X1 => 0x1,
            R15::X2 => 0x2,
            R15::X3 => 0x3,
            R15::X4 => 0x4,
            R15::X5 => 0x5,
            R15::X6 => 0x6,
            R15::X7 => 0x7,
            R15::X8 => 0x8,
            R15::X9 => 0x9,
            R15::Xa => 0xa,
            R15::Xb => 0xb,
            R15::Xc => 0xc,
            R15::Xd => 0xd,
            R15::Xe => 0xe,
        }
    }
}

impl RangeIndex for R15 {
    open spec fn limit() -> nat {
        15
    }

    open spec fn from_nat(v: nat) -> Self {
        if v == 0 {
            R15::X0
        } else if v == 1 {
            R15::X1
        } else if v == 2 {
            R15::X2
        } else if v == 3 {
            R15::X3
        } else if v == 4 {
            R15::X4
        } else if v == 5 {
            R15::X5
        } else if v == 6 {
            R15::X6
        } else if v == 7 {
            R15::X7
        } else if v == 8 {
            R15::X8
        } else if v == 9 {
            R15::X9
        } else if v == 10 {
            R15::Xa
        } else if v == 11 {
            R15::Xb
        } else if v == 12 {
            R15::Xc
        } else if v == 13 {
            R15::Xd
        } else {
            R15::Xe
        }
    }

    proof fn lemma_domain() {
        assert(Self::limit() == 15);
    }

    proof fn lemma_from_nat(v: nat) {
    }

    proof fn lemma_view(self) {
    }

    fn cardinality() -> (m: usize) {
        15
    }

    fn into_usize(self) -> (r: usize) {
        self.value()
    }

    fn from_usize_unchecked(other: usize) -> (r: Self) {
        match other {
            0x0 => R15::X0,
            0x1 => R15::X1,
            0x2 => R15::X2,
            0x3 => R15::X3,
            0x4 => R15::X4,
            0x5 => R15::X5,
            0x6 => R15::X6,
            0x7 => R15::X7,
            0x8 => R15::X8,
            0x9 => R15::X9,
            0xa => R15::Xa,
            0xb => R15::Xb,
            0xc => R15::Xc,
            0xd => R15::Xd,
            _ => R15::Xe,
        }
    }
}

/// An index into 16 items. Each member is named by its index.
#[derive(Clone, Copy, PartialEq, Eq, Structural)]
pub enum R16 {
    X0,
    X1,
    X2,
    X3,
    X4,
    X5,
    X6,
    X7,
    X8,
    X9,
    Xa,
    Xb,
    Xc,
    Xd,
    Xe,
    Xf,
}

impl View for R16 {
    type V = nat;

    open spec fn view(&self) -> nat {
        match self {
            R16::X0 => 0,
            R16::X1 => 1,
            R16::X2 => 2,
            R16::X3 => 3,
            R16::X4 => 4,
            R16::X5 => 5,
            R16::X6 => 6,
            R16::X7 => 7,
            R16::X8 => 8,
            R16::X9 => 9,
            R16::Xa => 10,
            R16::Xb => 11,
            R16::Xc => 12,
            R16::Xd => 13,
            R16::Xe => 14,
            R16::Xf => 15,
        }
    }
}

impl R16 {
    /// The index held.
    pub fn value(&self) -> (r: usize)
        ensures
            r == self@,
            r < Self::limit(),
    {
        match self {
            R16::X0 => 0x0,
            R16::X1 => 0x1,
            R16::X2 => 0x2,
            R16::X3 => 0x3,
            R16::X4 => 0x4,
            R16::X5 => 0x5,
            R16::X6 => 0x6,
            R16::X7 => 0x7,
            R16::X8 => 0x8,
            R16::X9 => 0x9,
            R16::Xa => 0xa,
            R16::Xb => 0xb,
            R16::Xc => 0xc,
            R16::Xd => 0xd,
            R16::Xe => 0xe,
            R16::Xf => 0xf,
        }
    }
}

impl RangeIndex for R16 {
    open spec fn limit() -> nat {
        16
    }

    open spec fn from_nat(v: nat) -> Self {
        if v == 0 {
            R16::X0
        } else if v == 1 {
            R16::X1
        } else if v == 2 {
            R16::X2
        } else if v == 3 {
            R16::X3
        } else if v == 4 {
            R16::X4
        } else if v == 5 {
            R16::X5
        } else if v == 6 {
            R16::X6
        } else if v == 7 {
            R16::X7
        } else if v == 8 {
            R16::X8
        } else if v == 9 {
            R16::X9
        } else if v == 10 {
            R16::Xa
        } else if v == 11 {
            R16::Xb
        } else if v == 12 {
            R16::Xc
        } else if v == 13 {
            R16::Xd
        } else if v == 14 {
            R16::Xe
        } else {
            R16::Xf
        }
    }

    proof fn lemma_domain() {
        assert(Self::limit() == 16);
    }

    proof fn lemma_from_nat(v: nat) {
    }

    proof fn lemma_view(self) {
    }

    fn cardinality() -> (m: usize) {
        16
    }

    fn into_usize(self) -> (r: usize) {
        self.value()
    }

    fn from_usize_unchecked(other: usize) -> (r: Self) {
        match other {
            0x0 => R16::X0,
            0x1 => R16::X1,
            0x2 => R16::X2,
            0x3 => R16::X3,
            0x4 => R16::X4,
            0x5 => R16::X5,
            0x6 => R16::X6,
            0x7 => R16::X7,
            0x8 => R16::X8,
            0x9 => R16::X9,
            0xa => R16::Xa,
            0xb => R16::Xb,
            0xc => R16::Xc,
            0xd => R16::Xd,
            0xe => R16::Xe,
            _ => R16::Xf,
        }
    }
}

} // verus!
