//! The ranges of 17 to 32 items: one member for each index, named by its two
//! hexadecimal digits, so that a `match` over an index needs no fallback arm.

use crate::range::RangeIndex;
use vstd::prelude::*;

verus! {

/// An index into 17 items. Each member is named by its index.
#[derive(Clone, Copy, PartialEq, Eq, Structural)]
pub enum R17 {
    X00,
    X01,
    X02,
    X03,
    X04,
    X05,
    X06,
    X07,
    X08,
    X09,
    X0a,
    X0b,
    X0c,
    X0d,
    X0e,
    X0f,
    X10,
}

impl View for R17 {
    type V = nat;

    open spec fn view(&self) -> nat {
        match self {
            R17::X00 => 0,
            R17::X01 => 1,
            R17::X02 => 2,
            R17::X03 => 3,
            R17::X04 => 4,
            R17::X05 => 5,
            R17::X06 => 6,
            R17::X07 => 7,
            R17::X08 => 8,
            R17::X09 => 9,
            R17::X0a => 10,
            R17::X0b => 11,
            R17::X0c => 12,
            R17::X0d => 13,
            R17::X0e => 14,
            R17::X0f => 15,
            R17::X10 => 16,
        }
    }
}

impl R17 {
    /// The index held.
    pub fn value(&self) -> (r: usize)
        ensures
            r == self@,
            r < Self::limit(),
    {
        match self {
            R17::X00 => 0x00,
            R17::X01 => 0x01,
            R17::X02 => 0x02,
            R17::X03 => 0x03,
            R17::X04 => 0x04,
            R17::X05 => 0x05,
            R17::X06 => 0x06,
            R17::X07 => 0x07,
            R17::X08 => 0x08,
            R17::X09 => 0x09,
            R17::X0a => 0x0a,
            R17::X0b => 0x0b,
            R17::X0c => 0x0c,
            R17::X0d => 0x0d,
            R17::X0e => 0x0e,
            R17::X0f => 0x0f,
            R17::X10 => 0x10,
        }
    }
}

impl RangeIndex for R17 {
    open spec fn limit() -> nat {
        17
    }

    open spec fn from_nat(v: nat) -> Self {
        if v == 0 {
            R17::X00
        } else if v == 1 {
            R17::X01
        } else if v == 2 {
            R17::X02
        } else if v == 3 {
            R17::X03
        } else if v == 4 {
            R17::X04
        } else if v == 5 {
            R17::X05
        } else if v == 6 {
            R17::X06
        } else if v == 7 {
            R17::X07
        } else if v == 8 {
            R17::X08
        } else if v == 9 {
            R17::X09
        } else if v == 10 {
            R17::X0a
        } else if v == 11 {
            R17::X0b
        } else if v == 12 {
            R17::X0c
        } else if v == 13 {
            R17::X0d
        } else if v == 14 {
            R17::X0e
        } else if v == 15 {
            R17::X0f
        } else {
            R17::X10
        }
    }

    proof fn lemma_domain() {
        assert(Self::limit() == 17);
    }

    proof fn lemma_from_nat(v: nat) {
    }

    proof fn lemma_view(self) {
    }

    fn cardinality() -> (m: usize) {
        17
    }

    fn into_usize(self) -> (r: usize) {
        self.value()
    }

    fn from_usize_unchecked(other: usize) -> (r: Self) {
        match other {
            0x00 => R17::X00,
            0x01 => R17::X01,
            0x02 => R17::X02,
            0x03 => R17::X03,
            0x04 => R17::X04,
            0x05 => R17::X05,
            0x06 => R17::X06,
            0x07 => R17::X07,
            0x08 => R17::X08,
            0x09 => R17::X09,
            0x0a => R17::X0a,
            0x0b => R17::X0b,
            0x0c => R17::X0c,
            0x0d => R17::X0d,
            0x0e => R17::X0e,
            0x0f => R17::X0f,
            _ => R17::X10,
        }
    }
}

/// An index into 18 items. Each member is named by its index.
#[derive(Clone, Copy, PartialEq, Eq, Structural)]
pub enum R18 {
    X00,
    X01,
    X02,
    X03,
    X04,
    X05,
    X06,
    X07,
    X08,
    X09,
    X0a,
    X0b,
    X0c,
    X0d,
    X0e,
    X0f,
    X10,
    X11,
}

impl View for R18 {
    type V = nat;

    open spec fn view(&self) -> nat {
        match self {
            R18::X00 => 0,
            R18::X01 => 1,
            R18::X02 => 2,
            R18::X03 => 3,
            R18::X04 => 4,
            R18::X05 => 5,
            R18::X06 => 6,
            R18::X07 => 7,
            R18::X08 => 8,
            R18::X09 => 9,
            R18::X0a => 10,
            R18::X0b => 11,
            R18::X0c => 12,
            R18::X0d => 13,
            R18::X0e => 14,
            R18::X0f => 15,
            R18::X10 => 16,
            R18::X11 => 17,
        }
    }
}

impl R18 {
    /// The index held.
    pub fn value(&self) -> (r: usize)
        ensures
            r == self@,
            r < Self::limit(),
    {
        match self {
            R18::X00 => 0x00,
            R18::X01 => 0x01,
            R18::X02 => 0x02,
            R18::X03 => 0x03,
            R18::X04 => 0x04,
            R18::X05 => 0x05,
            R18::X06 => 0x06,
            R18::X07 => 0x07,
            R18::X08 => 0x08,
            R18::X09 => 0x09,
            R18::X0a => 0x0a,
            R18::X0b => 0x0b,
            R18::X0c => 0x0c,
            R18::X0d => 0x0d,
            R18::X0e => 0x0e,
            R18::X0f => 0x0f,
            R18::X10 => 0x10,
            R18::X11 => 0x11,
        }
    }
}

impl RangeIndex for R18 {
    open spec fn limit() -> nat {
        18
    }

    open spec fn from_nat(v: nat) -> Self {
        if v == 0 {
            R18::X00
        } else if v == 1 {
            R18::X01
        } else if v == 2 {
            R18::X02
        } else if v == 3 {
            R18::X03
        } else if v == 4 {
            R18::X04
        } else if v == 5 {
            R18::X05
        } else if v == 6 {
            R18::X06
        } else if v == 7 {
            R18::X07
        } else if v == 8 {
            R18::X08
        } else if v == 9 {
            R18::X09
        } else if v == 10 {
            R18::X0a
        } else if v == 11 {
            R18::X0b
        } else if v == 12 {
            R18::X0c
        } else if v == 13 {
            R18::X0d
        } else if v == 14 {
            R18::X0e
        } else if v == 15 {
            R18::X0f
        } else if v == 16 {
            R18::X10
        } else {
            R18::X11
        }
    }

    proof fn lemma_domain() {
        assert(Self::limit() == 18);
    }

    proof fn lemma_from_nat(v: nat) {
    }

    proof fn lemma_view(self) {
    }

    fn cardinality() -> (m: usize) {
        18
    }

    fn into_usize(self) -> (r: usize) {
        self.value()
    }

    fn from_usize_unchecked(other: usize) -> (r: Self) {
        match other {
            0x00 => R18::X00,
            0x01 => R18::X01,
            0x02 => R18::X02,
            0x03 => R18::X03,
            0x04 => R18::X04,
            0x05 => R18::X05,
            0x06 => R18::X06,
            0x07 => R18::X07,
            0x08 => R18::X08,
            0x09 => R18::X09,
            0x0a => R18::X0a,
            0x0b => R18::X0b,
            0x0c => R18::X0c,
            0x0d => R18::X0d,
            0x0e => R18::X0e,
            0x0f => R18::X0f,
            0x10 => R18::X10,
            _ => R18::X11,
        }
    }
}

/// An index into 19 items. Each member is named by its index.
#[derive(Clone, Copy, PartialEq, Eq, Structural)]
pub enum R19 {
    X00,
    X01,
    X02,
    X03,
    X04,
    X05,
    X06,
    X07,
    X08,
    X09,
    X0a,
    X0b,
    X0c,
    X0d,
    X0e,
    X0f,
    X10,
    X11,
    X12,
}

impl View for R19 {
    type V = nat;

    open spec fn view(&self) -> nat {
        match self {
            R19::X00 => 0,
            R19::X01 => 1,
            R19::X02 => 2,
            R19::X03 => 3,
            R19::X04 => 4,
            R19::X05 => 5,
            R19::X06 => 6,
            R19::X07 => 7,
            R19::X08 => 8,
            R19::X09 => 9,
            R19::X0a => 10,
            R19::X0b => 11,
            R19::X0c => 12,
            R19::X0d => 13,
            R19::X0e => 14,
            R19::X0f => 15,
            R19::X10 => 16,
            R19::X11 => 17,
            R19::X12 => 18,
        }
    }
}

impl R19 {
    /// The index held.
    pub fn value(&self) -> (r: usize)
        ensures
            r == self@,
            r < Self::limit(),
    {
        match self {
            R19::X00 => 0x00,
            R19::X01 => 0x01,
            R19::X02 => 0x02,
            R19::X03 => 0x03,
            R19::X04 => 0x04,
            R19::X05 => 0x05,
            R19::X06 => 0x06,
            R19::X07 => 0x07,
            R19::X08 => 0x08,
            R19::X09 => 0x09,
            R19::X0a => 0x0a,
            R19::X0b => 0x0b,
            R19::X0c => 0x0c,
            R19::X0d => 0x0d,
            R19::X0e => 0x0e,
            R19::X0f => 0x0f,
            R19::X10 => 0x10,
            R19::X11 => 0x11,
            R19::X12 => 0x12,
        }
    }
}

impl RangeIndex for R19 {
    open spec fn limit() -> nat {
        19
    }

    open spec fn from_nat(v: nat) -> Self {
        if v == 0 {
            R19::X00
        } else if v == 1 {
            R19::X01
        } else if v == 2 {
            R19::X02
        } else if v == 3 {
            R19::X03
        } else if v == 4 {
            R19::X04
        } else if v == 5 {
            R19::X05
        } else if v == 6 {
            R19::X06
        } else if v == 7 {
            R19::X07
        } else if v == 8 {
            R19::X08
        } else if v == 9 {
            R19::X09
        } else if v == 10 {
            R19::X0a
        } else if v == 11 {
            R19::X0b
        } else if v == 12 {
            R19::X0c
        } else if v == 13 {
            R19::X0d
        } else if v == 14 {
            R19::X0e
        } else if v == 15 {
            R19::X0f
        } else if v == 16 {
            R19::X10
        } else if v == 17 {
            R19::X11
        } else {
            R19::X12
        }
    }

    proof fn lemma_domain() {
        assert(Self::limit() == 19);
    }

    proof fn lemma_from_nat(v: nat) {
    }

    proof fn lemma_view(self) {
    }

    fn cardinality() -> (m: usize) {
        19
    }

    fn into_usize(self) -> (r: usize) {
        self.value()
    }

    fn from_usize_unchecked(other: usize) -> (r: Self) {
        match other {
            0x00 => R19::X00,
            0x01 => R19::X01,
            0x02 => R19::X02,
            0x03 => R19::X03,
            0x04 => R19::X04,
            0x05 => R19::X05,
            0x06 => R19::X06,
            0x07 => R19::X07,
            0x08 => R19::X08,
            0x09 => R19::X09,
            0x0a => R19::X0a,
            0x0b => R19::X0b,
            0x0c => R19::X0c,
            0x0d => R19::X0d,
            0x0e => R19::X0e,
            0x0f => R19::X0f,
            0x10 => R19::X10,
            0x11 => R19::X11,
            _ => R19::X12,
        }
    }
}

/// An index into 20 items. Each member is named by its index.
#[derive(Clone, Copy, PartialEq, Eq, Structural)]
pub enum R20 {
    X00,
    X01,
    X02,
    X03,
    X04,
    X05,
    X06,
    X07,
    X08,
    X09,
    X0a,
    X0b,
    X0c,
    X0d,
    X0e,
    X0f,
    X10,
    X11,
    X12,
    X13,
}

impl View for R20 {
    type V = nat;

    open spec fn view(&self) -> nat {
        match self {
            R20::X00 => 0,
            R20::X01 => 1,
            R20::X02 => 2,
            R20::X03 => 3,
            R20::X04 => 4,
            R20::X05 => 5,
            R20::X06 => 6,
            R20::X07 => 7,
            R20::X08 => 8,
            R20::X09 => 9,
            R20::X0a => 10,
            R20::X0b => 11,
            R20::X0c => 12,
            R20::X0d => 13,
            R20::X0e => 14,
            R20::X0f => 15,
            R20::X10 => 16,
            R20::X11 => 17,
            R20::X12 => 18,
            R20::X13 => 19,
        }
    }
}

impl R20 {
    /// The index held.
    pub fn value(&self) -> (r: usize)
        ensures
            r == self@,
            r < Self::limit(),
    {
        match self {
            R20::X00 => 0x00,
            R20::X01 => 0x01,
            R20::X02 => 0x02,
            R20::X03 => 0x03,
            R20::X04 => 0x04,
            R20::X05 => 0x05,
            R20::X06 => 0x06,
            R20::X07 => 0x07,
            R20::X08 => 0x08,
            R20::X09 => 0x09,
            R20::X0a => 0x0a,
            R20::X0b => 0x0b,
            R20::X0c => 0x0c,
            R20::X0d => 0x0d,
            R20::X0e => 0x0e,
            R20::X0f => 0x0f,
            R20::X10 => 0x10,
            R20::X11 => 0x11,
            R20::X12 => 0x12,
            R20::X13 => 0x13,
        }
    }
}

impl RangeIndex for R20 {
    open spec fn limit() -> nat {
        20
    }

    open spec fn from_nat(v: nat) -> Self {
        if v == 0 {
            R20::X00
        } else if v == 1 {
            R20::X01
        } else if v == 2 {
            R20::X02
        } else if v == 3 {
            R20::X03
        } else if v == 4 {
            R20::X04
        } else if v == 5 {
            R20::X05
        } else if v == 6 {
            R20::X06
        } else if v == 7 {
            R20::X07
        } else if v == 8 {
            R20::X08
        } else if v == 9 {
            R20::X09
        } else if v == 10 {
            R20::X0a
        } else if v == 11 {
            R20::X0b
        } else if v == 12 {
            R20::X0c
        } else if v == 13 {
            R20::X0d
        } else if v == 14 {
            R20::X0e
        } else if v == 15 {
            R20::X0f
        } else if v == 16 {
            R20::X10
        } else if v == 17 {
            R20::X11
        } else if v == 18 {
            R20::X12
        } else {
            R20::X13
        }
    }

    proof fn lemma_domain() {
        assert(Self::limit() == 20);
    }

    proof fn lemma_from_nat(v: nat) {
    }

    proof fn lemma_view(self) {
    }

    fn cardinality() -> (m: usize) {
        20
    }

    fn into_usize(self) -> (r: usize) {
        self.value()
    }

    fn from_usize_unchecked(other: usize) -> (r: Self) {
        match other {
            0x00 => R20::X00,
            0x01 => R20::X01,
            0x02 => R20::X02,
            0x03 => R20::X03,
            0x04 => R20::X04,
            0x05 => R20::X05,
            0x06 => R20::X06,
            0x07 => R20::X07,
            0x08 => R20::X08,
            0x09 => R20::X09,
            0x0a => R20::X0a,
            0x0b => R20::X0b,
            0x0c => R20::X0c,
            0x0d => R20::X0d,
            0x0e => R20::X0e,
            0x0f => R20::X0f,
            0x10 => R20::X10,
            0x11 => R20::X11,
            0x12 => R20::X12,
            _ => R20::X13,
        }
    }
}

/// An index into 21 items. Each member is named by its index.
#[derive(Clone, Copy, PartialEq, Eq, Structural)]
pub enum R21 {
    X00,
    X01,
    X02,
    X03,
    X04,
    X05,
    X06,
    X07,
    X08,
    X09,
    X0a,
    X0b,
    X0c,
    X0d,
    X0e,
    X0f,
    X10,
    X11,
    X12,
    X13,
    X14,
}

impl View for R21 {
    type V = nat;

    open spec fn view(&self) -> nat {
        match self {
            R21::X00 => 0,
            R21::X01 => 1,
            R21::X02 => 2,
            R21::X03 => 3,
            R21::X04 => 4,
            R21::X05 => 5,
            R21::X06 => 6,
            R21::X07 => 7,
            R21::X08 => 8,
            R21::X09 => 9,
            R21::X0a => 10,
            R21::X0b => 11,
            R21::X0c => 12,
            R21::X0d => 13,
            R21::X0e => 14,
            R21::X0f => 15,
            R21::X10 => 16,
            R21::X11 => 17,
            R21::X12 => 18,
            R21::X13 => 19,
            R21::X14 => 20,
        }
    }
}

impl R21 {
    /// The index held.
    pub fn value(&self) -> (r: usize)
        ensures
            r == self@,
            r < Self::limit(),
    {
        match self {
            R21::X00 => 0x00,
            R21::X01 => 0x01,
            R21::X02 => 0x02,
            R21::X03 => 0x03,
            R21::X04 => 0x04,
            R21::X05 => 0x05,
            R21::X06 => 0x06,
            R21::X07 => 0x07,
            R21::X08 => 0x08,
            R21::X09 => 0x09,
            R21::X0a => 0x0a,
            R21::X0b => 0x0b,
            R21::X0c => 0x0c,
            R21::X0d => 0x0d,
            R21::X0e => 0x0e,
            R21::X0f => 0x0f,
            R21::X10 => 0x10,
            R21::X11 => 0x11,
            R21::X12 => 0x12,
            R21::X13 => 0x13,
            R21::X14 => 0x14,
        }
    }
}

impl RangeIndex for R21 {
    open spec fn limit() -> nat {
        21
    }

    open spec fn from_nat(v: nat) -> Self {
        if v == 0 {
            R21::X00
        } else if v == 1 {
            R21::X01
        } else if v == 2 {
            R21::X02
        } else if v == 3 {
            R21::X03
        } else if v == 4 {
            R21::X04
        } else if v == 5 {
            R21::X05
        } else if v == 6 {
            R21::X06
        } else if v == 7 {
            R21::X07
        } else if v == 8 {
            R21::X08
        } else if v == 9 {
            R21::X09
        } else if v == 10 {
            R21::X0a
        } else if v == 11 {
            R21::X0b
        } else if v == 12 {
            R21::X0c
        } else if v == 13 {
            R21::X0d
        } else if v == 14 {
            R21::X0e
        } else if v == 15 {
            R21::X0f
        } else if v == 16 {
            R21::X10
        } else if v == 17 {
            R21::X11
        } else if v == 18 {
            R21::X12
        } else if v == 19 {
            R21::X13
        } else {
            R21::X14
        }
    }

    proof fn lemma_domain() {
        assert(Self::limit() == 21);
    }

    proof fn lemma_from_nat(v: nat) {
    }

    proof fn lemma_view(self) {
    }

    fn cardinality() -> (m: usize) {
        21
    }

    fn into_usize(self) -> (r: usize) {
        self.value()
    }

    fn from_usize_unchecked(other: usize) -> (r: Self) {
        match other {
            0x00 => R21::X00,
            0x01 => R21::X01,
            0x02 => R21::X02,
            0x03 => R21::X03,
            0x04 => R21::X04,
            0x05 => R21::X05,
            0x06 => R21::X06,
            0x07 => R21::X07,
            0x08 => R21::X08,
            0x09 => R21::X09,
            0x0a => R21::X0a,
            0x0b => R21::X0b,
            0x0c => R21::X0c,
            0x0d => R21::X0d,
            0x0e => R21::X0e,
            0x0f => R21::X0f,
            0x10 => R21::X10,
            0x11 => R21::X11,
            0x12 => R21::X12,
            0x13 => R21::X13,
            _ => R21::X14,
        }
    }
}

/// An index into 22 items. Each member is named by its index.
#[derive(Clone, Copy, PartialEq, Eq, Structural)]
pub enum R22 {
    X00,
    X01,
    X02,
    X03,
    X04,
    X05,
    X06,
    X07,
    X08,
    X09,
    X0a,
    X0b,
    X0c,
    X0d,
    X0e,
    X0f,
    X10,
    X11,
    X12,
    X13,
    X14,
    X15,
}

impl View for R22 {
    type V = nat;

    open spec fn view(&self) -> nat {
        match self {
            R22::X00 => 0,
            R22::X01 => 1,
            R22::X02 => 2,
            R22::X03 => 3,
            R22::X04 => 4,
            R22::X05 => 5,
            R22::X06 => 6,
            R22::X07 => 7,
            R22::X08 => 8,
            R22::X09 => 9,
            R22::X0a => 10,
            R22::X0b => 11,
            R22::X0c => 12,
            R22::X0d => 13,
            R22::X0e => 14,
            R22::X0f => 15,
            R22::X10 => 16,
            R22::X11 => 17,
            R22::X12 => 18,
            R22::X13 => 19,
            R22::X14 => 20,
            R22::X15 => 21,
        }
    }
}

impl R22 {
    /// The index held.
    pub fn value(&self) -> (r: usize)
        ensures
            r == self@,
            r < Self::limit(),
    {
        match self {
            R22::X00 => 0x00,
            R22::X01 => 0x01,
            R22::X02 => 0x02,
            R22::X03 => 0x03,
            R22::X04 => 0x04,
            R22::X05 => 0x05,
            R22::X06 => 0x06,
            R22::X07 => 0x07,
            R22::X08 => 0x08,
            R22::X09 => 0x09,
            R22::X0a => 0x0a,
            R22::X0b => 0x0b,
            R22::X0c => 0x0c,
            R22::X0d => 0x0d,
            R22::X0e => 0x0e,
            R22::X0f => 0x0f,
            R22::X10 => 0x10,
            R22::X11 => 0x11,
            R22::X12 => 0x12,
            R22::X13 => 0x13,
            R22::X14 => 0x14,
            R22::X15 => 0x15,
        }
    }
}

impl RangeIndex for R22 {
    open spec fn limit() -> nat {
        22
    }

    open spec fn from_nat(v: nat) -> Self {
        if v == 0 {
            R22::X00
        } else if v == 1 {
            R22::X01
        } else if v == 2 {
            R22::X02
        } else if v == 3 {
            R22::X03
        } else if v == 4 {
            R22::X04
        } else if v == 5 {
            R22::X05
        } else if v == 6 {
            R22::X06
        } else if v == 7 {
            R22::X07
        } else if v == 8 {
            R22::X08
        } else if v == 9 {
            R22::X09
        } else if v == 10 {
            R22::X0a
        } else if v == 11 {
            R22::X0b
        } else if v == 12 {
            R22::X0c
        } else if v == 13 {
            R22::X0d
        } else if v == 14 {
            R22::X0e
        } else if v == 15 {
            R22::X0f
        } else if v == 16 {
            R22::X10
        } else if v == 17 {
            R22::X11
        } else if v == 18 {
            R22::X12
        } else if v == 19 {
            R22::X13
        } else if v == 20 {
            R22::X14
        } else {
            R22::X15
        }
    }

    proof fn lemma_domain() {
        assert(Self::limit() == 22);
    }

    proof fn lemma_from_nat(v: nat) {
    }

    proof fn lemma_view(self) {
    }

    fn cardinality() -> (m: usize) {
        22
    }

    fn into_usize(self) -> (r: usize) {
        self.value()
    }

    fn from_usize_unchecked(other: usize) -> (r: Self) {
        match other {
            0x00 => R22::X00,
            0x01 => R22::X01,
            0x02 => R22::X02,
            0x03 => R22::X03,
            0x04 => R22::X04,
            0x05 => R22::X05,
            0x06 => R22::X06,
            0x07 => R22::X07,
            0x08 => R22::X08,
            0x09 => R22::X09,
            0x0a => R22::X0a,
            0x0b => R22::X0b,
            0x0c => R22::X0c,
            0x0d => R22::X0d,
            0x0e => R22::X0e,
            0x0f => R22::X0f,
            0x10 => R22::X10,
            0x11 => R22::X11,
            0x12 => R22::X12,
            0x13 => R22::X13,
            0x14 => R22::X14,
            _ => R22::X15,
        }
    }
}

/// An index into 23 items. Each member is named by its index.
#[derive(Clone, Copy, PartialEq, Eq, Structural)]
pub enum R23 {
    X00,
    X01,
    X02,
    X03,
    X04,
    X05,
    X06,
    X07,
    X08,
    X09,
    X0a,
    X0b,
    X0c,
    X0d,
    X0e,
    X0f,
    X10,
    X11,
    X12,
    X13,
    X14,
    X15,
    X16,
}

impl View for R23 {
    type V = nat;

    open spec fn view(&self) -> nat {
        match self {
            R23::X00 => 0,
            R23::X01 => 1,
            R23::X02 => 2,
            R23::X03 => 3,
            R23::X04 => 4,
            R23::X05 => 5,
            R23::X06 => 6,
            R23::X07 => 7,
            R23::X08 => 8,
            R23::X09 => 9,
            R23::X0a => 10,
            R23::X0b => 11,
            R23::X0c => 12,
            R23::X0d => 13,
            R23::X0e => 14,
            R23::X0f => 15,
            R23::X10 => 16,
            R23::X11 => 17,
            R23::X12 => 18,
            R23::X13 => 19,
            R23::X14 => 20,
            R23::X15 => 21,
            R23::X16 => 22,
        }
    }
}

impl R23 {
    /// The index held.
    pub fn value(&self) -> (r: usize)
        ensures
            r == self@,
            r < Self::limit(),
    {
        match self {
            R23::X00 => 0x00,
            R23::X01 => 0x01,
            R23::X02 => 0x02,
            R23::X03 => 0x03,
            R23::X04 => 0x04,
            R23::X05 => 0x05,
            R23::X06 => 0x06,
            R23::X07 => 0x07,
            R23::X08 => 0x08,
            R23::X09 => 0x09,
            R23::X0a => 0x0a,
            R23::X0b => 0x0b,
            R23::X0c => 0x0c,
            R23::X0d => 0x0d,
            R23::X0e => 0x0e,
            R23::X0f => 0x0f,
            R23::X10 => 0x10,
            R23::X11 => 0x11,
            R23::X12 => 0x12,
            R23::X13 => 0x13,
            R23::X14 => 0x14,
            R23::X15 => 0x15,
            R23::X16 => 0x16,
        }
    }
}

impl RangeIndex for R23 {
    open spec fn limit() -> nat {
        23
    }

    open spec fn from_nat(v: nat) -> Self {
        if v == 0 {
            R23::X00
        } else if v == 1 {
            R23::X01
        } else if v == 2 {
            R23::X02
        } else if v == 3 {
            R23::X03
        } else if v == 4 {
            R23::X04
        } else if v == 5 {
            R23::X05
        } else if v == 6 {
            R23::X06
        } else if v == 7 {
            R23::X07
        } else if v == 8 {
            R23::X08
        } else if v == 9 {
            R23::X09
        } else if v == 10 {
            R23::X0a
        } else if v == 11 {
            R23::X0b
        } else if v == 12 {
            R23::X0c
        } else if v == 13 {
            R23::X0d
        } else if v == 14 {
            R23::X0e
        } else if v == 15 {
            R23::X0f
        } else if v == 16 {
            R23::X10
        } else if v == 17 {
            R23::X11
        } else if v == 18 {
            R23::X12
        } else if v == 19 {
            R23::X13
        } else if v == 20 {
            R23::X14
        } else if v == 21 {
            R23::X15
        } else {
            R23::X16
        }
    }

    proof fn lemma_domain() {
        assert(Self::limit() == 23);
    }

    proof fn lemma_from_nat(v: nat) {
    }

    proof fn lemma_view(self) {
    }

    fn cardinality() -> (m: usize) {
        23
    }

    fn into_usize(self) -> (r: usize) {
        self.value()
    }

    fn from_usize_unchecked(other: usize) -> (r: Self) {
        match other {
            0x00 => R23::X00,
            0x01 => R23::X01,
            0x02 => R23::X02,
            0x03 => R23::X03,
            0x04 => R23::X04,
            0x05 => R23::X05,
            0x06 => R23::X06,
            0x07 => R23::X07,
            0x08 => R23::X08,
            0x09 => R23::X09,
            0x0a => R23::X0a,
            0x0b => R23::X0b,
            0x0c => R23::X0c,
            0x0d => R23::X0d,
            0x0e => R23::X0e,
            0x0f => R23::X0f,
            0x10 => R23::X10,
            0x11 => R23::X11,
            0x12 => R23::X12,
            0x13 => R23::X13,
            0x14 => R23::X14,
            0x15 => R23::X15,
            _ => R23::X16,
        }
    }
}

/// An index into 24 items. Each member is named by its index.
#[derive(Clone, Copy, PartialEq, Eq, Structural)]
pub enum R24 {
    X00,
    X01,
    X02,
    X03,
    X04,
    X05,
    X06,
    X07,
    X08,
    X09,
    X0a,
    X0b,
    X0c,
    X0d,
    X0e,
    X0f,
    X10,
    X11,
    X12,
    X13,
    X14,
    X15,
    X16,
    X17,
}

impl View for R24 {
    type V = nat;

    open spec fn view(&self) -> nat {
        match self {
            R24::X00 => 0,
            R24::X01 => 1,
            R24::X02 => 2,
            R24::X03 => 3,
            R24::X04 => 4,
            R24::X05 => 5,
            R24::X06 => 6,
            R24::X07 => 7,
            R24::X08 => 8,
            R24::X09 => 9,
            R24::X0a => 10,
            R24::X0b => 11,
            R24::X0c => 12,
            R24::X0d => 13,
            R24::X0e => 14,
            R24::X0f => 15,
            R24::X10 => 16,
            R24::X11 => 17,
            R24::X12 => 18,
            R24::X13 => 19,
            R24::X14 => 20,
            R24::X15 => 21,
            R24::X16 => 22,
            R24::X17 => 23,
        }
    }
}

impl R24 {
    /// The index held.
    pub fn value(&self) -> (r: usize)
        ensures
            r == self@,
            r < Self::limit(),
    {
        match self {
            R24::X00 => 0x00,
            R24::X01 => 0x01,
            R24::X02 => 0x02,
            R24::X03 => 0x03,
            R24::X04 => 0x04,
            R24::X05 => 0x05,
            R24::X06 => 0x06,
            R24::X07 => 0x07,
            R24::X08 => 0x08,
            R24::X09 => 0x09,
            R24::X0a => 0x0a,
            R24::X0b => 0x0b,
            R24::X0c => 0x0c,
            R24::X0d => 0x0d,
            R24::X0e => 0x0e,
            R24::X0f => 0x0f,
            R24::X10 => 0x10,
            R24::X11 => 0x11,
            R24::X12 => 0x12,
            R24::X13 => 0x13,
            R24::X14 => 0x14,
            R24::X15 => 0x15,
            R24::X16 => 0x16,
            R24::X17 => 0x17,
        }
    }
}

impl RangeIndex for R24 {
    open spec fn limit() -> nat {
        24
    }

    open spec fn from_nat(v: nat) -> Self {
        if v == 0 {
            R24::X00
        } else if v == 1 {
            R24::X01
        } else if v == 2 {
            R24::X02
        } else if v == 3 {
            R24::X03
        } else if v == 4 {
            R24::X04
        } else if v == 5 {
            R24::X05
        } else if v == 6 {
            R24::X06
        } else if v == 7 {
            R24::X07
        } else if v == 8 {
            R24::X08
        } else if v == 9 {
            R24::X09
        } else if v == 10 {
            R24::X0a
        } else if v == 11 {
            R24::X0b
        } else if v == 12 {
            R24::X0c
        } else if v == 13 {
            R24::X0d
        } else if v == 14 {
            R24::X0e
        } else if v == 15 {
            R24::X0f
        } else if v == 16 {
            R24::X10
        } else if v == 17 {
            R24::X11
        } else if v == 18 {
            R24::X12
        } else if v == 19 {
            R24::X13
        } else if v == 20 {
            R24::X14
        } else if v == 21 {
            R24::X15
        } else if v == 22 {
            R24::X16
        } else {
            R24::X17
        }
    }

    proof fn lemma_domain() {
        assert(Self::limit() == 24);
    }

    proof fn lemma_from_nat(v: nat) {
    }

    proof fn lemma_view(self) {
    }

    fn cardinality() -> (m: usize) {
        24
    }

    fn into_usize(self) -> (r: usize) {
        self.value()
    }

    fn from_usize_unchecked(other: usize) -> (r: Self) {
        match other {
            0x00 => R24::X00,
            0x01 => R24::X01,
            0x02 => R24::X02,
            0x03 => R24::X03,
            0x04 => R24::X04,
            0x05 => R24::X05,
            0x06 => R24::X06,
            0x07 => R24::X07,
            0x08 => R24::X08,
            0x09 => R24::X09,
            0x0a => R24::X0a,
            0x0b => R24::X0b,
            0x0c => R24::X0c,
            0x0d => R24::X0d,
            0x0e => R24::X0e,
            0x0f => R24::X0f,
            0x10 => R24::X10,
            0x11 => R24::X11,
            0x12 => R24::X12,
            0x13 => R24::X13,
            0x14 => R24::X14,
            0x15 => R24::X15,
            0x16 => R24::X16,
            _ => R24::X17,
        }
    }
}

/// An index into 25 items. Each member is named by its index.
#[derive(Clone, Copy, PartialEq, Eq, Structural)]
pub enum R25 {
    X00,
    X01,
    X02,
    X03,
    X04,
    X05,
    X06,
    X07,
    X08,
    X09,
    X0a,
    X0b,
    X0c,
    X0d,
    X0e,
    X0f,
    X10,
    X11,
    X12,
    X13,
    X14,
    X15,
    X16,
    X17,
    X18,
}

impl View for R25 {
    type V = nat;

    open spec fn view(&self) -> nat {
        match self {
            R25::X00 => 0,
            R25::X01 => 1,
            R25::X02 => 2,
            R25::X03 => 3,
            R25::X04 => 4,
            R25::X05 => 5,
            R25::X06 => 6,
            R25::X07 => 7,
            R25::X08 => 8,
            R25::X09 => 9,
            R25::X0a => 10,
            R25::X0b => 11,
            R25::X0c => 12,
            R25::X0d => 13,
            R25::X0e => 14,
            R25::X0f => 15,
            R25::X10 => 16,
            R25::X11 => 17,
            R25::X12 => 18,
            R25::X13 => 19,
            R25::X14 => 20,
            R25::X15 => 21,
            R25::X16 => 22,
            R25::X17 => 23,
            R25::X18 => 24,
        }
    }
}

impl R25 {
    /// The index held.
    pub fn value(&self) -> (r: usize)
        ensures
            r == self@,
            r < Self::limit(),
    {
        match self {
            R25::X00 => 0x00,
            R25::X01 => 0x01,
            R25::X02 => 0x02,
            R25::X03 => 0x03,
            R25::X04 => 0x04,
            R25::X05 => 0x05,
            R25::X06 => 0x06,
            R25::X07 => 0x07,
            R25::X08 => 0x08,
            R25::X09 => 0x09,
            R25::X0a => 0x0a,
            R25::X0b => 0x0b,
            R25::X0c => 0x0c,
            R25::X0d => 0x0d,
            R25::X0e => 0x0e,
            R25::X0f => 0x0f,
            R25::X10 => 0x10,
            R25::X11 => 0x11,
            R25::X12 => 0x12,
            R25::X13 => 0x13,
            R25::X14 => 0x14,
            R25::X15 => 0x15,
            R25::X16 => 0x16,
            R25::X17 => 0x17,
            R25::X18 => 0x18,
        }
    }
}

impl RangeIndex for R25 {
    open spec fn limit() -> nat {
        25
    }

    open spec fn from_nat(v: nat) -> Self {
        if v == 0 {
            R25::X00
        } else if v == 1 {
            R25::X01
        } else if v == 2 {
            R25::X02
        } else if v == 3 {
            R25::X03
        } else if v == 4 {
            R25::X04
        } else if v == 5 {
            R25::X05
        } else if v == 6 {
            R25::X06
        } else if v == 7 {
            R25::X07
        } else if v == 8 {
            R25::X08
        } else if v == 9 {
            R25::X09
        } else if v == 10 {
            R25::X0a
        } else if v == 11 {
            R25::X0b
        } else if v == 12 {
            R25::X0c
        } else if v == 13 {
            R25::X0d
        } else if v == 14 {
            R25::X0e
        } else if v == 15 {
            R25::X0f
        } else if v == 16 {
            R25::X10
        } else if v == 17 {
            R25::X11
        } else if v == 18 {
            R25::X12
        } else if v == 19 {
            R25::X13
        } else if v == 20 {
            R25::X14
        } else if v == 21 {
            R25::X15
        } else if v == 22 {
            R25::X16
        } else if v == 23 {
            R25::X17
        } else {
            R25::X18
        }
    }

    proof fn lemma_domain() {
        assert(Self::limit() == 25);
    }

    proof fn lemma_from_nat(v: nat) {
    }

    proof fn lemma_view(self) {
    }

    fn cardinality() -> (m: usize) {
        25
    }

    fn into_usize(self) -> (r: usize) {
        self.value()
    }

    fn from_usize_unchecked(other: usize) -> (r: Self) {
        match other {
            0x00 => R25::X00,
            0x01 => R25::X01,
            0x02 => R25::X02,
            0x03 => R25::X03,
            0x04 => R25::X04,
            0x05 => R25::X05,
            0x06 => R25::X06,
            0x07 => R25::X07,
            0x08 => R25::X08,
            0x09 => R25::X09,
            0x0a => R25::X0a,
            0x0b => R25::X0b,
            0x0c => R25::X0c,
            0x0d => R25::X0d,
            0x0e => R25::X0e,
            0x0f => R25::X0f,
            0x10 => R25::X10,
            0x11 => R25::X11,
            0x12 => R25::X12,
            0x13 => R25::X13,
            0x14 => R25::X14,
            0x15 => R25::X15,
            0x16 => R25::X16,
            0x17 => R25::X17,
            _ => R25::X18,
        }
    }
}

/// An index into 26 items. Each member is named by its index.
#[derive(Clone, Copy, PartialEq, Eq, Structural)]
pub enum R26 {
    X00,
    X01,
    X02,
    X03,
    X04,
    X05,
    X06,
    X07,
    X08,
    X09,
    X0a,
    X0b,
    X0c,
    X0d,
    X0e,
    X0f,
    X10,
    X11,
    X12,
    X13,
    X14,
    X15,
    X16,
    X17,
    X18,
    X19,
}

impl View for R26 {
    type V = nat;

    open spec fn view(&self) -> nat {
        match self {
            R26::X00 => 0,
            R26::X01 => 1,
            R26::X02 => 2,
            R26::X03 => 3,
            R26::X04 => 4,
            R26::X05 => 5,
            R26::X06 => 6,
            R26::X07 => 7,
            R26::X08 => 8,
            R26::X09 => 9,
            R26::X0a => 10,
            R26::X0b => 11,
            R26::X0c => 12,
            R26::X0d => 13,
            R26::X0e => 14,
            R26::X0f => 15,
            R26::X10 => 16,
            R26::X11 => 17,
            R26::X12 => 18,
            R26::X13 => 19,
            R26::X14 => 20,
            R26::X15 => 21,
            R26::X16 => 22,
            R26::X17 => 23,
            R26::X18 => 24,
            R26::X19 => 25,
        }
    }
}

impl R26 {
    /// The index held.
    pub fn value(&self) -> (r: usize)
        ensures
            r == self@,
            r < Self::limit(),
    {
        match self {
            R26::X00 => 0x00,
            R26::X01 => 0x01,
            R26::X02 => 0x02,
            R26::X03 => 0x03,
            R26::X04 => 0x04,
            R26::X05 => 0x05,
            R26::X06 => 0x06,
            R26::X07 => 0x07,
            R26::X08 => 0x08,
            R26::X09 => 0x09,
            R26::X0a => 0x0a,
            R26::X0b => 0x0b,
            R26::X0c => 0x0c,
            R26::X0d => 0x0d,
            R26::X0e => 0x0e,
            R26::X0f => 0x0f,
            R26::X10 => 0x10,
            R26::X11 => 0x11,
            R26::X12 => 0x12,
            R26::X13 => 0x13,
            R26::X14 => 0x14,
            R26::X15 => 0x15,
            R26::X16 => 0x16,
            R26::X17 => 0x17,
            R26::X18 => 0x18,
            R26::X19 => 0x19,
        }
    }
}

impl RangeIndex for R26 {
    open spec fn limit() -> nat {
        26
    }

    open spec fn from_nat(v: nat) -> Self {
        if v == 0 {
            R26::X00
        } else if v == 1 {
            R26::X01
        } else if v == 2 {
            R26::X02
        } else if v == 3 {
            R26::X03
        } else if v == 4 {
            R26::X04
        } else if v == 5 {
            R26::X05
        } else if v == 6 {
            R26::X06
        } else if v == 7 {
            R26::X07
        } else if v == 8 {
            R26::X08
        } else if v == 9 {
            R26::X09
        } else if v == 10 {
            R26::X0a
        } else if v == 11 {
            R26::X0b
        } else if v == 12 {
            R26::X0c
        } else if v == 13 {
            R26::X0d
        } else if v == 14 {
            R26::X0e
        } else if v == 15 {
            R26::X0f
        } else if v == 16 {
            R26::X10
        } else if v == 17 {
            R26::X11
        } else if v == 18 {
            R26::X12
        } else if v == 19 {
            R26::X13
        } else if v == 20 {
            R26::X14
        } else if v == 21 {
            R26::X15
        } else if v == 22 {
            R26::X16
        } else if v == 23 {
            R26::X17
        } else if v == 24 {
            R26::X18
        } else {
            R26::X19
        }
    }

    proof fn lemma_domain() {
        assert(Self::limit() == 26);
    }

    proof fn lemma_from_nat(v: nat) {
    }

    proof fn lemma_view(self) {
    }

    fn cardinality() -> (m: usize) {
        26
    }

    fn into_usize(self) -> (r: usize) {
        self.value()
    }

    fn from_usize_unchecked(other: usize) -> (r: Self) {
        match other {
            0x00 => R26::X00,
            0x01 => R26::X01,
            0x02 => R26::X02,
            0x03 => R26::X03,
            0x04 => R26::X04,
            0x05 => R26::X05,
            0x06 => R26::X06,
            0x07 => R26::X07,
            0x08 => R26::X08,
            0x09 => R26::X09,
            0x0a => R26::X0a,
            0x0b => R26::X0b,
            0x0c => R26::X0c,
            0x0d => R26::X0d,
            0x0e => R26::X0e,
            0x0f => R26::X0f,
            0x10 => R26::X10,
            0x11 => R26::X11,
            0x12 => R26::X12,
            0x13 => R26::X13,
            0x14 => R26::X14,
            0x15 => R26::X15,
            0x16 => R26::X16,
            0x17 => R26::X17,
            0x18 => R26::X18,
            _ => R26::X19,
        }
    }
}

/// An index into 27 items. Each member is named by its index.
#[derive(Clone, Copy, PartialEq, Eq, Structural)]
pub enum R27 {
    X00,
    X01,
    X02,
    X03,
    X04,
    X05,
    X06,
    X07,
    X08,
    X09,
    X0a,
    X0b,
    X0c,
    X0d,
    X0e,
    X0f,
    X10,
    X11,
    X12,
    X13,
    X14,
    X15,
    X16,
    X17,
    X18,
    X19,
    X1a,
}

impl View for R27 {
    type V = nat;

    open spec fn view(&self) -> nat {
        match self {
            R27::X00 => 0,
            R27::X01 => 1,
            R27::X02 => 2,
            R27::X03 => 3,
            R27::X04 => 4,
            R27::X05 => 5,
            R27::X06 => 6,
            R27::X07 => 7,
            R27::X08 => 8,
            R27::X09 => 9,
            R27::X0a => 10,
            R27::X0b => 11,
            R27::X0c => 12,
            R27::X0d => 13,
            R27::X0e => 14,
            R27::X0f => 15,
            R27::X10 => 16,
            R27::X11 => 17,
            R27::X12 => 18,
            R27::X13 => 19,
            R27::X14 => 20,
            R27::X15 => 21,
            R27::X16 => 22,
            R27::X17 => 23,
            R27::X18 => 24,
            R27::X19 => 25,
            R27::X1a => 26,
        }
    }
}

impl R27 {
    /// The index held.
    pub fn value(&self) -> (r: usize)
        ensures
            r == self@,
            r < Self::limit(),
    {
        match self {
            R27::X00 => 0x00,
            R27::X01 => 0x01,
            R27::X02 => 0x02,
            R27::X03 => 0x03,
            R27::X04 => 0x04,
            R27::X05 => 0x05,
            R27::X06 => 0x06,
            R27::X07 => 0x07,
            R27::X08 => 0x08,
            R27::X09 => 0x09,
            R27::X0a => 0x0a,
            R27::X0b => 0x0b,
            R27::X0c => 0x0c,
            R27::X0d => 0x0d,
            R27::X0e => 0x0e,
            R27::X0f => 0x0f,
            R27::X10 => 0x10,
            R27::X11 => 0x11,
            R27::X12 => 0x12,
            R27::X13 => 0x13,
            R27::X14 => 0x14,
            R27::X15 => 0x15,
            R27::X16 => 0x16,
            R27::X17 => 0x17,
            R27::X18 => 0x18,
            R27::X19 => 0x19,
            R27::X1a => 0x1a,
        }
    }
}

impl RangeIndex for R27 {
    open spec fn limit() -> nat {
        27
    }

    open spec fn from_nat(v: nat) -> Self {
        if v == 0 {
            R27::X00
        } else if v == 1 {
            R27::X01
        } else if v == 2 {
            R27::X02
        } else if v == 3 {
            R27::X03
        } else if v == 4 {
            R27::X04
        } else if v == 5 {
            R27::X05
        } else if v == 6 {
            R27::X06
        } else if v == 7 {
            R27::X07
        } else if v == 8 {
            R27::X08
        } else if v == 9 {
            R27::X09
        } else if v == 10 {
            R27::X0a
        } else if v == 11 {
            R27::X0b
        } else if v == 12 {
            R27::X0c
        } else if v == 13 {
            R27::X0d
        } else if v == 14 {
            R27::X0e
        } else if v == 15 {
            R27::X0f
        } else if v == 16 {
            R27::X10
        } else if v == 17 {
            R27::X11
        } else if v == 18 {
            R27::X12
        } else if v == 19 {
            R27::X13
        } else if v == 20 {
            R27::X14
        } else if v == 21 {
            R27::X15
        } else if v == 22 {
            R27::X16
        } else if v == 23 {
            R27::X17
        } else if v == 24 {
            R27::X18
        } else if v == 25 {
            R27::X19
        } else {
            R27::X1a
        }
    }

    proof fn lemma_domain() {
        assert(Self::limit() == 27);
    }

    proof fn lemma_from_nat(v: nat) {
    }

    proof fn lemma_view(self) {
    }

    fn cardinality() -> (m: usize) {
        27
    }

    fn into_usize(self) -> (r: usize) {
        self.value()
    }

    fn from_usize_unchecked(other: usize) -> (r: Self) {
        match other {
            0x00 => R27::X00,
            0x01 => R27::X01,
            0x02 => R27::X02,
            0x03 => R27::X03,
            0x04 => R27::X04,
            0x05 => R27::X05,
            0x06 => R27::X06,
            0x07 => R27::X07,
            0x08 => R27::X08,
            0x09 => R27::X09,
            0x0a => R27::X0a,
            0x0b => R27::X0b,
            0x0c => R27::X0c,
            0x0d => R27::X0d,
            0x0e => R27::X0e,
            0x0f => R27::X0f,
            0x10 => R27::X10,
            0x11 => R27::X11,
            0x12 => R27::X12,
            0x13 => R27::X13,
            0x14 => R27::X14,
            0x15 => R27::X15,
            0x16 => R27::X16,
            0x17 => R27::X17,
            0x18 => R27::X18,
            0x19 => R27::X19,
            _ => R27::X1a,
        }
    }
}

/// An index into 28 items. Each member is named by its index.
#[derive(Clone, Copy, PartialEq, Eq, Structural)]
pub enum R28 {
    X00,
    X01,
    X02,
    X03,
    X04,
    X05,
    X06,
    X07,
    X08,
    X09,
    X0a,
    X0b,
    X0c,
    X0d,
    X0e,
    X0f,
    X10,
    X11,
    X12,
    X13,
    X14,
    X15,
    X16,
    X17,
    X18,
    X19,
    X1a,
    X1b,
}

impl View for R28 {
    type V = nat;

    open spec fn view(&self) -> nat {
        match self {
            R28::X00 => 0,
            R28::X01 => 1,
            R28::X02 => 2,
            R28::X03 => 3,
            R28::X04 => 4,
            R28::X05 => 5,
            R28::X06 => 6,
            R28::X07 => 7,
            R28::X08 => 8,
            R28::X09 => 9,
            R28::X0a => 10,
            R28::X0b => 11,
            R28::X0c => 12,
            R28::X0d => 13,
            R28::X0e => 14,
            R28::X0f => 15,
            R28::X10 => 16,
            R28::X11 => 17,
            R28::X12 => 18,
            R28::X13 => 19,
            R28::X14 => 20,
            R28::X15 => 21,
            R28::X16 => 22,
            R28::X17 => 23,
            R28::X18 => 24,
            R28::X19 => 25,
            R28::X1a => 26,
            R28::X1b => 27,
        }
    }
}

impl R28 {
    /// The index held.
    pub fn value(&self) -> (r: usize)
        ensures
            r == self@,
            r < Self::limit(),
    {
        match self {
            R28::X00 => 0x00,
            R28::X01 => 0x01,
            R28::X02 => 0x02,
            R28::X03 => 0x03,
            R28::X04 => 0x04,
            R28::X05 => 0x05,
            R28::X06 => 0x06,
            R28::X07 => 0x07,
            R28::X08 => 0x08,
            R28::X09 => 0x09,
            R28::X0a => 0x0a,
            R28::X0b => 0x0b,
            R28::X0c => 0x0c,
            R28::X0d => 0x0d,
            R28::X0e => 0x0e,
            R28::X0f => 0x0f,
            R28::X10 => 0x10,
            R28::X11 => 0x11,
            R28::X12 => 0x12,
            R28::X13 => 0x13,
            R28::X14 => 0x14,
            R28::X15 => 0x15,
            R28::X16 => 0x16,
            R28::X17 => 0x17,
            R28::X18 => 0x18,
            R28::X19 => 0x19,
            R28::X1a => 0x1a,
            R28::X1b => 0x1b,
        }
    }
}

impl RangeIndex for R28 {
    open spec fn limit() -> nat {
        28
    }

    open spec fn from_nat(v: nat) -> Self {
        if v == 0 {
            R28::X00
        } else if v == 1 {
            R28::X01
        } else if v == 2 {
            R28::X02
        } else if v == 3 {
            R28::X03
        } else if v == 4 {
            R28::X04
        } else if v == 5 {
            R28::X05
        } else if v == 6 {
            R28::X06
        } else if v == 7 {
            R28::X07
        } else if v == 8 {
            R28::X08
        } else if v == 9 {
            R28::X09
        } else if v == 10 {
            R28::X0a
        } else if v == 11 {
            R28::X0b
        } else if v == 12 {
            R28::X0c
        } else if v == 13 {
            R28::X0d
        } else if v == 14 {
            R28::X0e
        } else if v == 15 {
            R28::X0f
        } else if v == 16 {
            R28::X10
        } else if v == 17 {
            R28::X11
        } else if v == 18 {
            R28::X12
        } else if v == 19 {
            R28::X13
        } else if v == 20 {
            R28::X14
        } else if v == 21 {
            R28::X15
        } else if v == 22 {
            R28::X16
        } else if v == 23 {
            R28::X17
        } else if v == 24 {
            R28::X18
        } else if v == 25 {
            R28::X19
        } else if v == 26 {
            R28::X1a
        } else {
            R28::X1b
        }
    }

    proof fn lemma_domain() {
        assert(Self::limit() == 28);
    }

    proof fn lemma_from_nat(v: nat) {
    }

    proof fn lemma_view(self) {
    }

    fn cardinality() -> (m: usize) {
        28
    }

    fn into_usize(self) -> (r: usize) {
        self.value()
    }

    fn from_usize_unchecked(other: usize) -> (r: Self) {
        match other {
            0x00 => R28::X00,
            0x01 => R28::X01,
            0x02 => R28::X02,
            0x03 => R28::X03,
            0x04 => R28::X04,
            0x05 => R28::X05,
            0x06 => R28::X06,
            0x07 => R28::X07,
            0x08 => R28::X08,
            0x09 => R28::X09,
            0x0a => R28::X0a,
            0x0b => R28::X0b,
            0x0c => R28::X0c,
            0x0d => R28::X0d,
            0x0e => R28::X0e,
            0x0f => R28::X0f,
            0x10 => R28::X10,
            0x11 => R28::X11,
            0x12 => R28::X12,
            0x13 => R28::X13,
            0x14 => R28::X14,
            0x15 => R28::X15,
            0x16 => R28::X16,
            0x17 => R28::X17,
            0x18 => R28::X18,
            0x19 => R28::X19,
            0x1a => R28::X1a,
            _ => R28::X1b,
        }
    }
}

/// An index into 29 items. Each member is named by its index.
#[derive(Clone, Copy, PartialEq, Eq, Structural)]
pub enum R29 {
    X00,
    X01,
    X02,
    X03,
    X04,
    X05,
    X06,
    X07,
    X08,
    X09,
    X0a,
    X0b,
    X0c,
    X0d,
    X0e,
    X0f,
    X10,
    X11,
    X12,
    X13,
    X14,
    X15,
    X16,
    X17,
    X18,
    X19,
    X1a,
    X1b,
    X1c,
}

impl View for R29 {
    type V = nat;

    open spec fn view(&self) -> nat {
        match self {
            R29::X00 => 0,
            R29::X01 => 1,
            R29::X02 => 2,
            R29::X03 => 3,
            R29::X04 => 4,
            R29::X05 => 5,
            R29::X06 => 6,
            R29::X07 => 7,
            R29::X08 => 8,
            R29::X09 => 9,
            R29::X0a => 10,
            R29::X0b => 11,
            R29::X0c => 12,
            R29::X0d => 13,
            R29::X0e => 14,
            R29::X0f => 15,
            R29::X10 => 16,
            R29::X11 => 17,
            R29::X12 => 18,
            R29::X13 => 19,
            R29::X14 => 20,
            R29::X15 => 21,
            R29::X16 => 22,
            R29::X17 => 23,
            R29::X18 => 24,
            R29::X19 => 25,
            R29::X1a => 26,
            R29::X1b => 27,
            R29::X1c => 28,
        }
    }
}

impl R29 {
    /// The index held.
    pub fn value(&self) -> (r: usize)
        ensures
            r == self@,
            r < Self::limit(),
    {
        match self {
            R29::X00 => 0x00,
            R29::X01 => 0x01,
            R29::X02 => 0x02,
            R29::X03 => 0x03,
            R29::X04 => 0x04,
            R29::X05 => 0x05,
            R29::X06 => 0x06,
            R29::X07 => 0x07,
            R29::X08 => 0x08,
            R29::X09 => 0x09,
            R29::X0a => 0x0a,
            R29::X0b => 0x0b,
            R29::X0c => 0x0c,
            R29::X0d => 0x0d,
            R29::X0e => 0x0e,
            R29::X0f => 0x0f,
            R29::X10 => 0x10,
            R29::X11 => 0x11,
            R29::X12 => 0x12,
            R29::X13 => 0x13,
            R29::X14 => 0x14,
            R29::X15 => 0x15,
            R29::X16 => 0x16,
            R29::X17 => 0x17,
            R29::X18 => 0x18,
            R29::X19 => 0x19,
            R29::X1a => 0x1a,
            R29::X1b => 0x1b,
            R29::X1c => 0x1c,
        }
    }
}

impl RangeIndex for R29 {
    open spec fn limit() -> nat {
        29
    }

    open spec fn from_nat(v: nat) -> Self {
        if v == 0 {
            R29::X00
        } else if v == 1 {
            R29::X01
        } else if v == 2 {
            R29::X02
        } else if v == 3 {
            R29::X03
        } else if v == 4 {
            R29::X04
        } else if v == 5 {
            R29::X05
        } else if v == 6 {
            R29::X06
        } else if v == 7 {
            R29::X07
        } else if v == 8 {
            R29::X08
        } else if v == 9 {
            R29::X09
        } else if v == 10 {
            R29::X0a
        } else if v == 11 {
            R29::X0b
        } else if v == 12 {
            R29::X0c
        } else if v == 13 {
            R29::X0d
        } else if v == 14 {
            R29::X0e
        } else if v == 15 {
            R29::X0f
        } else if v == 16 {
            R29::X10
        } else if v == 17 {
            R29::X11
        } else if v == 18 {
            R29::X12
        } else if v == 19 {
            R29::X13
        } else if v == 20 {
            R29::X14
        } else if v == 21 {
            R29::X15
        } else if v == 22 {
            R29::X16
        } else if v == 23 {
            R29::X17
        } else if v == 24 {
            R29::X18
        } else if v == 25 {
            R29::X19
        } else if v == 26 {
            R29::X1a
        } else if v == 27 {
            R29::X1b
        } else {
            R29::X1c
        }
    }

    proof fn lemma_domain() {
        assert(Self::limit() == 29);
    }

    proof fn lemma_from_nat(v: nat) {
    }

    proof fn lemma_view(self) {
    }

    fn cardinality() -> (m: usize) {
        29
    }

    fn into_usize(self) -> (r: usize) {
        self.value()
    }

    fn from_usize_unchecked(other: usize) -> (r: Self) {
        match other {
            0x00 => R29::X00,
            0x01 => R29::X01,
            0x02 => R29::X02,
            0x03 => R29::X03,
            0x04 => R29::X04,
            0x05 => R29::X05,
            0x06 => R29::X06,
            0x07 => R29::X07,
            0x08 => R29::X08,
            0x09 => R29::X09,
            0x0a => R29::X0a,
            0x0b => R29::X0b,
            0x0c => R29::X0c,
            0x0d => R29::X0d,
            0x0e => R29::X0e,
            0x0f => R29::X0f,
            0x10 => R29::X10,
            0x11 => R29::X11,
            0x12 => R29::X12,
            0x13 => R29::X13,
            0x14 => R29::X14,
            0x15 => R29::X15,
            0x16 => R29::X16,
            0x17 => R29::X17,
            0x18 => R29::X18,
            0x19 => R29::X19,
            0x1a => R29::X1a,
            0x1b => R29::X1b,
            _ => R29::X1c,
        }
    }
}

/// An index into 30 items. Each member is named by its index.
#[derive(Clone, Copy, PartialEq, Eq, Structural)]
pub enum R30 {
    X00,
    X01,
    X02,
    X03,
    X04,
    X05,
    X06,
    X07,
    X08,
    X09,
    X0a,
    X0b,
    X0c,
    X0d,
    X0e,
    X0f,
    X10,
    X11,
    X12,
    X13,
    X14,
    X15,
    X16,
    X17,
    X18,
    X19,
    X1a,
    X1b,
    X1c,
    X1d,
}

impl View for R30 {
    type V = nat;

    open spec fn view(&self) -> nat {
        match self {
            R30::X00 => 0,
            R30::X01 => 1,
            R30::X02 => 2,
            R30::X03 => 3,
            R30::X04 => 4,
            R30::X05 => 5,
            R30::X06 => 6,
            R30::X07 => 7,
            R30::X08 => 8,
            R30::X09 => 9,
            R30::X0a => 10,
            R30::X0b => 11,
            R30::X0c => 12,
            R30::X0d => 13,
            R30::X0e => 14,
            R30::X0f => 15,
            R30::X10 => 16,
            R30::X11 => 17,
            R30::X12 => 18,
            R30::X13 => 19,
            R30::X14 => 20,
            R30::X15 => 21,
            R30::X16 => 22,
            R30::X17 => 23,
            R30::X18 => 24,
            R30::X19 => 25,
            R30::X1a => 26,
            R30::X1b => 27,
            R30::X1c => 28,
            R30::X1d => 29,
        }
    }
}

impl R30 {
    /// The index held.
    pub fn value(&self) -> (r: usize)
        ensures
            r == self@,
            r < Self::limit(),
    {
        match self {
            R30::X00 => 0x00,
            R30::X01 => 0x01,
            R30::X02 => 0x02,
            R30::X03 => 0x03,
            R30::X04 => 0x04,
            R30::X05 => 0x05,
            R30::X06 => 0x06,
            R30::X07 => 0x07,
            R30::X08 => 0x08,
            R30::X09 => 0x09,
            R30::X0a => 0x0a,
            R30::X0b => 0x0b,
            R30::X0c => 0x0c,
            R30::X0d => 0x0d,
            R30::X0e => 0x0e,
            R30::X0f => 0x0f,
            R30::X10 => 0x10,
            R30::X11 => 0x11,
            R30::X12 => 0x12,
            R30::X13 => 0x13,
            R30::X14 => 0x14,
            R30::X15 => 0x15,
            R30::X16 => 0x16,
            R30::X17 => 0x17,
            R30::X18 => 0x18,
            R30::X19 => 0x19,
            R30::X1a => 0x1a,
            R30::X1b => 0x1b,
            R30::X1c => 0x1c,
            R30::X1d => 0x1d,
        }
    }
}

impl RangeIndex for R30 {
    open spec fn limit() -> nat {
        30
    }

    open spec fn from_nat(v: nat) -> Self {
        if v == 0 {
            R30::X00
        } else if v == 1 {
            R30::X01
        } else if v == 2 {
            R30::X02
        } else if v == 3 {
            R30::X03
        } else if v == 4 {
            R30::X04
        } else if v == 5 {
            R30::X05
        } else if v == 6 {
            R30::X06
        } else if v == 7 {
            R30::X07
        } else if v == 8 {
            R30::X08
        } else if v == 9 {
            R30::X09
        } else if v == 10 {
            R30::X0a
        } else if v == 11 {
            R30::X0b
        } else if v == 12 {
            R30::X0c
        } else if v == 13 {
            R30::X0d
        } else if v == 14 {
            R30::X0e
        } else if v == 15 {
            R30::X0f
        } else if v == 16 {
            R30::X10
        } else if v == 17 {
            R30::X11
        } else if v == 18 {
            R30::X12
        } else if v == 19 {
            R30::X13
        } else if v == 20 {
            R30::X14
        } else if v == 21 {
            R30::X15
        } else if v == 22 {
            R30::X16
        } else if v == 23 {
            R30::X17
        } else if v == 24 {
            R30::X18
        } else if v == 25 {
            R30::X19
        } else if v == 26 {
            R30::X1a
        } else if v == 27 {
            R30::X1b
        } else if v == 28 {
            R30::X1c
        } else {
            R30::X1d
        }
    }

    proof fn lemma_domain() {
        assert(Self::limit() == 30);
    }

    proof fn lemma_from_nat(v: nat) {
    }

    proof fn lemma_view(self) {
    }

    fn cardinality() -> (m: usize) {
        30
    }

    fn into_usize(self) -> (r: usize) {
        self.value()
    }

    fn from_usize_unchecked(other: usize) -> (r: Self) {
        match other {
            0x00 => R30::X00,
            0x01 => R30::X01,
            0x02 => R30::X02,
            0x03 => R30::X03,
            0x04 => R30::X04,
            0x05 => R30::X05,
            0x06 => R30::X06,
            0x07 => R30::X07,
            0x08 => R30::X08,
            0x09 => R30::X09,
            0x0a => R30::X0a,
            0x0b => R30::X0b,
            0x0c => R30::X0c,
            0x0d => R30::X0d,
            0x0e => R30::X0e,
            0x0f => R30::X0f,
            0x10 => R30::X10,
            0x11 => R30::X11,
            0x12 => R30::X12,
            0x13 => R30::X13,
            0x14 => R30::X14,
            0x15 => R30::X15,
            0x16 => R30::X16,
            0x17 => R30::X17,
            0x18 => R30::X18,
            0x19 => R30::X19,
            0x1a => R30::X1a,
            0x1b => R30::X1b,
            0x1c => R30::X1c,
            _ => R30::X1d,
        }
    }
}

/// An index into 31 items. Each member is named by its index.
#[derive(Clone, Copy, PartialEq, Eq, Structural)]
pub enum R31 {
    X00,
    X01,
    X02,
    X03,
    X04,
    X05,
    X06,
    X07,
    X08,
    X09,
    X0a,
    X0b,
    X0c,
    X0d,
    X0e,
    X0f,
    X10,
    X11,
    X12,
    X13,
    X14,
    X15,
    X16,
    X17,
    X18,
    X19,
    X1a,
    X1b,
    X1c,
    X1d,
    X1e,
}

impl View for R31 {
    type V = nat;

    open spec fn view(&self) -> nat {
        match self {
            R31::X00 => 0,
            R31::X01 => 1,
            R31::X02 => 2,
            R31::X03 => 3,
            R31::X04 => 4,
            R31::X05 => 5,
            R31::X06 => 6,
            R31::X07 => 7,
            R31::X08 => 8,
            R31::X09 => 9,
            R31::X0a => 10,
            R31::X0b => 11,
            R31::X0c => 12,
            R31::X0d => 13,
            R31::X0e => 14,
            R31::X0f => 15,
            R31::X10 => 16,
            R31::X11 => 17,
            R31::X12 => 18,
            R31::X13 => 19,
            R31::X14 => 20,
            R31::X15 => 21,
            R31::X16 => 22,
            R31::X17 => 23,
            R31::X18 => 24,
            R31::X19 => 25,
            R31::X1a => 26,
            R31::X1b => 27,
            R31::X1c => 28,
            R31::X1d => 29,
            R31::X1e => 30,
        }
    }
}

impl R31 {
    /// The index held.
    pub fn value(&self) -> (r: usize)
        ensures
            r == self@,
            r < Self::limit(),
    {
        match self {
            R31::X00 => 0x00,
            R31::X01 => 0x01,
            R31::X02 => 0x02,
            R31::X03 => 0x03,
            R31::X04 => 0x04,
            R31::X05 => 0x05,
            R31::X06 => 0x06,
            R31::X07 => 0x07,
            R31::X08 => 0x08,
            R31::X09 => 0x09,
            R31::X0a => 0x0a,
            R31::X0b => 0x0b,
            R31::X0c => 0x0c,
            R31::X0d => 0x0d,
            R31::X0e => 0x0e,
            R31::X0f => 0x0f,
            R31::X10 => 0x10,
            R31::X11 => 0x11,
            R31::X12 => 0x12,
            R31::X13 => 0x13,
            R31::X14 => 0x14,
            R31::X15 => 0x15,
            R31::X16 => 0x16,
            R31::X17 => 0x17,
            R31::X18 => 0x18,
            R31::X19 => 0x19,
            R31::X1a => 0x1a,
            R31::X1b => 0x1b,
            R31::X1c => 0x1c,
            R31::X1d => 0x1d,
            R31::X1e => 0x1e,
        }
    }
}

impl RangeIndex for R31 {
    open spec fn limit() -> nat {
        31
    }

    open spec fn from_nat(v: nat) -> Self {
        if v == 0 {
            R31::X00
        } else if v == 1 {
            R31::X01
        } else if v == 2 {
            R31::X02
        } else if v == 3 {
            R31::X03
        } else if v == 4 {
            R31::X04
        } else if v == 5 {
            R31::X05
        } else if v == 6 {
            R31::X06
        } else if v == 7 {
            R31::X07
        } else if v == 8 {
            R31::X08
        } else if v == 9 {
            R31::X09
        } else if v == 10 {
            R31::X0a
        } else if v == 11 {
            R31::X0b
        } else if v == 12 {
            R31::X0c
        } else if v == 13 {
            R31::X0d
        } else if v == 14 {
            R31::X0e
        } else if v == 15 {
            R31::X0f
        } else if v == 16 {
            R31::X10
        } else if v == 17 {
            R31::X11
        } else if v == 18 {
            R31::X12
        } else if v == 19 {
            R31::X13
        } else if v == 20 {
            R31::X14
        } else if v == 21 {
            R31::X15
        } else if v == 22 {
            R31::X16
        } else if v == 23 {
            R31::X17
        } else if v == 24 {
            R31::X18
        } else if v == 25 {
            R31::X19
        } else if v == 26 {
            R31::X1a
        } else if v == 27 {
            R31::X1b
        } else if v == 28 {
            R31::X1c
        } else if v == 29 {
            R31::X1d
        } else {
            R31::X1e
        }
    }

    proof fn lemma_domain() {
        assert(Self::limit() == 31);
    }

    proof fn lemma_from_nat(v: nat) {
    }

    proof fn lemma_view(self) {
    }

    fn cardinality() -> (m: usize) {
        31
    }

    fn into_usize(self) -> (r: usize) {
        self.value()
    }

    fn from_usize_unchecked(other: usize) -> (r: Self) {
        match other {
            0x00 => R31::X00,
            0x01 => R31::X01,
            0x02 => R31::X02,
            0x03 => R31::X03,
            0x04 => R31::X04,
            0x05 => R31::X05,
            0x06 => R31::X06,
            0x07 => R31::X07,
            0x08 => R31::X08,
            0x09 => R31::X09,
            0x0a => R31::X0a,
            0x0b => R31::X0b,
            0x0c => R31::X0c,
            0x0d => R31::X0d,
            0x0e => R31::X0e,
            0x0f => R31::X0f,
            0x10 => R31::X10,
            0x11 => R31::X11,
            0x12 => R31::X12,
            0x13 => R31::X13,
            0x14 => R31::X14,
            0x15 => R31::X15,
            0x16 => R31::X16,
            0x17 => R31::X17,
            0x18 => R31::X18,
            0x19 => R31::X19,
            0x1a => R31::X1a,
            0x1b => R31::X1b,
            0x1c => R31::X1c,
            0x1d => R31::X1d,
            _ => R31::X1e,
        }
    }
}

/// An index into 32 items. Each member is named by its index.
#[derive(Clone, Copy, PartialEq, Eq, Structural)]
pub enum R32 {
    X00,
    X01,
    X02,
    X03,
    X04,
    X05,
    X06,
    X07,
    X08,
    X09,
    X0a,
    X0b,
    X0c,
    X0d,
    X0e,
    X0f,
    X10,
    X11,
    X12,
    X13,
    X14,
    X15,
    X16,
    X17,
    X18,
    X19,
    X1a,
    X1b,
    X1c,
    X1d,
    X1e,
    X1f,
}

impl View for R32 {
    type V = nat;

    open spec fn view(&self) -> nat {
        match self {
            R32::X00 => 0,
            R32::X01 => 1,
            R32::X02 => 2,
            R32::X03 => 3,
            R32::X04 => 4,
            R32::X05 => 5,
            R32::X06 => 6,
            R32::X07 => 7,
            R32::X08 => 8,
            R32::X09 => 9,
            R32::X0a => 10,
            R32::X0b => 11,
            R32::X0c => 12,
            R32::X0d => 13,
            R32::X0e => 14,
            R32::X0f => 15,
            R32::X10 => 16,
            R32::X11 => 17,
            R32::X12 => 18,
            R32::X13 => 19,
            R32::X14 => 20,
            R32::X15 => 21,
            R32::X16 => 22,
            R32::X17 => 23,
            R32::X18 => 24,
            R32::X19 => 25,
            R32::X1a => 26,
            R32::X1b => 27,
            R32::X1c => 28,
            R32::X1d => 29,
            R32::X1e => 30,
            R32::X1f => 31,
        }
    }
}

impl R32 {
    /// The index held.
    pub fn value(&self) -> (r: usize)
        ensures
            r == self@,
            r < Self::limit(),
    {
        match self {
            R32::X00 => 0x00,
            R32::X01 => 0x01,
            R32::X02 => 0x02,
            R32::X03 => 0x03,
            R32::X04 => 0x04,
            R32::X05 => 0x05,
            R32::X06 => 0x06,
            R32::X07 => 0x07,
            R32::X08 => 0x08,
            R32::X09 => 0x09,
            R32::X0a => 0x0a,
            R32::X0b => 0x0b,
            R32::X0c => 0x0c,
            R32::X0d => 0x0d,
            R32::X0e => 0x0e,
            R32::X0f => 0x0f,
            R32::X10 => 0x10,
            R32::X11 => 0x11,
            R32::X12 => 0x12,
            R32::X13 => 0x13,
            R32::X14 => 0x14,
            R32::X15 => 0x15,
            R32::X16 => 0x16,
            R32::X17 => 0x17,
            R32::X18 => 0x18,
            R32::X19 => 0x19,
            R32::X1a => 0x1a,
            R32::X1b => 0x1b,
            R32::X1c => 0x1c,
            R32::X1d => 0x1d,
            R32::X1e => 0x1e,
            R32::X1f => 0x1f,
        }
    }
}

impl RangeIndex for R32 {
    open spec fn limit() -> nat {
        32
    }

    open spec fn from_nat(v: nat) -> Self {
        if v == 0 {
            R32::X00
        } else if v == 1 {
            R32::X01
        } else if v == 2 {
            R32::X02
        } else if v == 3 {
            R32::X03
        } else if v == 4 {
            R32::X04
        } else if v == 5 {
            R32::X05
        } else if v == 6 {
            R32::X06
        } else if v == 7 {
            R32::X07
        } else if v == 8 {
            R32::X08
        } else if v == 9 {
            R32::X09
        } else if v == 10 {
            R32::X0a
        } else if v == 11 {
            R32::X0b
        } else if v == 12 {
            R32::X0c
        } else if v == 13 {
            R32::X0d
        } else if v == 14 {
            R32::X0e
        } else if v == 15 {
            R32::X0f
        } else if v == 16 {
            R32::X10
        } else if v == 17 {
            R32::X11
        } else if v == 18 {
            R32::X12
        } else if v == 19 {
            R32::X13
        } else if v == 20 {
            R32::X14
        } else if v == 21 {
            R32::X15
        } else if v == 22 {
            R32::X16
        } else if v == 23 {
            R32::X17
        } else if v == 24 {
            R32::X18
        } else if v == 25 {
            R32::X19
        } else if v == 26 {
            R32::X1a
        } else if v == 27 {
            R32::X1b
        } else if v == 28 {
            R32::X1c
        } else if v == 29 {
            R32::X1d
        } else if v == 30 {
            R32::X1e
        } else {
            R32::X1f
        }
    }

    proof fn lemma_domain() {
        assert(Self::limit() == 32);
    }

    proof fn lemma_from_nat(v: nat) {
    }

    proof fn lemma_view(self) {
    }

    fn cardinality() -> (m: usize) {
        32
    }

    fn into_usize(self) -> (r: usize) {
        self.value()
    }

    fn from_usize_unchecked(other: usize) -> (r: Self) {
        match other {
            0x00 => R32::X00,
            0x01 => R32::X01,
            0x02 => R32::X02,
            0x03 => R32::X03,
            0x04 => R32::X04,
            0x05 => R32::X05,
            0x06 => R32::X06,
            0x07 => R32::X07,
            0x08 => R32::X08,
            0x09 => R32::X09,
            0x0a => R32::X0a,
            0x0b => R32::X0b,
            0x0c => R32::X0c,
            0x0d => R32::X0d,
            0x0e => R32::X0e,
            0x0f => R32::X0f,
            0x10 => R32::X10,
            0x11 => R32::X11,
            0x12 => R32::X12,
            0x13 => R32::X13,
            0x14 => R32::X14,
            0x15 => R32::X15,
            0x16 => R32::X16,
            0x17 => R32::X17,
            0x18 => R32::X18,
            0x19 => R32::X19,
            0x1a => R32::X1a,
            0x1b => R32::X1b,
            0x1c => R32::X1c,
            0x1d => R32::X1d,
            0x1e => R32::X1e,
            _ => R32::X1f,
        }
    }
}

} // verus!
