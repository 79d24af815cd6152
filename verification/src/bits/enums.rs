//! The bit widths 1 to 6: one member for each bit pattern, so that a `match`
//! over a value needs no fallback arm.

use crate::bits::BitField;
use vstd::arithmetic::power2::{lemma2_to64, pow2};
use vstd::prelude::*;

verus! {

/// An integer of 1 bit. Each member is named by its bit pattern.
#[derive(Clone, Copy, PartialEq, Eq, Structural)]
pub enum U1 {
    B0,
    B1,
}

impl View for U1 {
    type V = nat;

    open spec fn view(&self) -> nat {
        match self {
            U1::B0 => 0,
            U1::B1 => 1,
        }
    }
}

impl U1 {
    /// The number held, in the type that backs it.
    pub fn value(&self) -> (r: u8)
        ensures
            r == self@,
            r < Self::limit(),
    {
        match self {
            U1::B0 => 0b0,
            U1::B1 => 0b1,
        }
    }

    /// The number held, as a `u8`.
    pub fn into_u8(self) -> (r: u8)
        ensures
            r == self@,
    {
        self.value()
    }

    /// The number held, as a `u16`.
    pub fn into_u16(self) -> (r: u16)
        ensures
            r == self@,
    {
        self.value() as u16
    }

    /// The number held, as an `i32`.
    pub fn into_i32(self) -> (r: i32)
        ensures
            r == self@,
    {
        self.value() as i32
    }
}

impl BitField for U1 {
    open spec fn width() -> nat {
        1
    }

    open spec fn limit() -> nat {
        2
    }

    open spec fn from_nat(v: nat) -> Self {
        if v == 0 {
            U1::B0
        } else {
            U1::B1
        }
    }

    proof fn lemma_domain() {
        lemma2_to64();
        assert(Self::limit() == pow2(Self::width()));
    }

    proof fn lemma_from_nat(v: nat) {
    }

    proof fn lemma_view(self) {
    }

    fn bit_width() -> (w: u32) {
        1
    }

    fn into_u32(self) -> (r: u32) {
        self.value() as u32
    }

    fn from_u32_unchecked(other: u32) -> (r: Self) {
        match other {
            0b0 => U1::B0,
            _ => U1::B1,
        }
    }
}

/// An integer of 2 bits. Each member is named by its bit pattern.
#[derive(Clone, Copy, PartialEq, Eq, Structural)]
pub enum U2 {
    B00,
    B01,
    B10,
    B11,
}

impl View for U2 {
    type V = nat;

    open spec fn view(&self) -> nat {
        match self {
            U2::B00 => 0,
            U2::B01 => 1,
            U2::B10 => 2,
            U2::B11 => 3,
        }
    }
}

impl U2 {
    /// The number held, in the type that backs it.
    pub fn value(&self) -> (r: u8)
        ensures
            r == self@,
            r < Self::limit(),
    {
        match self {
            U2::B00 => 0b00,
            U2::B01 => 0b01,
            U2::B10 => 0b10,
            U2::B11 => 0b11,
        }
    }

    /// The number held, as a `u8`.
    pub fn into_u8(self) -> (r: u8)
        ensures
            r == self@,
    {
        self.value()
    }

    /// The number held, as a `u16`.
    pub fn into_u16(self) -> (r: u16)
        ensures
            r == self@,
    {
        self.value() as u16
    }

    /// The number held, as an `i32`.
    pub fn into_i32(self) -> (r: i32)
        ensures
            r == self@,
    {
        self.value() as i32
    }
}

impl BitField for U2 {
    open spec fn width() -> nat {
        2
    }

    open spec fn limit() -> nat {
        4
    }

    open spec fn from_nat(v: nat) -> Self {
        if v == 0 {
            U2::B00
        } else if v == 1 {
            U2::B01
        } else if v == 2 {
            U2::B10
        } else {
            U2::B11
        }
    }

    proof fn lemma_domain() {
        lemma2_to64();
        assert(Self::limit() == pow2(Self::width()));
    }

    proof fn lemma_from_nat(v: nat) {
    }

    proof fn lemma_view(self) {
    }

    fn bit_width() -> (w: u32) {
        2
    }

    fn into_u32(self) -> (r: u32) {
        self.value() as u32
    }

    fn from_u32_unchecked(other: u32) -> (r: Self) {
        match other {
            0b00 => U2::B00,
            0b01 => U2::B01,
            0b10 => U2::B10,
            _ => U2::B11,
        }
    }
}

/// An integer of 3 bits. Each member is named by its bit pattern.
#[derive(Clone, Copy, PartialEq, Eq, Structural)]
pub enum U3 {
    B000,
    B001,
    B010,
    B011,
    B100,
    B101,
    B110,
    B111,
}

impl View for U3 {
    type V = nat;

    open spec fn view(&self) -> nat {
        match self {
            U3::B000 => 0,
            U3::B001 => 1,
            U3::B010 => 2,
            U3::B011 => 3,
            U3::B100 => 4,
            U3::B101 => 5,
            U3::B110 => 6,
            U3::B111 => 7,
        }
    }
}

impl U3 {
    /// The number held, in the type that backs it.
    pub fn value(&self) -> (r: u8)
        ensures
            r == self@,
            r < Self::limit(),
    {
        match self {
            U3::B000 => 0b000,
            U3::B001 => 0b001,
            U3::B010 => 0b010,
            U3::B011 => 0b011,
            U3::B100 => 0b100,
            U3::B101 => 0b101,
            U3::B110 => 0b110,
            U3::B111 => 0b111,
        }
    }

    /// The number held, as a `u8`.
    pub fn into_u8(self) -> (r: u8)
        ensures
            r == self@,
    {
        self.value()
    }

    /// The number held, as a `u16`.
    pub fn into_u16(self) -> (r: u16)
        ensures
            r == self@,
    {
        self.value() as u16
    }

    /// The number held, as an `i32`.
    pub fn into_i32(self) -> (r: i32)
        ensures
            r == self@,
    {
        self.value() as i32
    }
}

impl BitField for U3 {
    open spec fn width() -> nat {
        3
    }

    open spec fn limit() -> nat {
        8
    }

    open spec fn from_nat(v: nat) -> Self {
        if v == 0 {
            U3::B000
        } else if v == 1 {
            U3::B001
        } else if v == 2 {
            U3::B010
        } else if v == 3 {
            U3::B011
        } else if v == 4 {
            U3::B100
        } else if v == 5 {
            U3::B101
        } else if v == 6 {
            U3::B110
        } else {
            U3::B111
        }
    }

    proof fn lemma_domain() {
        lemma2_to64();
        assert(Self::limit() == pow2(Self::width()));
    }

    proof fn lemma_from_nat(v: nat) {
    }

    proof fn lemma_view(self) {
    }

    fn bit_width() -> (w: u32) {
        3
    }

    fn into_u32(self) -> (r: u32) {
        self.value() as u32
    }

    fn from_u32_unchecked(other: u32) -> (r: Self) {
        match other {
            0b000 => U3::B000,
            0b001 => U3::B001,
            0b010 => U3::B010,
            0b011 => U3::B011,
            0b100 => U3::B100,
            0b101 => U3::B101,
            0b110 => U3::B110,
            _ => U3::B111,
        }
    }
}

/// An integer of 4 bits. Each member is named by its bit pattern.
#[derive(Clone, Copy, PartialEq, Eq, Structural)]
pub enum U4 {
    B0000,
    B0001,
    B0010,
    B0011,
    B0100,
    B0101,
    B0110,
    B0111,
    B1000,
    B1001,
    B1010,
    B1011,
    B1100,
    B1101,
    B1110,
    B1111,
}

impl View for U4 {
    type V = nat;

    open spec fn view(&self) -> nat {
        match self {
            U4::B0000 => 0,
            U4::B0001 => 1,
            U4::B0010 => 2,
            U4::B0011 => 3,
            U4::B0100 => 4,
            U4::B0101 => 5,
            U4::B0110 => 6,
            U4::B0111 => 7,
            U4::B1000 => 8,
            U4::B1001 => 9,
            U4::B1010 => 10,
            U4::B1011 => 11,
            U4::B1100 => 12,
            U4::B1101 => 13,
            U4::B1110 => 14,
            U4::B1111 => 15,
        }
    }
}

impl U4 {
    /// The number held, in the type that backs it.
    pub fn value(&self) -> (r: u8)
        ensures
            r == self@,
            r < Self::limit(),
    {
        match self {
            U4::B0000 => 0b0000,
            U4::B0001 => 0b0001,
            U4::B0010 => 0b0010,
            U4::B0011 => 0b0011,
            U4::B0100 => 0b0100,
            U4::B0101 => 0b0101,
            U4::B0110 => 0b0110,
            U4::B0111 => 0b0111,
            U4::B1000 => 0b1000,
            U4::B1001 => 0b1001,
            U4::B1010 => 0b1010,
            U4::B1011 => 0b1011,
            U4::B1100 => 0b1100,
            U4::B1101 => 0b1101,
            U4::B1110 => 0b1110,
            U4::B1111 => 0b1111,
        }
    }

    /// The number held, as a `u8`.
    pub fn into_u8(self) -> (r: u8)
        ensures
            r == self@,
    {
        self.value()
    }

    /// The number held, as a `u16`.
    pub fn into_u16(self) -> (r: u16)
        ensures
            r == self@,
    {
        self.value() as u16
    }

    /// The number held, as an `i32`.
    pub fn into_i32(self) -> (r: i32)
        ensures
            r == self@,
    {
        self.value() as i32
    }
}

impl BitField for U4 {
    open spec fn width() -> nat {
        4
    }

    open spec fn limit() -> nat {
        16
    }

    open spec fn from_nat(v: nat) -> Self {
        if v == 0 {
            U4::B0000
        } else if v == 1 {
            U4::B0001
        } else if v == 2 {
            U4::B0010
        } else if v == 3 {
            U4::B0011
        } else if v == 4 {
            U4::B0100
        } else if v == 5 {
            U4::B0101
        } else if v == 6 {
            U4::B0110
        } else if v == 7 {
            U4::B0111
        } else if v == 8 {
            U4::B1000
        } else if v == 9 {
            U4::B1001
        } else if v == 10 {
            U4::B1010
        } else if v == 11 {
            U4::B1011
        } else if v == 12 {
            U4::B1100
        } else if v == 13 {
            U4::B1101
        } else if v == 14 {
            U4::B1110
        } else {
            U4::B1111
        }
    }

    proof fn lemma_domain() {
        lemma2_to64();
        assert(Self::limit() == pow2(Self::width()));
    }

    proof fn lemma_from_nat(v: nat) {
    }

    proof fn lemma_view(self) {
    }

    fn bit_width() -> (w: u32) {
        4
    }

    fn into_u32(self) -> (r: u32) {
        self.value() as u32
    }

    fn from_u32_unchecked(other: u32) -> (r: Self) {
        match other {
            0b0000 => U4::B0000,
            0b0001 => U4::B0001,
            0b0010 => U4::B0010,
            0b0011 => U4::B0011,
            0b0100 => U4::B0100,
            0b0101 => U4::B0101,
            0b0110 => U4::B0110,
            0b0111 => U4::B0111,
            0b1000 => U4::B1000,
            0b1001 => U4::B1001,
            0b1010 => U4::B1010,
            0b1011 => U4::B1011,
            0b1100 => U4::B1100,
            0b1101 => U4::B1101,
            0b1110 => U4::B1110,
            _ => U4::B1111,
        }
    }
}

/// An integer of 5 bits. Each member is named by its bit pattern.
#[derive(Clone, Copy, PartialEq, Eq, Structural)]
pub enum U5 {
    B00000,
    B00001,
    B00010,
    B00011,
    B00100,
    B00101,
    B00110,
    B00111,
    B01000,
    B01001,
    B01010,
    B01011,
    B01100,
    B01101,
    B01110,
    B01111,
    B10000,
    B10001,
    B10010,
    B10011,
    B10100,
    B10101,
    B10110,
    B10111,
    B11000,
    B11001,
    B11010,
    B11011,
    B11100,
    B11101,
    B11110,
    B11111,
}

impl View for U5 {
    type V = nat;

    open spec fn view(&self) -> nat {
        match self {
            U5::B00000 => 0,
            U5::B00001 => 1,
            U5::B00010 => 2,
            U5::B00011 => 3,
            U5::B00100 => 4,
            U5::B00101 => 5,
            U5::B00110 => 6,
            U5::B00111 => 7,
            U5::B01000 => 8,
            U5::B01001 => 9,
            U5::B01010 => 10,
            U5::B01011 => 11,
            U5::B01100 => 12,
            U5::B01101 => 13,
            U5::B01110 => 14,
            U5::B01111 => 15,
            U5::B10000 => 16,
            U5::B10001 => 17,
            U5::B10010 => 18,
            U5::B10011 => 19,
            U5::B10100 => 20,
            U5::B10101 => 21,
            U5::B10110 => 22,
            U5::B10111 => 23,
            U5::B11000 => 24,
            U5::B11001 => 25,
            U5::B11010 => 26,
            U5::B11011 => 27,
            U5::B11100 => 28,
            U5::B11101 => 29,
            U5::B11110 => 30,
            U5::B11111 => 31,
        }
    }
}

impl U5 {
    /// The number held, in the type that backs it.
    pub fn value(&self) -> (r: u8)
        ensures
            r == self@,
            r < Self::limit(),
    {
        match self {
            U5::B00000 => 0b00000,
            U5::B00001 => 0b00001,
            U5::B00010 => 0b00010,
            U5::B00011 => 0b00011,
            U5::B00100 => 0b00100,
            U5::B00101 => 0b00101,
            U5::B00110 => 0b00110,
            U5::B00111 => 0b00111,
            U5::B01000 => 0b01000,
            U5::B01001 => 0b01001,
            U5::B01010 => 0b01010,
            U5::B01011 => 0b01011,
            U5::B01100 => 0b01100,
            U5::B01101 => 0b01101,
            U5::B01110 => 0b01110,
            U5::B01111 => 0b01111,
            U5::B10000 => 0b10000,
            U5::B10001 => 0b10001,
            U5::B10010 => 0b10010,
            U5::B10011 => 0b10011,
            U5::B10100 => 0b10100,
            U5::B10101 => 0b10101,
            U5::B10110 => 0b10110,
            U5::B10111 => 0b10111,
            U5::B11000 => 0b11000,
            U5::B11001 => 0b11001,
            U5::B11010 => 0b11010,
            U5::B11011 => 0b11011,
            U5::B11100 => 0b11100,
            U5::B11101 => 0b11101,
            U5::B11110 => 0b11110,
            U5::B11111 => 0b11111,
        }
    }

    /// The number held, as a `u8`.
    pub fn into_u8(self) -> (r: u8)
        ensures
            r == self@,
    {
        self.value()
    }

    /// The number held, as a `u16`.
    pub fn into_u16(self) -> (r: u16)
        ensures
            r == self@,
    {
        self.value() as u16
    }

    /// The number held, as an `i32`.
    pub fn into_i32(self) -> (r: i32)
        ensures
            r == self@,
    {
        self.value() as i32
    }
}

impl BitField for U5 {
    open spec fn width() -> nat {
        5
    }

    open spec fn limit() -> nat {
        32
    }

    open spec fn from_nat(v: nat) -> Self {
        if v == 0 {
            U5::B00000
        } else if v == 1 {
            U5::B00001
        } else if v == 2 {
            U5::B00010
        } else if v == 3 {
            U5::B00011
        } else if v == 4 {
            U5::B00100
        } else if v == 5 {
            U5::B00101
        } else if v == 6 {
            U5::B00110
        } else if v == 7 {
            U5::B00111
        } else if v == 8 {
            U5::B01000
        } else if v == 9 {
            U5::B01001
        } else if v == 10 {
            U5::B01010
        } else if v == 11 {
            U5::B01011
        } else if v == 12 {
            U5::B01100
        } else if v == 13 {
            U5::B01101
        } else if v == 14 {
            U5::B01110
        } else if v == 15 {
            U5::B01111
        } else if v == 16 {
            U5::B10000
        } else if v == 17 {
            U5::B10001
        } else if v == 18 {
            U5::B10010
        } else if v == 19 {
            U5::B10011
        } else if v == 20 {
            U5::B10100
        } else if v == 21 {
            U5::B10101
        } else if v == 22 {
            U5::B10110
        } else if v == 23 {
            U5::B10111
        } else if v == 24 {
            U5::B11000
        } else if v == 25 {
            U5::B11001
        } else if v == 26 {
            U5::B11010
        } else if v == 27 {
            U5::B11011
        } else if v == 28 {
            U5::B11100
        } else if v == 29 {
            U5::B11101
        } else if v == 30 {
            U5::B11110
        } else {
            U5::B11111
        }
    }

    proof fn lemma_domain() {
        lemma2_to64();
        assert(Self::limit() == pow2(Self::width()));
    }

    proof fn lemma_from_nat(v: nat) {
    }

    proof fn lemma_view(self) {
    }

    fn bit_width() -> (w: u32) {
        5
    }

    fn into_u32(self) -> (r: u32) {
        self.value() as u32
    }

    fn from_u32_unchecked(other: u32) -> (r: Self) {
        match other {
            0b00000 => U5::B00000,
            0b00001 => U5::B00001,
            0b00010 => U5::B00010,
            0b00011 => U5::B00011,
            0b00100 => U5::B00100,
            0b00101 => U5::B00101,
            0b00110 => U5::B00110,
            0b00111 => U5::B00111,
            0b01000 => U5::B01000,
            0b01001 => U5::B01001,
            0b01010 => U5::B01010,
            0b01011 => U5::B01011,
            0b01100 => U5::B01100,
            0b01101 => U5::B01101,
            0b01110 => U5::B01110,
            0b01111 => U5::B01111,
            0b10000 => U5::B10000,
            0b10001 => U5::B10001,
            0b10010 => U5::B10010,
            0b10011 => U5::B10011,
            0b10100 => U5::B10100,
            0b10101 => U5::B10101,
            0b10110 => U5::B10110,
            0b10111 => U5::B10111,
            0b11000 => U5::B11000,
            0b11001 => U5::B11001,
            0b11010 => U5::B11010,
            0b11011 => U5::B11011,
            0b11100 => U5::B11100,
            0b11101 => U5::B11101,
            0b11110 => U5::B11110,
            _ => U5::B11111,
        }
    }
}

/// An integer of 6 bits. Each member is named by its bit pattern.
#[derive(Clone, Copy, PartialEq, Eq, Structural)]
pub enum U6 {
    B000000,
    B000001,
    B000010,
    B000011,
    B000100,
    B000101,
    B000110,
    B000111,
    B001000,
    B001001,
    B001010,
    B001011,
    B001100,
    B001101,
    B001110,
    B001111,
    B010000,
    B010001,
    B010010,
    B010011,
    B010100,
    B010101,
    B010110,
    B010111,
    B011000,
    B011001,
    B011010,
    B011011,
    B011100,
    B011101,
    B011110,
    B011111,
    B100000,
    B100001,
    B100010,
    B100011,
    B100100,
    B100101,
    B100110,
    B100111,
    B101000,
    B101001,
    B101010,
    B101011,
    B101100,
    B101101,
    B101110,
    B101111,
    B110000,
    B110001,
    B110010,
    B110011,
    B110100,
    B110101,
    B110110,
    B110111,
    B111000,
    B111001,
    B111010,
    B111011,
    B111100,
    B111101,
    B111110,
    B111111,
}

impl View for U6 {
    type V = nat;

    open spec fn view(&self) -> nat {
        match self {
            U6::B000000 => 0,
            U6::B000001 => 1,
            U6::B000010 => 2,
            U6::B000011 => 3,
            U6::B000100 => 4,
            U6::B000101 => 5,
            U6::B000110 => 6,
            U6::B000111 => 7,
            U6::B001000 => 8,
            U6::B001001 => 9,
            U6::B001010 => 10,
            U6::B001011 => 11,
            U6::B001100 => 12,
            U6::B001101 => 13,
            U6::B001110 => 14,
            U6::B001111 => 15,
            U6::B010000 => 16,
            U6::B010001 => 17,
            U6::B010010 => 18,
            U6::B010011 => 19,
            U6::B010100 => 20,
            U6::B010101 => 21,
            U6::B010110 => 22,
            U6::B010111 => 23,
            U6::B011000 => 24,
            U6::B011001 => 25,
            U6::B011010 => 26,
            U6::B011011 => 27,
            U6::B011100 => 28,
            U6::B011101 => 29,
            U6::B011110 => 30,
            U6::B011111 => 31,
            U6::B100000 => 32,
            U6::B100001 => 33,
            U6::B100010 => 34,
            U6::B100011 => 35,
            U6::B100100 => 36,
            U6::B100101 => 37,
            U6::B100110 => 38,
            U6::B100111 => 39,
            U6::B101000 => 40,
            U6::B101001 => 41,
            U6::B101010 => 42,
            U6::B101011 => 43,
            U6::B101100 => 44,
            U6::B101101 => 45,
            U6::B101110 => 46,
            U6::B101111 => 47,
            U6::B110000 => 48,
            U6::B110001 => 49,
            U6::B110010 => 50,
            U6::B110011 => 51,
            U6::B110100 => 52,
            U6::B110101 => 53,
            U6::B110110 => 54,
            U6::B110111 => 55,
            U6::B111000 => 56,
            U6::B111001 => 57,
            U6::B111010 => 58,
            U6::B111011 => 59,
            U6::B111100 => 60,
            U6::B111101 => 61,
            U6::B111110 => 62,
            U6::B111111 => 63,
        }
    }
}

impl U6 {
    /// The number held, in the type that backs it.
    pub fn value(&self) -> (r: u8)
        ensures
            r == self@,
            r < Self::limit(),
    {
        match self {
            U6::B000000 => 0b000000,
            U6::B000001 => 0b000001,
            U6::B000010 => 0b000010,
            U6::B000011 => 0b000011,
            U6::B000100 => 0b000100,
            U6::B000101 => 0b000101,
            U6::B000110 => 0b000110,
            U6::B000111 => 0b000111,
            U6::B001000 => 0b001000,
            U6::B001001 => 0b001001,
            U6::B001010 => 0b001010,
            U6::B001011 => 0b001011,
            U6::B001100 => 0b001100,
            U6::B001101 => 0b001101,
            U6::B001110 => 0b001110,
            U6::B001111 => 0b001111,
            U6::B010000 => 0b010000,
            U6::B010001 => 0b010001,
            U6::B010010 => 0b010010,
            U6::B010011 => 0b010011,
            U6::B010100 => 0b010100,
            U6::B010101 => 0b010101,
            U6::B010110 => 0b010110,
            U6::B010111 => 0b010111,
            U6::B011000 => 0b011000,
            U6::B011001 => 0b011001,
            U6::B011010 => 0b011010,
            U6::B011011 => 0b011011,
            U6::B011100 => 0b011100,
            U6::B011101 => 0b011101,
            U6::B011110 => 0b011110,
            U6::B011111 => 0b011111,
            U6::B100000 => 0b100000,
            U6::B100001 => 0b100001,
            U6::B100010 => 0b100010,
            U6::B100011 => 0b100011,
            U6::B100100 => 0b100100,
            U6::B100101 => 0b100101,
            U6::B100110 => 0b100110,
            U6::B100111 => 0b100111,
            U6::B101000 => 0b101000,
            U6::B101001 => 0b101001,
            U6::B101010 => 0b101010,
            U6::B101011 => 0b101011,
            U6::B101100 => 0b101100,
            U6::B101101 => 0b101101,
            U6::B101110 => 0b101110,
            U6::B101111 => 0b101111,
            U6::B110000 => 0b110000,
            U6::B110001 => 0b110001,
            U6::B110010 => 0b110010,
            U6::B110011 => 0b110011,
            U6::B110100 => 0b110100,
            U6::B110101 => 0b110101,
            U6::B110110 => 0b110110,
            U6::B110111 => 0b110111,
            U6::B111000 => 0b111000,
            U6::B111001 => 0b111001,
            U6::B111010 => 0b111010,
            U6::B111011 => 0b111011,
            U6::B111100 => 0b111100,
            U6::B111101 => 0b111101,
            U6::B111110 => 0b111110,
            U6::B111111 => 0b111111,
        }
    }

    /// The number held, as a `u8`.
    pub fn into_u8(self) -> (r: u8)
        ensures
            r == self@,
    {
        self.value()
    }

    /// The number held, as a `u16`.
    pub fn into_u16(self) -> (r: u16)
        ensures
            r == self@,
    {
        self.value() as u16
    }

    /// The number held, as an `i32`.
    pub fn into_i32(self) -> (r: i32)
        ensures
            r == self@,
    {
        self.value() as i32
    }
}

impl BitField for U6 {
    open spec fn width() -> nat {
        6
    }

    open spec fn limit() -> nat {
        64
    }

    open spec fn from_nat(v: nat) -> Self {
        if v == 0 {
            U6::B000000
        } else if v == 1 {
            U6::B000001
        } else if v == 2 {
            U6::B000010
        } else if v == 3 {
            U6::B000011
        } else if v == 4 {
            U6::B000100
        } else if v == 5 {
            U6::B000101
        } else if v == 6 {
            U6::B000110
        } else if v == 7 {
            U6::B000111
        } else if v == 8 {
            U6::B001000
        } else if v == 9 {
            U6::B001001
        } else if v == 10 {
            U6::B001010
        } else if v == 11 {
            U6::B001011
        } else if v == 12 {
            U6::B001100
        } else if v == 13 {
            U6::B001101
        } else if v == 14 {
            U6::B001110
        } else if v == 15 {
            U6::B001111
        } else if v == 16 {
            U6::B010000
        } else if v == 17 {
            U6::B010001
        } else if v == 18 {
            U6::B010010
        } else if v == 19 {
            U6::B010011
        } else if v == 20 {
            U6::B010100
        } else if v == 21 {
            U6::B010101
        } else if v == 22 {
            U6::B010110
        } else if v == 23 {
            U6::B010111
        } else if v == 24 {
            U6::B011000
        } else if v == 25 {
            U6::B011001
        } else if v == 26 {
            U6::B011010
        } else if v == 27 {
            U6::B011011
        } else if v == 28 {
            U6::B011100
        } else if v == 29 {
            U6::B011101
        } else if v == 30 {
            U6::B011110
        } else if v == 31 {
            U6::B011111
        } else if v == 32 {
            U6::B100000
        } else if v == 33 {
            U6::B100001
        } else if v == 34 {
            U6::B100010
        } else if v == 35 {
            U6::B100011
        } else if v == 36 {
            U6::B100100
        } else if v == 37 {
            U6::B100101
        } else if v == 38 {
            U6::B100110
        } else if v == 39 {
            U6::B100111
        } else if v == 40 {
            U6::B101000
        } else if v == 41 {
            U6::B101001
        } else if v == 42 {
            U6::B101010
        } else if v == 43 {
            U6::B101011
        } else if v == 44 {
            U6::B101100
        } else if v == 45 {
            U6::B101101
        } else if v == 46 {
            U6::B101110
        } else if v == 47 {
            U6::B101111
        } else if v == 48 {
            U6::B110000
        } else if v == 49 {
            U6::B110001
        } else if v == 50 {
            U6::B110010
        } else if v == 51 {
            U6::B110011
        } else if v == 52 {
            U6::B110100
        } else if v == 53 {
            U6::B110101
        } else if v == 54 {
            U6::B110110
        } else if v == 55 {
            U6::B110111
        } else if v == 56 {
            U6::B111000
        } else if v == 57 {
            U6::B111001
        } else if v == 58 {
            U6::B111010
        } else if v == 59 {
            U6::B111011
        } else if v == 60 {
            U6::B111100
        } else if v == 61 {
            U6::B111101
        } else if v == 62 {
            U6::B111110
        } else {
            U6::B111111
        }
    }

    proof fn lemma_domain() {
        lemma2_to64();
        assert(Self::limit() == pow2(Self::width()));
    }

    proof fn lemma_from_nat(v: nat) {
    }

    proof fn lemma_view(self) {
    }

    fn bit_width() -> (w: u32) {
        6
    }

    fn into_u32(self) -> (r: u32) {
        self.value() as u32
    }

    fn from_u32_unchecked(other: u32) -> (r: Self) {
        match other {
            0b000000 => U6::B000000,
            0b000001 => U6::B000001,
            0b000010 => U6::B000010,
            0b000011 => U6::B000011,
            0b000100 => U6::B000100,
            0b000101 => U6::B000101,
            0b000110 => U6::B000110,
            0b000111 => U6::B000111,
            0b001000 => U6::B001000,
            0b001001 => U6::B001001,
            0b001010 => U6::B001010,
            0b001011 => U6::B001011,
            0b001100 => U6::B001100,
            0b001101 => U6::B001101,
            0b001110 => U6::B001110,
            0b001111 => U6::B001111,
            0b010000 => U6::B010000,
            0b010001 => U6::B010001,
            0b010010 => U6::B010010,
            0b010011 => U6::B010011,
            0b010100 => U6::B010100,
            0b010101 => U6::B010101,
            0b010110 => U6::B010110,
            0b010111 => U6::B010111,
            0b011000 => U6::B011000,
            0b011001 => U6::B011001,
            0b011010 => U6::B011010,
            0b011011 => U6::B011011,
            0b011100 => U6::B011100,
            0b011101 => U6::B011101,
            0b011110 => U6::B011110,
            0b011111 => U6::B011111,
            0b100000 => U6::B100000,
            0b100001 => U6::B100001,
            0b100010 => U6::B100010,
            0b100011 => U6::B100011,
            0b100100 => U6::B100100,
            0b100101 => U6::B100101,
            0b100110 => U6::B100110,
            0b100111 => U6::B100111,
            0b101000 => U6::B101000,
            0b101001 => U6::B101001,
            0b101010 => U6::B101010,
            0b101011 => U6::B101011,
            0b101100 => U6::B101100,
            0b101101 => U6::B101101,
            0b101110 => U6::B101110,
            0b101111 => U6::B101111,
            0b110000 => U6::B110000,
            0b110001 => U6::B110001,
            0b110010 => U6::B110010,
            0b110011 => U6::B110011,
            0b110100 => U6::B110100,
            0b110101 => U6::B110101,
            0b110110 => U6::B110110,
            0b110111 => U6::B110111,
            0b111000 => U6::B111000,
            0b111001 => U6::B111001,
            0b111010 => U6::B111010,
            0b111011 => U6::B111011,
            0b111100 => U6::B111100,
            0b111101 => U6::B111101,
            0b111110 => U6::B111110,
            _ => U6::B111111,
        }
    }
}

} // verus!
