//! The bit-width family: what every type `U1` to `U32` states of itself, and
//! the conversions, comparisons and renderings that follow from it.

pub mod construct;
pub mod enums;
pub mod equal;
pub mod export;
pub mod flag;
pub mod medium;
pub mod narrow;
pub mod wide;

use crate::bits::enums::{U1, U2, U3, U4, U5, U6};
use crate::error::RangeError;
use crate::mask::{fits_width, lemma_mask_rule, lemma_pow2_bound, low_mask};
use crate::render::{binary_literal, digit_string, digits, hex_literal, prefixed};
use vstd::arithmetic::power2::{lemma2_to64, pow2};
use vstd::prelude::*;

verus! {

/// The debug rendering of the number `v` held in `width` bits: binary with
/// one digit per bit up to six bits, hexadecimal with as many digits as the
/// widest value needs above that.
pub open spec fn debug_text(width: nat, v: nat) -> Seq<char> {
    if width <= 6 {
        prefixed('b', v, 2, width)
    } else {
        prefixed('x', v, 16, (width + 3) / 4)
    }
}

/// The number `v` as a `u8`, or the range violation where it has a bit above
/// the eighth.
pub open spec fn checked_u8(v: nat) -> Result<u8, RangeError> {
    if v <= u8::MAX {
        Ok(v as u8)
    } else {
        Err(RangeError)
    }
}

/// The number `v` as a `u16`, or the range violation where it has a bit
/// above the sixteenth.
pub open spec fn checked_u16(v: nat) -> Result<u16, RangeError> {
    if v <= u16::MAX {
        Ok(v as u16)
    } else {
        Err(RangeError)
    }
}

/// The number `v` as an `i32`, or the range violation where it has a bit
/// above the thirty-first.
pub open spec fn checked_i32(v: nat) -> Result<i32, RangeError> {
    if v <= i32::MAX {
        Ok(v as i32)
    } else {
        Err(RangeError)
    }
}

/// An unsigned integer of a fixed number of bits.
///
/// The view of a value is the number it holds. A type states its width and
/// how it stores a number; the conversions are the same for every width.
pub trait BitField: Sized + Copy + View<V = nat> {
    /// Number of bits.
    spec fn width() -> nat;

    /// Number of values: the numbers below `limit()` are the domain.
    spec fn limit() -> nat;

    /// The value that holds the number `v`.
    spec fn from_nat(v: nat) -> Self;

    /// The width lies between 1 and 32, and the domain is what fits in it.
    proof fn lemma_domain()
        ensures
            1 <= Self::width() <= 32,
            Self::limit() == pow2(Self::width()),
    ;

    /// A number of the domain is the view of the value that holds it.
    proof fn lemma_from_nat(v: nat)
        requires
            v < Self::limit(),
        ensures
            Self::from_nat(v)@ == v,
    ;

    /// A value is the one that holds its own view.
    proof fn lemma_view(self)
        ensures
            Self::from_nat(self@) == self,
    ;

    /// The width, at run time.
    fn bit_width() -> (w: u32)
        ensures
            w == Self::width(),
    ;

    /// The number held, which lies in the domain.
    fn into_u32(self) -> (r: u32)
        ensures
            r == self@,
            r < Self::limit(),
    ;

    /// The value for a number that the caller knows to lie in the domain.
    /// No check is made.
    fn from_u32_unchecked(other: u32) -> (r: Self)
        requires
            other < Self::limit(),
        ensures
            r == Self::from_nat(other as nat),
            r@ == other,
    ;

    /// As `from_u32_unchecked`, from a `u8`.
    fn from_u8_unchecked(other: u8) -> (r: Self)
        requires
            other < Self::limit(),
        ensures
            r == Self::from_nat(other as nat),
            r@ == other,
    {
        Self::from_u32_unchecked(other as u32)
    }

    /// As `from_u32_unchecked`, from a `u16`.
    fn from_u16_unchecked(other: u16) -> (r: Self)
        requires
            other < Self::limit(),
        ensures
            r == Self::from_nat(other as nat),
            r@ == other,
    {
        Self::from_u32_unchecked(other as u32)
    }

    /// As `from_u32_unchecked`, from a `usize`.
    fn from_usize_unchecked(other: usize) -> (r: Self)
        requires
            other < Self::limit(),
        ensures
            r == Self::from_nat(other as nat),
            r@ == other,
    {
        proof {
            Self::lemma_domain();
            lemma_pow2_bound(Self::width());
        }
        Self::from_u32_unchecked(other as u32)
    }

    /// The value for `other` if it has no bit above the width, else the
    /// range violation.
    fn try_from_u32(other: u32) -> (r: Result<Self, RangeError>)
        ensures
            other < Self::limit() ==> r == Ok::<Self, RangeError>(Self::from_nat(other as nat)),
            other >= Self::limit() ==> r == Err::<Self, RangeError>(RangeError),
            r matches Ok(x) ==> x@ == other,
    {
        proof {
            Self::lemma_domain();
        }
        if fits_width(other as u64, Self::bit_width()) {
            Ok(Self::from_u32_unchecked(other))
        } else {
            Err(RangeError)
        }
    }

    /// As `try_from_u32`, from a `u8`.
    fn try_from_u8(other: u8) -> (r: Result<Self, RangeError>)
        ensures
            other < Self::limit() ==> r == Ok::<Self, RangeError>(Self::from_nat(other as nat)),
            other >= Self::limit() ==> r == Err::<Self, RangeError>(RangeError),
            r matches Ok(x) ==> x@ == other,
    {
        Self::try_from_u32(other as u32)
    }

    /// As `try_from_u32`, from a `u16`.
    fn try_from_u16(other: u16) -> (r: Result<Self, RangeError>)
        ensures
            other < Self::limit() ==> r == Ok::<Self, RangeError>(Self::from_nat(other as nat)),
            other >= Self::limit() ==> r == Err::<Self, RangeError>(RangeError),
            r matches Ok(x) ==> x@ == other,
    {
        Self::try_from_u32(other as u32)
    }

    /// As `try_from_u32`, from a `usize`.
    fn try_from_usize(other: usize) -> (r: Result<Self, RangeError>)
        ensures
            other < Self::limit() ==> r == Ok::<Self, RangeError>(Self::from_nat(other as nat)),
            other >= Self::limit() ==> r == Err::<Self, RangeError>(RangeError),
            r matches Ok(x) ==> x@ == other,
    {
        proof {
            Self::lemma_domain();
            lemma_pow2_bound(Self::width());
        }
        if fits_width(other as u64, Self::bit_width()) {
            Ok(Self::from_u32_unchecked(other as u32))
        } else {
            Err(RangeError)
        }
    }

    /// The value for `other` if it is not negative and has no bit above the
    /// width, else the range violation.
    fn try_from_i32(other: i32) -> (r: Result<Self, RangeError>)
        ensures
            0 <= other < Self::limit() ==> r == Ok::<Self, RangeError>(
                Self::from_nat(other as nat),
            ),
            other < 0 || other >= Self::limit() ==> r == Err::<Self, RangeError>(RangeError),
            r matches Ok(x) ==> x@ == other,
    {
        if other < 0 {
            Err(RangeError)
        } else {
            Self::try_from_u32(other as u32)
        }
    }

    /// The number held, as a `usize`.
    fn into_usize(self) -> (r: usize)
        ensures
            r == self@,
    {
        self.into_u32() as usize
    }

    /// The number held as a `u8` if it has no bit above the eighth, else the
    /// range violation.
    fn try_into_u8(self) -> (r: Result<u8, RangeError>)
        ensures
            r == checked_u8(self@),
    {
        let v: u32 = self.into_u32();
        proof {
            lemma2_to64();
        }
        if fits_width(v as u64, 8) {
            Ok(v as u8)
        } else {
            Err(RangeError)
        }
    }

    /// The number held as a `u16` if it has no bit above the sixteenth, else
    /// the range violation.
    fn try_into_u16(self) -> (r: Result<u16, RangeError>)
        ensures
            r == checked_u16(self@),
    {
        let v: u32 = self.into_u32();
        proof {
            lemma2_to64();
        }
        if fits_width(v as u64, 16) {
            Ok(v as u16)
        } else {
            Err(RangeError)
        }
    }

    /// The number held as an `i32` if it has no bit above the thirty-first,
    /// else the range violation.
    fn try_into_i32(self) -> (r: Result<i32, RangeError>)
        ensures
            r == checked_i32(self@),
    {
        let v: u32 = self.into_u32();
        proof {
            lemma2_to64();
        }
        if fits_width(v as u64, 31) {
            Ok(v as i32)
        } else {
            Err(RangeError)
        }
    }

    /// Whether the number held is `other`.
    fn eq_i32(&self, other: i32) -> (r: bool)
        ensures
            r <==> self@ == other,
    {
        other >= 0 && self.into_u32() == other as u32
    }

    /// The debug rendering: `0b` and one binary digit per bit up to six
    /// bits, `0x` and the hexadecimal digits of the widest value above that.
    fn debug_string(&self) -> (s: String)
        ensures
            s@ == debug_text(Self::width(), self@),
    {
        let width: u32 = Self::bit_width();
        proof {
            Self::lemma_domain();
        }
        if width <= 6 {
            binary_literal(self.into_u32(), width)
        } else {
            hex_literal(self.into_u32(), (width + 3) / 4)
        }
    }

    /// The display rendering: the number in decimal.
    fn display_string(&self) -> (s: String)
        ensures
            s@ == digits(self@, 10),
    {
        digit_string(self.into_u32(), 10)
    }

    /// The lower-hex rendering: the number in hexadecimal, without prefix
    /// or leading zeros.
    fn lower_hex_string(&self) -> (s: String)
        ensures
            s@ == digits(self@, 16),
    {
        digit_string(self.into_u32(), 16)
    }
}

/// What the checked constructors of `T` return for the number `v`: the value
/// that holds it where it lies in the domain, else the range violation.
/// The constructors state the two cases one by one; the `TryFrom` impls
/// state them by this name.
pub open spec fn checked<T: BitField>(v: int) -> Result<T, RangeError> {
    if 0 <= v < T::limit() {
        Ok(T::from_nat(v as nat))
    } else {
        Err(RangeError)
    }
}

/// No value carries a bit above its width: a number below `limit()`, as
/// `value()` and `into_u32()` return, passes the mask of the width.
pub proof fn lemma_no_high_bits<T: BitField>(x: T)
    requires
        x@ < T::limit(),
    ensures
        (x@ as u64) & !(low_mask(T::width()) as u64) == 0,
{
    T::lemma_domain();
    lemma_pow2_bound(T::width());
    lemma_mask_rule(x@ as u64, T::width());
}

/// A number below `2^width` is accepted and reads back as itself: the
/// checked constructors return the value that holds it, and the view of that
/// value, which is what `value()` returns, is the number.
pub proof fn lemma_round_trip<T: BitField>(v: nat)
    requires
        v < pow2(T::width()),
    ensures
        checked::<T>(v as int) == Ok::<T, RangeError>(T::from_nat(v)),
        T::from_nat(v)@ == v,
{
    T::lemma_domain();
    T::lemma_from_nat(v);
}

/// A negative number, and one of `2^width` or more, is rejected with the
/// range violation.
pub proof fn lemma_rejection<T: BitField>(v: int)
    requires
        v < 0 || v >= pow2(T::width()),
    ensures
        checked::<T>(v) == Err::<T, RangeError>(RangeError),
{
    T::lemma_domain();
}

/// Two values are equal exactly when they hold the same number.
pub proof fn lemma_eq_by_number<T: BitField>(a: T, b: T)
    ensures
        a == b <==> a@ == b@,
{
    a.lemma_view();
    b.lemma_view();
}

/// Where the members are named, the one named by all zeros holds zero.
pub proof fn lemma_zero_member()
    ensures
        U1::from_nat(0) == U1::B0,
        U2::from_nat(0) == U2::B00,
        U3::from_nat(0) == U3::B000,
        U4::from_nat(0) == U4::B0000,
        U5::from_nat(0) == U5::B00000,
        U6::from_nat(0) == U6::B000000,
{
}

} // verus!
