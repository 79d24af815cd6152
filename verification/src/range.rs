//! The cardinality family: what every type `R1` to `R32` states of itself,
//! and the conversions, comparisons and renderings that follow from it.

pub mod construct;
pub mod equal;
pub mod export;
pub mod large;
pub mod small;
pub mod widen;

use crate::error::RangeError;
use crate::render::{digit_string, digits, hex_literal, prefixed};
use vstd::prelude::*;

verus! {

/// The debug rendering of the index `v` of a range of `limit` items: `0x`
/// and one hexadecimal digit for a range of up to 16 items, two for a larger
/// one.
pub open spec fn debug_text(limit: nat, v: nat) -> Seq<char> {
    if limit <= 16 {
        prefixed('x', v, 16, 1)
    } else {
        prefixed('x', v, 16, 2)
    }
}

/// An index into a collection of a fixed number of items.
///
/// The view of a value is the index it holds. A type states how many items
/// it ranges over and names one member for each; the conversions are the
/// same for every count.
pub trait RangeIndex: Sized + Copy + View<V = nat> {
    /// Number of items: the indices below `limit()` are the domain.
    spec fn limit() -> nat;

    /// The member that holds the index `v`.
    spec fn from_nat(v: nat) -> Self;

    /// A range has at least one item and at most 32.
    proof fn lemma_domain()
        ensures
            1 <= Self::limit() <= 32,
    ;

    /// An index of the domain is the view of the member that holds it.
    proof fn lemma_from_nat(v: nat)
        requires
            v < Self::limit(),
        ensures
            Self::from_nat(v)@ == v,
    ;

    /// Every member holds an index of the domain, and is the one that
    /// holds it.
    proof fn lemma_view(self)
        ensures
            self@ < Self::limit(),
            Self::from_nat(self@) == self,
    ;

    /// The number of items, at run time.
    fn cardinality() -> (m: usize)
        ensures
            m == Self::limit(),
    ;

    /// The index held, which lies in the domain.
    fn into_usize(self) -> (r: usize)
        ensures
            r == self@,
            r < Self::limit(),
    ;

    /// The member for an index that the caller knows to lie in the domain.
    /// No check is made.
    fn from_usize_unchecked(other: usize) -> (r: Self)
        requires
            other < Self::limit(),
        ensures
            r == Self::from_nat(other as nat),
            r@ == other,
    ;

    /// As `from_usize_unchecked`, from a `u8`.
    fn from_u8_unchecked(other: u8) -> (r: Self)
        requires
            other < Self::limit(),
        ensures
            r == Self::from_nat(other as nat),
            r@ == other,
    {
        Self::from_usize_unchecked(other as usize)
    }

    /// As `from_usize_unchecked`, from a `u16`.
    fn from_u16_unchecked(other: u16) -> (r: Self)
        requires
            other < Self::limit(),
        ensures
            r == Self::from_nat(other as nat),
            r@ == other,
    {
        Self::from_usize_unchecked(other as usize)
    }

    /// As `from_usize_unchecked`, from a `u32`.
    fn from_u32_unchecked(other: u32) -> (r: Self)
        requires
            other < Self::limit(),
        ensures
            r == Self::from_nat(other as nat),
            r@ == other,
    {
        Self::from_usize_unchecked(other as usize)
    }

    /// The member for `other` if it is below the number of items, else the
    /// range violation.
    fn try_from_usize(other: usize) -> (r: Result<Self, RangeError>)
        ensures
            other < Self::limit() ==> r == Ok::<Self, RangeError>(Self::from_nat(other as nat)),
            other >= Self::limit() ==> r == Err::<Self, RangeError>(RangeError),
            r matches Ok(x) ==> x@ == other,
    {
        if other < Self::cardinality() {
            Ok(Self::from_usize_unchecked(other))
        } else {
            Err(RangeError)
        }
    }

    /// As `try_from_usize`, from a `u8`.
    fn try_from_u8(other: u8) -> (r: Result<Self, RangeError>)
        ensures
            other < Self::limit() ==> r == Ok::<Self, RangeError>(Self::from_nat(other as nat)),
            other >= Self::limit() ==> r == Err::<Self, RangeError>(RangeError),
            r matches Ok(x) ==> x@ == other,
    {
        Self::try_from_usize(other as usize)
    }

    /// As `try_from_usize`, from a `u16`.
    fn try_from_u16(other: u16) -> (r: Result<Self, RangeError>)
        ensures
            other < Self::limit() ==> r == Ok::<Self, RangeError>(Self::from_nat(other as nat)),
            other >= Self::limit() ==> r == Err::<Self, RangeError>(RangeError),
            r matches Ok(x) ==> x@ == other,
    {
        Self::try_from_usize(other as usize)
    }

    /// As `try_from_usize`, from a `u32`.
    fn try_from_u32(other: u32) -> (r: Result<Self, RangeError>)
        ensures
            other < Self::limit() ==> r == Ok::<Self, RangeError>(Self::from_nat(other as nat)),
            other >= Self::limit() ==> r == Err::<Self, RangeError>(RangeError),
            r matches Ok(x) ==> x@ == other,
    {
        Self::try_from_usize(other as usize)
    }

    /// The member for `other` if it is not negative and below the number of
    /// items, else the range violation.
    fn try_from_i32(other: i32) -> (r: Result<Self, RangeError>)
        ensures
            0 <= other < Self::limit() ==> r == Ok::<Self, RangeError>(
                Self::from_nat(other as nat),
            ),
            other < 0 || other >= Self::limit() ==> r == Err::<Self, RangeError>(RangeError),
            r matches Ok(x) ==> x@ == other,
    {
        if other < 0 {
            Err(RangeError)
        } else {
            Self::try_from_usize(other as usize)
        }
    }

    /// The index held, as a `u8`.
    fn into_u8(self) -> (r: u8)
        ensures
            r == self@,
    {
        proof {
            Self::lemma_domain();
        }
        self.into_usize() as u8
    }

    /// The index held, as a `u16`.
    fn into_u16(self) -> (r: u16)
        ensures
            r == self@,
    {
        proof {
            Self::lemma_domain();
        }
        self.into_usize() as u16
    }

    /// The index held, as a `u32`.
    fn into_u32(self) -> (r: u32)
        ensures
            r == self@,
    {
        proof {
            Self::lemma_domain();
        }
        self.into_usize() as u32
    }

    /// The index held, as an `i32`.
    fn into_i32(self) -> (r: i32)
        ensures
            r == self@,
    {
        proof {
            Self::lemma_domain();
        }
        self.into_usize() as i32
    }

    /// Whether the index held is `other`.
    fn eq_u8(&self, other: u8) -> (r: bool)
        ensures
            r <==> self@ == other,
    {
        self.into_usize() == other as usize
    }

    /// Whether the index held is `other`.
    fn eq_u16(&self, other: u16) -> (r: bool)
        ensures
            r <==> self@ == other,
    {
        self.into_usize() == other as usize
    }

    /// Whether the index held is `other`.
    fn eq_u32(&self, other: u32) -> (r: bool)
        ensures
            r <==> self@ == other,
    {
        self.into_usize() == other as usize
    }

    /// Whether the index held is `other`.
    fn eq_usize(&self, other: usize) -> (r: bool)
        ensures
            r <==> self@ == other,
    {
        self.into_usize() == other
    }

    /// Whether the index held is `other`.
    fn eq_i32(&self, other: i32) -> (r: bool)
        ensures
            r <==> self@ == other,
    {
        other >= 0 && self.into_usize() == other as usize
    }

    /// The debug rendering: `0x` and one hexadecimal digit for a range of
    /// up to 16 items, two for a larger one.
    fn debug_string(&self) -> (s: String)
        ensures
            s@ == debug_text(Self::limit(), self@),
    {
        if Self::cardinality() <= 16 {
            hex_literal(self.into_u32(), 1)
        } else {
            hex_literal(self.into_u32(), 2)
        }
    }

    /// The display rendering: the index in decimal. It is rendered from
    /// its lowest eight bits, which hold every index of every range.
    fn display_string(&self) -> (s: String)
        ensures
            s@ == digits(self@, 10),
    {
        digit_string(self.into_u8() as u32, 10)
    }

    /// The lower-hex rendering: the index in hexadecimal, without prefix or
    /// leading zeros. It is rendered from its lowest eight bits, as the
    /// display rendering is.
    fn lower_hex_string(&self) -> (s: String)
        ensures
            s@ == digits(self@, 16),
    {
        digit_string(self.into_u8() as u32, 16)
    }
}

/// What the checked constructors of `T` return for the number `v`: the
/// member that holds it where it lies in the domain, else the range
/// violation. The constructors state the two cases one by one; the `TryFrom`
/// impls state them by this name.
pub open spec fn checked<T: RangeIndex>(v: int) -> Result<T, RangeError> {
    if 0 <= v < T::limit() {
        Ok(T::from_nat(v as nat))
    } else {
        Err(RangeError)
    }
}

/// The same index in a range of no fewer items. No check is made, for none
/// is needed: an index below the smaller count is below the larger one.
pub fn widen<A: RangeIndex, B: RangeIndex>(a: A) -> (b: B)
    requires
        A::limit() <= B::limit(),
    ensures
        b == B::from_nat(a@),
        b@ == a@,
{
    B::from_usize_unchecked(a.into_usize())
}

/// An index below the number of items is accepted and reads back as
/// itself: the checked constructors return the member that holds it, and the
/// view of that member, which is what `value()` returns, is the index.
pub proof fn lemma_round_trip<T: RangeIndex>(v: nat)
    requires
        v < T::limit(),
    ensures
        checked::<T>(v as int) == Ok::<T, RangeError>(T::from_nat(v)),
        T::from_nat(v)@ == v,
{
    T::lemma_from_nat(v);
}

/// A negative number, and one that is not below the number of items, is
/// rejected with the range violation.
pub proof fn lemma_rejection<T: RangeIndex>(v: int)
    requires
        v < 0 || v >= T::limit(),
    ensures
        checked::<T>(v) == Err::<T, RangeError>(RangeError),
{
}

/// Widening keeps the index: for a range `A` of no more items than `B`, the
/// member of `B` that a member of `A` converts to holds the same index.
pub proof fn lemma_widen_keeps_index<A: RangeIndex, B: RangeIndex>(a: A)
    requires
        A::limit() <= B::limit(),
    ensures
        a@ < B::limit(),
        B::from_nat(a@)@ == a@,
{
    a.lemma_view();
    B::lemma_from_nat(a@);
}

/// Two members are equal exactly when they hold the same index.
pub proof fn lemma_eq_by_index<T: RangeIndex>(a: T, b: T)
    ensures
        a == b <==> a@ == b@,
{
    a.lemma_view();
    b.lemma_view();
}

} // verus!
