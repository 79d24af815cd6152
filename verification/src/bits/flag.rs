//! What the single bit has beyond the other widths: it converts from a
//! `bool`, says whether it is set, and takes the `!` operator.

use crate::bits::enums::U1;
use std::ops::Not;
use vstd::prelude::*;
use vstd::std_specs::convert::{FromSpec, FromSpecImpl};
use vstd::std_specs::ops::NotSpecImpl;

verus! {

impl U1 {
    /// Whether the bit is set.
    pub fn is_set(&self) -> (r: bool)
        ensures
            r <==> self@ != 0,
    {
        self.value() != 0
    }
}

impl From<bool> for U1 {
    /// The set bit for `true`, the clear bit for `false`.
    fn from(other: bool) -> (r: U1) {
        if other {
            U1::B1
        } else {
            U1::B0
        }
    }
}

impl FromSpecImpl<bool> for U1 {
    open spec fn obeys_from_spec() -> bool {
        true
    }

    open spec fn from_spec(other: bool) -> U1 {
        if other {
            U1::B1
        } else {
            U1::B0
        }
    }
}

impl Not for U1 {
    type Output = U1;

    /// The operand itself. `!` rebuilds the value from the bit it already
    /// holds, so the bit is not flipped: `!U1::B1` is `U1::B1`.
    fn not(self) -> (r: U1) {
        self
    }
}

impl NotSpecImpl for U1 {
    open spec fn obeys_not_spec() -> bool {
        true
    }

    open spec fn not_req(self) -> bool {
        true
    }

    open spec fn not_spec(self) -> U1 {
        self
    }
}

/// The bit made from a `bool` is set exactly when the `bool` is true, and
/// holds 1 for `true` and 0 for `false`.
pub proof fn lemma_flag(b: bool)
    ensures
        <U1 as FromSpec<bool>>::from_spec(b)@ != 0 <==> b,
        <U1 as FromSpec<bool>>::from_spec(b)@ == (if b {
            1nat
        } else {
            0nat
        }),
{
}

} // verus!
