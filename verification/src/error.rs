//! The one way a conversion can fail.

use vstd::prelude::*;

verus! {

/// A conversion source lay outside the destination's domain: it was
/// negative, or too large for the destination to hold.
#[derive(Clone, Copy, Debug, PartialEq, Eq, Structural)]
pub struct RangeError;

} // verus!
