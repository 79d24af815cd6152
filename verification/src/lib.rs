//! Integers of a fixed bit width (`U1` to `U32`) and indices below a fixed
//! count (`R1` to `R32`).
//!
//! A value of one of these types is known to lie in its domain, so a function
//! that takes one needs no range check of its own. The domain is enforced
//! once, where a native integer is converted, and every conversion states
//! exactly when it succeeds.
//!
//! `U1` to `U6` and `R1` to `R32` name one member for each value, so that a
//! `match` over them is exhaustive without a fallback arm. `U7` to `U32` wrap
//! the smallest of `u8`, `u16` and `u32` that holds their width.
//!
//! The conversions, comparisons and renderings of the two families are the
//! methods of [`BitField`] and [`RangeIndex`]. A conversion that can fail
//! returns a `Result` with [`RangeError`]; one that is named `unchecked`
//! makes no check and leaves it to the caller to show that the number lies
//! in the domain.

pub mod bits;
pub mod error;
pub mod mask;
pub mod range;
pub mod render;

pub use bits::enums::{U1, U2, U3, U4, U5, U6};
pub use bits::medium::{U10, U11, U12, U13, U14, U15, U16, U9};
pub use bits::narrow::{U7, U8};
pub use bits::wide::{
    U17, U18, U19, U20, U21, U22, U23, U24, U25, U26, U27, U28, U29, U30, U31, U32,
};
pub use bits::BitField;
pub use error::RangeError;
pub use range::large::{
    R17, R18, R19, R20, R21, R22, R23, R24, R25, R26, R27, R28, R29, R30, R31, R32,
};
pub use range::small::{R1, R10, R11, R12, R13, R14, R15, R16, R2, R3, R4, R5, R6, R7, R8, R9};
pub use range::{widen, RangeIndex};
