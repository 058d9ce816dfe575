//! Saturating arithmetic on unsigned fixed-width integers.
//!
//! [`SaturatingNumber`] holds one value of an underlying unsigned type and
//! adds, subtracts and multiplies by clamping to that type's range. The
//! underlying type takes part through three capability traits, one per
//! operation, each specified against the numeric model in [`unsigned`].
//! What holds of the operators on all inputs is proved in [`laws`].

pub mod unsigned;
pub mod capability;
pub mod number;
pub mod laws;

pub use crate::capability::{HasSaturatingAdd, HasSaturatingMul, HasSaturatingSub};
pub use crate::number::{SaturatingNumber, SaturatingU128, SaturatingU32, SaturatingU64};
pub use crate::unsigned::Unsigned;
