//! The three capabilities an underlying type may offer, one per operation,
//! and their bindings for `u32`, `u64` and `u128`.

use vstd::prelude::*;
use crate::unsigned::{clamped_difference, clamped_product, clamped_sum, Unsigned};

verus! {

/// Addition that stops at the type's ceiling.
pub trait HasSaturatingAdd: Unsigned {
    /// `min(self + rhs, MAX)`, for the type's own `MAX`.
    fn do_saturating_add(&self, rhs: Self) -> (sum: Self)
        ensures
            sum.value() == clamped_sum(self.value(), rhs.value(), Self::max_value()),
    ;
}

/// Subtraction that stops at zero.
pub trait HasSaturatingSub: Unsigned {
    /// `max(self - rhs, 0)`.
    fn do_saturating_sub(&self, rhs: Self) -> (difference: Self)
        ensures
            difference.value() == clamped_difference(self.value(), rhs.value()),
    ;
}

/// Multiplication that stops at the type's ceiling.
pub trait HasSaturatingMul: Unsigned {
    /// `min(self * rhs, MAX)`, for the type's own `MAX`.
    fn do_saturating_mul(&self, rhs: Self) -> (product: Self)
        ensures
            product.value() == clamped_product(self.value(), rhs.value(), Self::max_value()),
    ;
}

impl HasSaturatingAdd for u32 {
    fn do_saturating_add(&self, rhs: Self) -> (sum: Self) {
        self.saturating_add(rhs)
    }
}

impl HasSaturatingSub for u32 {
    fn do_saturating_sub(&self, rhs: Self) -> (difference: Self) {
        self.saturating_sub(rhs)
    }
}

impl HasSaturatingMul for u32 {
    fn do_saturating_mul(&self, rhs: Self) -> (product: Self) {
        match self.checked_mul(rhs) {
            Some(exact) => exact,
            None => u32::MAX,
        }
    }
}

impl HasSaturatingAdd for u64 {
    fn do_saturating_add(&self, rhs: Self) -> (sum: Self) {
        self.saturating_add(rhs)
    }
}

impl HasSaturatingSub for u64 {
    fn do_saturating_sub(&self, rhs: Self) -> (difference: Self) {
        self.saturating_sub(rhs)
    }
}

impl HasSaturatingMul for u64 {
    fn do_saturating_mul(&self, rhs: Self) -> (product: Self) {
        match self.checked_mul(rhs) {
            Some(exact) => exact,
            None => u64::MAX,
        }
    }
}

impl HasSaturatingAdd for u128 {
    fn do_saturating_add(&self, rhs: Self) -> (sum: Self) {
        self.saturating_add(rhs)
    }
}

impl HasSaturatingSub for u128 {
    fn do_saturating_sub(&self, rhs: Self) -> (difference: Self) {
        self.saturating_sub(rhs)
    }
}

impl HasSaturatingMul for u128 {
    fn do_saturating_mul(&self, rhs: Self) -> (product: Self) {
        match self.checked_mul(rhs) {
            Some(exact) => exact,
            None => u128::MAX,
        }
    }
}

} // verus!
