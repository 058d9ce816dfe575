//! The numeric model of an underlying type: the naturals from zero up to a
//! ceiling, and the three clamped operations on them.

use vstd::prelude::*;

verus! {

/// A type whose values stand, one for one, for the naturals `0..=max_value()`.
pub trait Unsigned: Sized {
    /// The number that this value stands for.
    spec fn value(&self) -> nat;

    /// The largest number the type can hold.
    spec fn max_value() -> nat;

    /// The value that stands for `n`, meaningful for `n <= max_value()`.
    spec fn from_value(n: nat) -> Self;

    /// No value lies above the ceiling.
    proof fn lemma_value_in_range(&self)
        ensures
            self.value() <= Self::max_value(),
    ;

    /// Every number up to the ceiling is the value of what stands for it.
    proof fn lemma_value_of_from_value(n: nat)
        requires
            n <= Self::max_value(),
        ensures
            Self::from_value(n).value() == n,
    ;

    /// A value is what stands for its number, so equal numbers mean equal values.
    proof fn lemma_from_value_of_value(&self)
        ensures
            Self::from_value(self.value()) == *self,
    ;
}

/// Two values that stand for the same number are the same value.
pub proof fn lemma_equal_by_value<T: Unsigned>(a: T, b: T)
    requires
        a.value() == b.value(),
    ensures
        a == b,
{
    a.lemma_from_value_of_value();
    b.lemma_from_value_of_value();
}

/// `a + b`, clamped at `ceiling`: the smaller of the two.
pub open spec fn clamped_sum(a: nat, b: nat, ceiling: nat) -> nat {
    if a + b > ceiling {
        ceiling
    } else {
        a + b
    }
}

/// `a - b`, clamped at zero: the larger of the two.
pub open spec fn clamped_difference(a: nat, b: nat) -> nat {
    if a < b {
        0
    } else {
        (a - b) as nat
    }
}

/// `a * b`, clamped at `ceiling`: the smaller of the two.
pub open spec fn clamped_product(a: nat, b: nat, ceiling: nat) -> nat {
    if a * b > ceiling {
        ceiling
    } else {
        a * b
    }
}

impl Unsigned for u32 {
    open spec fn value(&self) -> nat {
        *self as nat
    }

    open spec fn max_value() -> nat {
        u32::MAX as nat
    }

    open spec fn from_value(n: nat) -> u32 {
        n as u32
    }

    proof fn lemma_value_in_range(&self) {
    }

    proof fn lemma_value_of_from_value(n: nat) {
    }

    proof fn lemma_from_value_of_value(&self) {
    }
}

impl Unsigned for u64 {
    open spec fn value(&self) -> nat {
        *self as nat
    }

    open spec fn max_value() -> nat {
        u64::MAX as nat
    }

    open spec fn from_value(n: nat) -> u64 {
        n as u64
    }

    proof fn lemma_value_in_range(&self) {
    }

    proof fn lemma_value_of_from_value(n: nat) {
    }

    proof fn lemma_from_value_of_value(&self) {
    }
}

impl Unsigned for u128 {
    open spec fn value(&self) -> nat {
        *self as nat
    }

    open spec fn max_value() -> nat {
        u128::MAX as nat
    }

    open spec fn from_value(n: nat) -> u128 {
        n as u128
    }

    proof fn lemma_value_in_range(&self) {
    }

    proof fn lemma_value_of_from_value(n: nat) {
    }

    proof fn lemma_from_value_of_value(&self) {
    }
}

} // verus!
