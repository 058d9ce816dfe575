//! What holds of the operators on all numbers, whatever the width.
//!
//! Each statement is about `add_spec`, `sub_spec` and `mul_spec`, which are
//! what `+`, `-` and `*` return, and is proved from the public lemmas of
//! [`crate::number`] and the model of [`crate::unsigned`] alone.

use vstd::prelude::*;
use vstd::std_specs::cmp::{PartialEqSpec, PartialOrdSpec};
use vstd::std_specs::ops::{AddSpec, MulSpec, SubSpec};
use std::ops::{Add, Mul, Sub};
use crate::capability::{HasSaturatingAdd, HasSaturatingMul, HasSaturatingSub};
use crate::number::{
    lemma_add_spec, lemma_equal_by_value, lemma_mul_spec, lemma_sub_spec, SaturatingNumber,
};
use crate::unsigned::Unsigned;

verus! {

/// Adding zero changes nothing: `x + 0 == x`.
pub proof fn lemma_add_zero<T: Add<Output = T> + HasSaturatingAdd>(
    x: SaturatingNumber<T>,
    zero: SaturatingNumber<T>,
)
    requires
        zero@.value() == 0,
    ensures
        x.add_spec(zero) == x,
{
    lemma_add_spec(x, zero);
    x@.lemma_value_in_range();
    lemma_equal_by_value(x.add_spec(zero), x);
}

/// Subtracting zero changes nothing: `x - 0 == x`.
pub proof fn lemma_sub_zero<T: Sub<Output = T> + HasSaturatingSub>(
    x: SaturatingNumber<T>,
    zero: SaturatingNumber<T>,
)
    requires
        zero@.value() == 0,
    ensures
        x.sub_spec(zero) == x,
{
    lemma_sub_spec(x, zero);
    lemma_equal_by_value(x.sub_spec(zero), x);
}

/// A sum that would pass the ceiling is the ceiling: it never wraps round
/// to a small value.
pub proof fn lemma_add_saturates<T: Add<Output = T> + HasSaturatingAdd>(
    x: SaturatingNumber<T>,
    y: SaturatingNumber<T>,
)
    requires
        x@.value() + y@.value() > T::max_value(),
    ensures
        x.add_spec(y)@.value() == T::max_value(),
{
    lemma_add_spec(x, y);
}

/// A difference that would fall below zero is zero: it never wraps round to
/// a large value.
pub proof fn lemma_sub_saturates<T: Sub<Output = T> + HasSaturatingSub>(
    x: SaturatingNumber<T>,
    y: SaturatingNumber<T>,
)
    requires
        x@.value() < y@.value(),
    ensures
        x.sub_spec(y)@.value() == 0,
{
    lemma_sub_spec(x, y);
}

/// Zero absorbs: `x * 0 == 0`.
pub proof fn lemma_mul_zero<T: Mul<Output = T> + HasSaturatingMul>(
    x: SaturatingNumber<T>,
    zero: SaturatingNumber<T>,
)
    requires
        zero@.value() == 0,
    ensures
        x.mul_spec(zero) == zero,
{
    lemma_mul_spec(x, zero);
    assert(x@.value() * 0 == 0) by (nonlinear_arith);
    lemma_equal_by_value(x.mul_spec(zero), zero);
}

/// The ceiling absorbs every factor but zero: `MAX * y == MAX` for `y >= 1`.
pub proof fn lemma_mul_ceiling<T: Mul<Output = T> + HasSaturatingMul>(
    ceiling: SaturatingNumber<T>,
    y: SaturatingNumber<T>,
)
    requires
        ceiling@.value() == T::max_value(),
        y@.value() >= 1,
    ensures
        ceiling.mul_spec(y) == ceiling,
{
    lemma_mul_spec(ceiling, y);
    let top = T::max_value();
    let factor = y@.value();
    assert(top * factor >= top) by (nonlinear_arith)
        requires
            factor >= 1,
    ;
    lemma_equal_by_value(ceiling.mul_spec(y), ceiling);
}

/// Addition commutes: `x + y == y + x`.
pub proof fn lemma_add_commutes<T: Add<Output = T> + HasSaturatingAdd>(
    x: SaturatingNumber<T>,
    y: SaturatingNumber<T>,
)
    ensures
        x.add_spec(y) == y.add_spec(x),
{
    lemma_add_spec(x, y);
    lemma_add_spec(y, x);
    lemma_equal_by_value(x.add_spec(y), y.add_spec(x));
}

/// Multiplication commutes: `x * y == y * x`.
pub proof fn lemma_mul_commutes<T: Mul<Output = T> + HasSaturatingMul>(
    x: SaturatingNumber<T>,
    y: SaturatingNumber<T>,
)
    ensures
        x.mul_spec(y) == y.mul_spec(x),
{
    lemma_mul_spec(x, y);
    lemma_mul_spec(y, x);
    assert(x@.value() * y@.value() == y@.value() * x@.value()) by (nonlinear_arith);
    lemma_equal_by_value(x.mul_spec(y), y.mul_spec(x));
}

/// Two numbers are equal, and ordered, exactly as their contained values are.
pub proof fn lemma_comparison_by_contained_values<T: PartialOrd>(
    x: SaturatingNumber<T>,
    y: SaturatingNumber<T>,
)
    ensures
        x.eq_spec(&y) == x@.eq_spec(&y@),
        x.partial_cmp_spec(&y) == x@.partial_cmp_spec(&y@),
{
}

} // verus!
