//! The wrapper: one value of an underlying type, combined by saturating
//! operators.

use vstd::prelude::*;
use vstd::std_specs::cmp::{PartialEqSpec, PartialOrdSpec};
use vstd::std_specs::ops::{AddSpec, MulSpec, SubSpec};
use std::cmp::Ordering;
use std::ops::{Add, AddAssign, Mul, MulAssign, Sub, SubAssign};
use crate::capability::{HasSaturatingAdd, HasSaturatingMul, HasSaturatingSub};
use crate::unsigned::{clamped_difference, clamped_product, clamped_sum, Unsigned};

verus! {

/// One value of the underlying type `T`.
///
/// Every value of `T` is a valid content, so the type has no invariant of
/// its own: what keeps a counter in range is that each operator clamps.
#[derive(Copy, Clone, Eq, Ord)]
pub struct SaturatingNumber<T>(T);

pub type SaturatingU32 = SaturatingNumber<u32>;

pub type SaturatingU64 = SaturatingNumber<u64>;

pub type SaturatingU128 = SaturatingNumber<u128>;

impl<T> View for SaturatingNumber<T> {
    type V = T;

    /// The contained value.
    closed spec fn view(&self) -> T {
        self.0
    }
}

/// Two numbers whose contained values stand for the same number are the
/// same number.
pub proof fn lemma_equal_by_value<T: Unsigned>(x: SaturatingNumber<T>, y: SaturatingNumber<T>)
    requires
        x@.value() == y@.value(),
    ensures
        x == y,
{
    crate::unsigned::lemma_equal_by_value(x.0, y.0);
}

impl<T> From<T> for SaturatingNumber<T> {
    /// Wraps `input` unchanged.
    fn from(input: T) -> (number: Self)
        ensures
            number@ == input,
    {
        Self(input)
    }
}

impl<T> vstd::std_specs::convert::FromSpecImpl<T> for SaturatingNumber<T> {
    open spec fn obeys_from_spec() -> bool {
        true
    }

    closed spec fn from_spec(input: T) -> Self {
        SaturatingNumber(input)
    }
}

impl<T: Add<Output = T> + HasSaturatingAdd> Add for SaturatingNumber<T> {
    type Output = Self;

    /// The sum of the two contained values, clamped at `T`'s ceiling.
    fn add(self, rhs: Self) -> (sum: Self)
        ensures
            sum@.value() == clamped_sum(self@.value(), rhs@.value(), T::max_value()),
    {
        let sum = Self(self.0.do_saturating_add(rhs.0));
        proof {
            sum.0.lemma_from_value_of_value();
        }
        sum
    }
}

impl<T: Add<Output = T> + HasSaturatingAdd> vstd::std_specs::ops::AddSpecImpl
    for SaturatingNumber<T> {
    open spec fn obeys_add_spec() -> bool {
        true
    }

    open spec fn add_req(self, rhs: Self) -> bool {
        true
    }

    closed spec fn add_spec(self, rhs: Self) -> Self {
        SaturatingNumber(
            T::from_value(clamped_sum(self.0.value(), rhs.0.value(), T::max_value())),
        )
    }
}

/// What `+` gives, by the contained values.
pub proof fn lemma_add_spec<T: Add<Output = T> + HasSaturatingAdd>(
    x: SaturatingNumber<T>,
    y: SaturatingNumber<T>,
)
    ensures
        x.add_spec(y)@.value() == clamped_sum(x@.value(), y@.value(), T::max_value()),
{
    x@.lemma_value_in_range();
    T::lemma_value_of_from_value(clamped_sum(x@.value(), y@.value(), T::max_value()));
}

impl<T: Add<Output = T> + HasSaturatingAdd> AddAssign for SaturatingNumber<T> {
    /// Replaces the receiver by its clamped sum with `rhs`.
    fn add_assign(&mut self, rhs: Self)
        ensures
            *final(self) == old(self).add_spec(rhs),
            final(self)@.value() == clamped_sum(
                old(self)@.value(),
                rhs@.value(),
                T::max_value(),
            ),
    {
        self.0 = self.0.do_saturating_add(rhs.0);
        proof {
            self.0.lemma_from_value_of_value();
        }
    }
}

impl<T: Sub<Output = T> + HasSaturatingSub> Sub for SaturatingNumber<T> {
    type Output = Self;

    /// The difference of the two contained values, clamped at zero.
    fn sub(self, rhs: Self) -> (difference: Self)
        ensures
            difference@.value() == clamped_difference(self@.value(), rhs@.value()),
    {
        let difference = Self(self.0.do_saturating_sub(rhs.0));
        proof {
            difference.0.lemma_from_value_of_value();
        }
        difference
    }
}

impl<T: Sub<Output = T> + HasSaturatingSub> vstd::std_specs::ops::SubSpecImpl
    for SaturatingNumber<T> {
    open spec fn obeys_sub_spec() -> bool {
        true
    }

    open spec fn sub_req(self, rhs: Self) -> bool {
        true
    }

    closed spec fn sub_spec(self, rhs: Self) -> Self {
        SaturatingNumber(T::from_value(clamped_difference(self.0.value(), rhs.0.value())))
    }
}

/// What `-` gives, by the contained values.
pub proof fn lemma_sub_spec<T: Sub<Output = T> + HasSaturatingSub>(
    x: SaturatingNumber<T>,
    y: SaturatingNumber<T>,
)
    ensures
        x.sub_spec(y)@.value() == clamped_difference(x@.value(), y@.value()),
{
    x@.lemma_value_in_range();
    T::lemma_value_of_from_value(clamped_difference(x@.value(), y@.value()));
}

impl<T: Sub<Output = T> + HasSaturatingSub> SubAssign for SaturatingNumber<T> {
    /// Replaces the receiver by its clamped difference with `rhs`.
    fn sub_assign(&mut self, rhs: Self)
        ensures
            *final(self) == old(self).sub_spec(rhs),
            final(self)@.value() == clamped_difference(old(self)@.value(), rhs@.value()),
    {
        self.0 = self.0.do_saturating_sub(rhs.0);
        proof {
            self.0.lemma_from_value_of_value();
        }
    }
}

impl<T: Mul<Output = T> + HasSaturatingMul> Mul for SaturatingNumber<T> {
    type Output = Self;

    /// The product of the two contained values, clamped at `T`'s ceiling.
    fn mul(self, rhs: Self) -> (product: Self)
        ensures
            product@.value() == clamped_product(self@.value(), rhs@.value(), T::max_value()),
    {
        let product = Self(self.0.do_saturating_mul(rhs.0));
        proof {
            product.0.lemma_from_value_of_value();
        }
        product
    }
}

impl<T: Mul<Output = T> + HasSaturatingMul> vstd::std_specs::ops::MulSpecImpl
    for SaturatingNumber<T> {
    open spec fn obeys_mul_spec() -> bool {
        true
    }

    open spec fn mul_req(self, rhs: Self) -> bool {
        true
    }

    closed spec fn mul_spec(self, rhs: Self) -> Self {
        SaturatingNumber(
            T::from_value(clamped_product(self.0.value(), rhs.0.value(), T::max_value())),
        )
    }
}

/// What `*` gives, by the contained values.
pub proof fn lemma_mul_spec<T: Mul<Output = T> + HasSaturatingMul>(
    x: SaturatingNumber<T>,
    y: SaturatingNumber<T>,
)
    ensures
        x.mul_spec(y)@.value() == clamped_product(x@.value(), y@.value(), T::max_value()),
{
    T::lemma_value_of_from_value(clamped_product(x@.value(), y@.value(), T::max_value()));
}

impl<T: Mul<Output = T> + HasSaturatingMul> MulAssign for SaturatingNumber<T> {
    /// Replaces the receiver by its clamped product with `rhs`.
    fn mul_assign(&mut self, rhs: Self)
        ensures
            *final(self) == old(self).mul_spec(rhs),
            final(self)@.value() == clamped_product(
                old(self)@.value(),
                rhs@.value(),
                T::max_value(),
            ),
    {
        self.0 = self.0.do_saturating_mul(rhs.0);
        proof {
            self.0.lemma_from_value_of_value();
        }
    }
}

impl<T: PartialEq> PartialEq for SaturatingNumber<T> {
    /// Equal exactly when the contained values are.
    fn eq(&self, other: &Self) -> (equal: bool)
        ensures
            T::obeys_eq_spec() ==> equal == self@.eq_spec(&other@),
    {
        self.0 == other.0
    }
}

impl<T: PartialEq> vstd::std_specs::cmp::PartialEqSpecImpl for SaturatingNumber<T> {
    open spec fn obeys_eq_spec() -> bool {
        T::obeys_eq_spec()
    }

    open spec fn eq_spec(&self, other: &Self) -> bool {
        self@.eq_spec(&other@)
    }
}

impl<T: PartialOrd> PartialOrd for SaturatingNumber<T> {
    /// Ordered exactly as the contained values are.
    fn partial_cmp(&self, other: &Self) -> (order: Option<Ordering>)
        ensures
            T::obeys_partial_cmp_spec() ==> order == self@.partial_cmp_spec(&other@),
    {
        self.0.partial_cmp(&other.0)
    }
}

impl<T: PartialOrd> vstd::std_specs::cmp::PartialOrdSpecImpl for SaturatingNumber<T> {
    open spec fn obeys_partial_cmp_spec() -> bool {
        T::obeys_partial_cmp_spec()
    }

    open spec fn partial_cmp_spec(&self, other: &Self) -> Option<Ordering> {
        self@.partial_cmp_spec(&other@)
    }
}

/// `std::fmt::Formatter`, declared so that `fmt` can name it. Nothing is
/// claimed of it: a formatter is handed on to `T`'s own `fmt` and never read.
#[verifier::external_type_specification]
#[verifier::external_body]
pub struct ExFormatter<'a>(std::fmt::Formatter<'a>);

/// `std::fmt::Error`, declared so that `fmt` can return it. Nothing is
/// claimed of it.
#[verifier::external_type_specification]
#[verifier::external_body]
pub struct ExFmtError(std::fmt::Error);

impl<T: std::fmt::Debug> std::fmt::Debug for SaturatingNumber<T> {
    /// Writes the contained value as `T`'s own `Debug` does, with nothing
    /// around it.
    ///
    /// Not verified: the body hands the contained value to std's `write!`,
    /// which calls `<T as Debug>::fmt`. The contract claims nothing of what
    /// is written or returned.
    #[verifier::external_body]
    fn fmt(&self, f: &mut std::fmt::Formatter<'_>) -> (written: Result<(), std::fmt::Error>) {
        write!(f, "{:?}", self.0)
    }
}

} // verus!
