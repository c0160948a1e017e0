//! The value algebra: the arithmetic that every numeric value type of the
//! library offers, as the std operator traits, so that the indicators can be
//! written once for all of them.
//!
//! A value type adds and subtracts its own kind, is multiplied and divided by
//! a plain scalar (a weight, a smoothing factor, the stored fraction of a
//! percentage, a count), and is made from a scalar. Contracts state results
//! through the operators' spec functions (`add_spec`, `div_spec`, ...), on the
//! condition that the types obey them (`obeys_algebra`). Floating-point
//! operators make no such promise, so for them only what the contracts state
//! unconditionally (lengths, which elements are combined) is proved.
use vstd::prelude::*;

use core::ops::{Add, Div, Mul, Sub};
use vstd::std_specs::convert::FromSpec;
use vstd::std_specs::ops::{AddSpec, DivSpec, MulSpec, SubSpec};

verus! {

/// A plain number that values are scaled by (a weight, a smoothing factor,
/// the stored fraction of a percentage, a count): every copyable type made
/// from small integers that adds, multiplies and divides.
pub trait Scalar: Copy + From<u32> + Add<Self, Output = Self> + Mul<Self, Output = Self> + Div<
    Self,
    Output = Self,
> {

}

impl<S: Copy + From<u32> + Add<S, Output = S> + Mul<S, Output = S> + Div<S, Output = S>> Scalar for S {

}

/// A numeric value type of the algebra: a price, a point count, a percentage,
/// a bare number.
pub trait MarketValue: Copy + Add<Self, Output = Self> + Sub<Self, Output = Self> + Mul<
    <Self as MarketValue>::Scalar,
    Output = Self,
> + Div<<Self as MarketValue>::Scalar, Output = Self> + From<<Self as MarketValue>::Scalar> {
    /// The plain number that values are scaled by.
    type Scalar: Scalar;
}

/// The operators of the scalar `S` compute what their spec functions say.
pub open spec fn obeys_scalar<S: Scalar>() -> bool {
    &&& <S as FromSpec<u32>>::obeys_from_spec()
    &&& S::obeys_add_spec()
    &&& S::obeys_mul_spec()
    &&& S::obeys_div_spec()
}

/// The operators of `M` and of its scalar compute what their spec functions
/// say.
pub open spec fn obeys_algebra<M: MarketValue>() -> bool {
    &&& M::obeys_add_spec()
    &&& M::obeys_sub_spec()
    &&& M::obeys_mul_spec()
    &&& M::obeys_div_spec()
    &&& <M as FromSpec<M::Scalar>>::obeys_from_spec()
    &&& obeys_scalar::<M::Scalar>()
}

/// No operator of the scalar `S` has a precondition.
pub open spec fn total_scalar<S: Scalar>() -> bool {
    &&& forall|s: S, t: S| #[trigger] s.add_req(t)
    &&& forall|s: S, t: S| #[trigger] s.mul_req(t)
    &&& forall|s: S, t: S| #[trigger] s.div_req(t)
}

/// No operator of `M` or of its scalar has a precondition: like floating-point
/// arithmetic, each is defined on all operands.
pub open spec fn total_algebra<M: MarketValue>() -> bool {
    &&& forall|a: M, b: M| #[trigger] a.add_req(b)
    &&& forall|a: M, b: M| #[trigger] a.sub_req(b)
    &&& forall|a: M, s: M::Scalar| #[trigger] a.mul_req(s)
    &&& forall|a: M, s: M::Scalar| #[trigger] a.div_req(s)
    &&& total_scalar::<M::Scalar>()
}

/// The scalar made from a small integer.
pub open spec fn spec_scalar<S: Scalar>(n: u32) -> S {
    <S as FromSpec<u32>>::from_spec(n)
}

/// The value zero: the value made from the scalar zero.
pub open spec fn spec_zero<M: MarketValue>() -> M {
    <M as FromSpec<M::Scalar>>::from_spec(spec_scalar::<M::Scalar>(0))
}

/// A count as a scalar, put together from its two 32-bit halves:
/// `high * 65536 * 65536 + low`.
pub open spec fn spec_count<S: Scalar>(count: nat) -> S {
    let high = (count / 0x1_0000_0000) as u32;
    let low = (count % 0x1_0000_0000) as u32;
    spec_scalar::<S>(high).mul_spec(spec_scalar::<S>(65536)).mul_spec(spec_scalar::<S>(65536)).add_spec(
        spec_scalar::<S>(low),
    )
}

/// What adding a relative change to `value` gives: `value + value * fraction`.
pub open spec fn spec_add_relative<M: MarketValue>(value: M, fraction: M::Scalar) -> M {
    value.add_spec(value.mul_spec(fraction))
}

/// What subtracting a relative change from `value` gives:
/// `value - value * fraction`.
pub open spec fn spec_sub_relative<M: MarketValue>(value: M, fraction: M::Scalar) -> M {
    value.sub_spec(value.mul_spec(fraction))
}

/// The value zero.
pub fn zero<M: MarketValue>() -> (r: M)
    ensures
        obeys_algebra::<M>() ==> r == spec_zero::<M>(),
{
    let z = <M::Scalar as From<u32>>::from(0u32);
    <M as From<M::Scalar>>::from(z)
}

/// A count as a scalar. For a floating-point scalar this is the count rounded
/// once, as a cast would give it.
pub fn count_scalar<S: Scalar>(count: usize) -> (r: S)
    requires
        total_scalar::<S>(),
    ensures
        obeys_scalar::<S>() ==> r == spec_count::<S>(count as nat),
{
    let wide = count as u64;
    let high = (wide / 0x1_0000_0000u64) as u32;
    let low = (wide % 0x1_0000_0000u64) as u32;
    let shift = <S as From<u32>>::from(65536u32);
    let high_part = <S as From<u32>>::from(high) * shift * shift;
    high_part + <S as From<u32>>::from(low)
}

/// Adds a relative change (the stored fraction of a percentage) to a value: the
/// change is that fraction of the value itself, so adding 5% to 100 gives 105.
pub fn add_relative<M: MarketValue>(value: &M, fraction: M::Scalar) -> (r: M)
    requires
        total_algebra::<M>(),
    ensures
        obeys_algebra::<M>() ==> r == spec_add_relative(*value, fraction),
{
    let delta = *value * fraction;
    *value + delta
}

/// Subtracts a relative change (the stored fraction of a percentage) from a
/// value: the change is that fraction of the value itself.
pub fn sub_relative<M: MarketValue>(value: &M, fraction: M::Scalar) -> (r: M)
    requires
        total_algebra::<M>(),
    ensures
        obeys_algebra::<M>() ==> r == spec_sub_relative(*value, fraction),
{
    let delta = *value * fraction;
    *value - delta
}

} // verus!
