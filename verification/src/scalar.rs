//! The numbers the integrators compute with.
//!
//! The integrators never look inside a state value: they add, multiply and
//! divide, and they need the constants two and six. Any copyable type that
//! offers these through the standard operator traits can be integrated
//! over, machine floating point first of all.
//!
//! Contracts speak of the operators through the spec functions that `vstd`
//! attaches to the operator traits (`add_spec`, `mul_spec`, `div_spec`,
//! `from_spec`). What an integrator returns is stated for the types whose
//! operators are bound to these spec functions; of any other type only that
//! the run ends.

use std::ops::{Add, Div, Mul};
use vstd::prelude::*;
use vstd::std_specs::convert::FromSpec;
use vstd::std_specs::ops::{AddSpec, DivSpec, MulSpec};

verus! {

/// A value of the state variable, of time, or of a step size.
///
/// Implemented for every type that has the operators; nothing else can
/// implement it.
pub trait Scalar: Copy + Add<Output = Self> + Mul<Output = Self> + Div<Output = Self> + From<
    u8,
> {

}

impl<T> Scalar for T where
    T: Copy + Add<Output = T> + Mul<Output = T> + Div<Output = T> + From<u8>,
 {

}

/// Every sum, product and quotient of two values of `S` may be computed:
/// no operator of `S` rejects an operand. An anomalous operand (an overflow,
/// a division by zero) has to yield a value of `S`, not a failure.
pub open spec fn arithmetic_total<S: Scalar>() -> bool {
    &&& forall|a: S, b: S| #[trigger] a.add_req(b)
    &&& forall|a: S, b: S| #[trigger] a.mul_req(b)
    &&& forall|a: S, b: S| #[trigger] a.div_req(b)
}

/// The operators of `S`, and its conversion from a small integer, compute
/// exactly what their spec functions say.
pub open spec fn arithmetic_exact<S: Scalar>() -> bool {
    &&& S::obeys_add_spec()
    &&& S::obeys_mul_spec()
    &&& S::obeys_div_spec()
    &&& S::obeys_from_spec()
}

/// Half of the step size `h`: `h / 2`.
pub open spec fn half<S: Scalar>(h: S) -> S {
    h.div_spec(S::from_spec(2u8))
}

/// A sixth of the step size `h`: `h / 6`.
pub open spec fn sixth<S: Scalar>(h: S) -> S {
    h.div_spec(S::from_spec(6u8))
}

/// Twice the slope `k`: `2 * k`.
pub open spec fn twice<S: Scalar>(k: S) -> S {
    S::from_spec(2u8).mul_spec(k)
}

/// The time reached from `t0` by adding the step size `h` to it `i` times,
/// one addition after the other.
pub open spec fn time_after<S: Scalar>(t0: S, h: S, i: nat) -> S
    decreases i,
{
    if i == 0 {
        t0
    } else {
        time_after(t0, h, (i - 1) as nat).add_spec(h)
    }
}

} // verus!
