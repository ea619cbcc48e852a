//! The timed integrators for a caller that lends the derivative function:
//! each runs one method to completion on the calling thread and reports
//! the state reached together with the wall-clock time the run took.

use crate::clock::{elapsed_ns, precise_time_ns};
use crate::scalar::{arithmetic_exact, arithmetic_total, Scalar};
use crate::stepping::{
    accepts_all, deterministic, euler_steps, heun_steps, reaches, runge_kutta_steps, value_after,
    Method,
};
use vstd::prelude::*;

verus! {

/// Explicit Euler: `steps` steps of size `h` from state `y0` at time `t0`,
/// each `y + h * de(t, y)`. Returns the state reached and the nanoseconds
/// the run took; the clock is read before the first step and after the
/// last, never in between.
pub fn euler_method<S: Scalar, F: Fn(S, S) -> S>(y0: S, t0: S, steps: usize, h: S, de: &F) -> (r: (
    S,
    u64,
))
    requires
        arithmetic_total::<S>(),
        accepts_all(de),
    ensures
        arithmetic_exact::<S>() ==> reaches(Method::Euler, de, y0, t0, h, steps as nat, r.0),
        arithmetic_exact::<S>() && deterministic(de) ==> r.0 == value_after(
            Method::Euler,
            de,
            y0,
            t0,
            h,
            steps as nat,
        ),
{
    let start: u64 = precise_time_ns();
    let run = euler_steps(y0, t0, steps, h, de);
    let end: u64 = precise_time_ns();
    (run.state, elapsed_ns(start, end))
}

/// Heun's method, also known as improved Euler: `steps` steps of size `h`
/// from state `y0` at time `t0`, each averaging the slope at the start of
/// the step and the slope at the Euler prediction of its end. Returns the
/// state reached and the nanoseconds the run took.
pub fn improved_euler<S: Scalar, F: Fn(S, S) -> S>(
    y0: S,
    t0: S,
    steps: usize,
    h: S,
    de: &F,
) -> (r: (S, u64))
    requires
        arithmetic_total::<S>(),
        accepts_all(de),
    ensures
        arithmetic_exact::<S>() ==> reaches(Method::Heun, de, y0, t0, h, steps as nat, r.0),
        arithmetic_exact::<S>() && deterministic(de) ==> r.0 == value_after(
            Method::Heun,
            de,
            y0,
            t0,
            h,
            steps as nat,
        ),
{
    let start: u64 = precise_time_ns();
    let run = heun_steps(y0, t0, steps, h, de);
    let end: u64 = precise_time_ns();
    (run.state, elapsed_ns(start, end))
}

/// The classical Runge-Kutta method of order four: `steps` steps of size
/// `h` from state `y0` at time `t0`, each weighting four slopes. Returns
/// the state reached and the nanoseconds the run took.
pub fn runge_kutta<S: Scalar, F: Fn(S, S) -> S>(y0: S, t0: S, steps: usize, h: S, de: &F) -> (r: (
    S,
    u64,
))
    requires
        arithmetic_total::<S>(),
        accepts_all(de),
    ensures
        arithmetic_exact::<S>() ==> reaches(Method::RungeKutta, de, y0, t0, h, steps as nat, r.0),
        arithmetic_exact::<S>() && deterministic(de) ==> r.0 == value_after(
            Method::RungeKutta,
            de,
            y0,
            t0,
            h,
            steps as nat,
        ),
{
    let start: u64 = precise_time_ns();
    let run = runge_kutta_steps(y0, t0, steps, h, de);
    let end: u64 = precise_time_ns();
    (run.state, elapsed_ns(start, end))
}

} // verus!
