//! The timed integrators for a worker thread: each takes a share of the
//! derivative function, which stays alive until the last worker holding a
//! share has finished, and is otherwise the integrator of the same name
//! for a borrowed derivative function.

use crate::clock::{elapsed_ns, precise_time_ns};
use crate::scalar::{arithmetic_exact, arithmetic_total, Scalar};
use crate::stepping::{
    accepts_all, deterministic, euler_steps, heun_steps, reaches, runge_kutta_steps, value_after,
    Method,
};
use std::sync::Arc;
use vstd::prelude::*;

verus! {

/// Explicit Euler on a shared derivative function: `steps` steps of size
/// `h` from state `y0` at time `t0`. Returns the state reached and the
/// nanoseconds the run took.
pub fn euler_method<S: Scalar, F: Fn(S, S) -> S>(
    y0: S,
    t0: S,
    steps: usize,
    h: S,
    de: Arc<F>,
) -> (r: (S, u64))
    requires
        arithmetic_total::<S>(),
        accepts_all(&*de),
    ensures
        arithmetic_exact::<S>() ==> reaches(Method::Euler, &*de, y0, t0, h, steps as nat, r.0),
        arithmetic_exact::<S>() && deterministic(&*de) ==> r.0 == value_after(
            Method::Euler,
            &*de,
            y0,
            t0,
            h,
            steps as nat,
        ),
{
    let start: u64 = precise_time_ns();
    let run = euler_steps(y0, t0, steps, h, &*de);
    let end: u64 = precise_time_ns();
    (run.state, elapsed_ns(start, end))
}

/// Heun's method on a shared derivative function: `steps` steps of size
/// `h` from state `y0` at time `t0`. Returns the state reached and the
/// nanoseconds the run took.
pub fn improved_euler<S: Scalar, F: Fn(S, S) -> S>(
    y0: S,
    t0: S,
    steps: usize,
    h: S,
    de: Arc<F>,
) -> (r: (S, u64))
    requires
        arithmetic_total::<S>(),
        accepts_all(&*de),
    ensures
        arithmetic_exact::<S>() ==> reaches(Method::Heun, &*de, y0, t0, h, steps as nat, r.0),
        arithmetic_exact::<S>() && deterministic(&*de) ==> r.0 == value_after(
            Method::Heun,
            &*de,
            y0,
            t0,
            h,
            steps as nat,
        ),
{
    let start: u64 = precise_time_ns();
    let run = heun_steps(y0, t0, steps, h, &*de);
    let end: u64 = precise_time_ns();
    (run.state, elapsed_ns(start, end))
}

/// The classical Runge-Kutta method on a shared derivative function:
/// `steps` steps of size `h` from state `y0` at time `t0`. Returns the
/// state reached and the nanoseconds the run took.
pub fn runge_kutta<S: Scalar, F: Fn(S, S) -> S>(
    y0: S,
    t0: S,
    steps: usize,
    h: S,
    de: Arc<F>,
) -> (r: (S, u64))
    requires
        arithmetic_total::<S>(),
        accepts_all(&*de),
    ensures
        arithmetic_exact::<S>() ==> reaches(
            Method::RungeKutta,
            &*de,
            y0,
            t0,
            h,
            steps as nat,
            r.0,
        ),
        arithmetic_exact::<S>() && deterministic(&*de) ==> r.0 == value_after(
            Method::RungeKutta,
            &*de,
            y0,
            t0,
            h,
            steps as nat,
        ),
{
    let start: u64 = precise_time_ns();
    let run = runge_kutta_steps(y0, t0, steps, h, &*de);
    let end: u64 = precise_time_ns();
    (run.state, elapsed_ns(start, end))
}

} // verus!
