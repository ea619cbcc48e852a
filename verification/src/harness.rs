//! Running the three methods under two policies and comparing the cost.
//!
//! Under the serial policy the methods run back to back on the calling
//! thread, and the cost is the sum of the three running times. Under the
//! concurrent policy each method runs on a worker of its own; the caller
//! starts and joins the workers and hands over what they returned, with
//! the clock readings taken at dispatch and after the last join, and the
//! cost is the time between the two readings.

use crate::clock::{elapsed_ns, nanos_between};
use crate::scalar::{arithmetic_exact, arithmetic_total, Scalar};
use crate::serial_funcs::{euler_method, improved_euler, runge_kutta};
use crate::stepping::{accepts_all, deterministic, reaches, value_after, Method};
use vstd::prelude::*;

verus! {

/// Why the harness has no report to give.
#[derive(Clone, Copy, Debug, PartialEq, Eq, Structural)]
pub enum HarnessError {
    /// The step size is not positive, or the end time is not after the
    /// start time.
    InvalidConfiguration,
    /// The worker running the named method ended without a result.
    WorkerFailure(Method),
}

/// What the serial policy produced: for each method the state reached and
/// the nanoseconds its run took.
#[derive(Debug)]
pub struct SerialReport<S> {
    pub euler: (S, u64),
    pub heun: (S, u64),
    pub runge_kutta: (S, u64),
}

/// What the concurrent policy produced: for each method the state reached
/// and the nanoseconds its run took on its worker, and the nanoseconds
/// from dispatching the first worker to joining the last.
#[derive(Debug)]
pub struct ConcurrentReport<S> {
    pub euler: (S, u64),
    pub heun: (S, u64),
    pub runge_kutta: (S, u64),
    pub wall_ns: u64,
}

impl<S> SerialReport<S> {
    /// The cost of the serial policy: the three running times added up.
    pub open spec fn total(self) -> int {
        self.euler.1 + self.heun.1 + self.runge_kutta.1
    }

    /// The cost of the serial policy in nanoseconds.
    pub fn total_ns(&self) -> (total: u128)
        ensures
            total == self.total(),
    {
        self.euler.1 as u128 + self.heun.1 as u128 + self.runge_kutta.1 as u128
    }
}

impl<S> ConcurrentReport<S> {
    /// The cost of the concurrent policy: the wall-clock time from
    /// dispatch to the last join.
    pub open spec fn total(self) -> int {
        self.wall_ns as int
    }

    /// The cost of the concurrent policy in nanoseconds.
    pub fn total_ns(&self) -> (total: u128)
        ensures
            total == self.total(),
    {
        self.wall_ns as u128
    }
}

/// The three states are states that `n` steps of Euler, of Heun and of
/// Runge-Kutta may reach from state `y0` at time `t0`.
pub open spec fn all_reach<S: Scalar, F: Fn(S, S) -> S>(
    de: &F,
    y0: S,
    t0: S,
    h: S,
    n: nat,
    euler: S,
    heun: S,
    runge_kutta: S,
) -> bool {
    &&& reaches(Method::Euler, de, y0, t0, h, n, euler)
    &&& reaches(Method::Heun, de, y0, t0, h, n, heun)
    &&& reaches(Method::RungeKutta, de, y0, t0, h, n, runge_kutta)
}

/// The three states are the states after `n` steps of Euler, of Heun and
/// of Runge-Kutta from state `y0` at time `t0`.
pub open spec fn all_values<S: Scalar, F: Fn(S, S) -> S>(
    de: &F,
    y0: S,
    t0: S,
    h: S,
    n: nat,
    euler: S,
    heun: S,
    runge_kutta: S,
) -> bool {
    &&& euler == value_after(Method::Euler, de, y0, t0, h, n)
    &&& heun == value_after(Method::Heun, de, y0, t0, h, n)
    &&& runge_kutta == value_after(Method::RungeKutta, de, y0, t0, h, n)
}

/// The serial policy: runs Euler, Heun and Runge-Kutta one after the other
/// on the calling thread, each for `steps` steps of size `h` from state
/// `y0` at time `t0`.
pub fn run_serial<S: Scalar, F: Fn(S, S) -> S>(y0: S, t0: S, steps: usize, h: S, de: &F) -> (report:
    SerialReport<S>)
    requires
        arithmetic_total::<S>(),
        accepts_all(de),
    ensures
        arithmetic_exact::<S>() ==> all_reach(
            de,
            y0,
            t0,
            h,
            steps as nat,
            report.euler.0,
            report.heun.0,
            report.runge_kutta.0,
        ),
        arithmetic_exact::<S>() && deterministic(de) ==> all_values(
            de,
            y0,
            t0,
            h,
            steps as nat,
            report.euler.0,
            report.heun.0,
            report.runge_kutta.0,
        ),
{
    let euler = euler_method(y0, t0, steps, h, de);
    let heun = improved_euler(y0, t0, steps, h, de);
    let fourth_order = runge_kutta(y0, t0, steps, h, de);
    SerialReport { euler, heun, runge_kutta: fourth_order }
}

/// The first method, in the order Euler, Heun, Runge-Kutta, whose worker
/// returned nothing.
pub open spec fn first_failure<S>(
    euler: Option<(S, u64)>,
    heun: Option<(S, u64)>,
    runge_kutta: Option<(S, u64)>,
) -> Option<Method> {
    if euler is None {
        Some(Method::Euler)
    } else if heun is None {
        Some(Method::Heun)
    } else if runge_kutta is None {
        Some(Method::RungeKutta)
    } else {
        None
    }
}

/// What the concurrent policy reports for what the workers returned: the
/// failure of the first method without a result, or else the three results
/// with the time from the reading `dispatched_ns` to the reading
/// `joined_ns`.
pub open spec fn collection_of<S>(
    euler: Option<(S, u64)>,
    heun: Option<(S, u64)>,
    runge_kutta: Option<(S, u64)>,
    dispatched_ns: u64,
    joined_ns: u64,
) -> Result<ConcurrentReport<S>, HarnessError> {
    match first_failure(euler, heun, runge_kutta) {
        Some(method) => Err(HarnessError::WorkerFailure(method)),
        None => Ok(
            ConcurrentReport {
                euler: euler->0,
                heun: heun->0,
                runge_kutta: runge_kutta->0,
                wall_ns: nanos_between(dispatched_ns, joined_ns),
            },
        ),
    }
}

/// The concurrent policy, after the workers have been joined. Each
/// argument is what one worker returned, or `None` where the worker ended
/// without a result; `dispatched_ns` and `joined_ns` are the clock readings
/// taken before the first worker was started and after the last was
/// joined. A missing result is reported as the failure of its method and
/// never replaced by a value.
pub fn collect_concurrent<S>(
    euler: Option<(S, u64)>,
    heun: Option<(S, u64)>,
    runge_kutta: Option<(S, u64)>,
    dispatched_ns: u64,
    joined_ns: u64,
) -> (collected: Result<ConcurrentReport<S>, HarnessError>)
    ensures
        collected == collection_of(euler, heun, runge_kutta, dispatched_ns, joined_ns),
{
    match euler {
        None => Err(HarnessError::WorkerFailure(Method::Euler)),
        Some(euler) => match heun {
            None => Err(HarnessError::WorkerFailure(Method::Heun)),
            Some(heun) => match runge_kutta {
                None => Err(HarnessError::WorkerFailure(Method::RungeKutta)),
                Some(runge_kutta) => Ok(
                    ConcurrentReport {
                        euler,
                        heun,
                        runge_kutta,
                        wall_ns: elapsed_ns(dispatched_ns, joined_ns),
                    },
                ),
            },
        },
    }
}

/// What running the methods concurrently saved: the cost of the serial
/// policy less the cost of the concurrent policy. Negative where the
/// concurrent policy was the slower one.
pub open spec fn gain_of<S>(serial: SerialReport<S>, concurrent: ConcurrentReport<S>) -> int {
    serial.total() - concurrent.total()
}

/// The benefit of concurrency in nanoseconds: the cost of the serial
/// policy less the cost of the concurrent policy.
pub fn threading_gain<S>(serial: &SerialReport<S>, concurrent: &ConcurrentReport<S>) -> (gain:
    i128)
    ensures
        gain == gain_of(*serial, *concurrent),
{
    let serial_total: u128 = serial.total_ns();
    let concurrent_total: u128 = concurrent.total_ns();
    serial_total as i128 - concurrent_total as i128
}

} // verus!
