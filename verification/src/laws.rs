//! Laws that hold of every method, derivative function and input.

use crate::harness::{all_reach, gain_of, ConcurrentReport, SerialReport};
use crate::scalar::{time_after, Scalar};
use crate::stepping::{
    deterministic, equivalent, lemma_run_extends, lemma_run_is_value, lemma_run_transfers,
    reaches, step_reaches, Method,
};
use vstd::prelude::*;

verus! {

/// A run of no steps stays where it started: the state reached is the
/// initial state, whatever the method and the derivative function.
pub proof fn law_no_step<S: Scalar, F: Fn(S, S) -> S>(
    method: Method,
    de: &F,
    y0: S,
    t0: S,
    h: S,
    y: S,
)
    ensures
        reaches(method, de, y0, t0, h, 0, y) <==> y == y0,
{
}

/// A run of one step, as when the step size is the whole interval, is
/// exactly one step of the method, taken from the initial state at the
/// initial time.
pub proof fn law_single_step<S: Scalar, F: Fn(S, S) -> S>(
    method: Method,
    de: &F,
    y0: S,
    t0: S,
    h: S,
    y: S,
)
    ensures
        reaches(method, de, y0, t0, h, 1, y) <==> step_reaches(method, de, h, t0, y0, y),
{
    assert(time_after(t0, h, 0) == t0);
    if reaches(method, de, y0, t0, h, 1, y) {
        let before = choose|before: S|
            reaches(method, de, y0, t0, h, 0, before) && #[trigger] step_reaches(
                method,
                de,
                h,
                time_after(t0, h, 0),
                before,
                y,
            );
        assert(before == y0);
    }
    if step_reaches(method, de, h, t0, y0, y) {
        lemma_run_extends(method, de, y0, t0, h, 0, y0, y);
    }
}

/// Determinism: with a deterministic derivative function, two runs of one
/// method on the same inputs reach the same state, wherever and whenever
/// they are carried out. The two runs may each have a derivative function
/// of their own, as long as the two compute the same.
pub proof fn law_runs_agree<S: Scalar, F: Fn(S, S) -> S, G: Fn(S, S) -> S>(
    method: Method,
    f: &F,
    g: &G,
    y0: S,
    t0: S,
    h: S,
    n: nat,
    first: S,
    second: S,
)
    requires
        deterministic(f),
        equivalent(f, g),
        reaches(method, f, y0, t0, h, n, first),
        reaches(method, g, y0, t0, h, n, second),
    ensures
        first == second,
{
    lemma_run_transfers(method, g, f, y0, t0, h, n, second);
    lemma_run_is_value(method, f, y0, t0, h, n, first);
    lemma_run_is_value(method, f, y0, t0, h, n, second);
}

/// The two policies agree: with a deterministic derivative function, the
/// states that the serial policy reports and the states that the workers
/// of the concurrent policy report for the same inputs are the same,
/// method by method, also where the workers share a derivative function
/// that was built apart from the serial one and computes the same. Only
/// the running times differ.
pub proof fn law_policies_agree<S: Scalar, F: Fn(S, S) -> S, G: Fn(S, S) -> S>(
    f: &F,
    g: &G,
    y0: S,
    t0: S,
    h: S,
    n: nat,
    serial: SerialReport<S>,
    concurrent: ConcurrentReport<S>,
)
    requires
        deterministic(f),
        equivalent(f, g),
        all_reach(f, y0, t0, h, n, serial.euler.0, serial.heun.0, serial.runge_kutta.0),
        all_reach(
            g,
            y0,
            t0,
            h,
            n,
            concurrent.euler.0,
            concurrent.heun.0,
            concurrent.runge_kutta.0,
        ),
    ensures
        serial.euler.0 == concurrent.euler.0,
        serial.heun.0 == concurrent.heun.0,
        serial.runge_kutta.0 == concurrent.runge_kutta.0,
{
    law_runs_agree(Method::Euler, f, g, y0, t0, h, n, serial.euler.0, concurrent.euler.0);
    law_runs_agree(Method::Heun, f, g, y0, t0, h, n, serial.heun.0, concurrent.heun.0);
    law_runs_agree(
        Method::RungeKutta,
        f,
        g,
        y0,
        t0,
        h,
        n,
        serial.runge_kutta.0,
        concurrent.runge_kutta.0,
    );
}

/// The gain and the two costs balance: the cost of the serial policy is the
/// cost of the concurrent policy plus what running concurrently saved, and
/// the serial cost is the sum of the three serial running times.
pub proof fn law_costs_balance<S>(serial: SerialReport<S>, concurrent: ConcurrentReport<S>)
    ensures
        serial.total() == serial.euler.1 + serial.heun.1 + serial.runge_kutta.1,
        serial.total() == concurrent.total() + gain_of(serial, concurrent),
        0 <= serial.total() <= 3 * u64::MAX,
        0 <= concurrent.total() <= u64::MAX,
{
}

} // verus!
