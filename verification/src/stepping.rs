//! The three stepping schemes: what one step computes, what a run of `n`
//! steps reaches, and the loops that carry a run out.
//!
//! A derivative function is any `Fn(S, S) -> S` that takes the time and the
//! state. Its postcondition need not determine its result, so a step is
//! stated as a relation: a state `next` is a possible successor of `y` when
//! slopes that the derivative function may return lead to it by the
//! scheme's formula. Where the derivative function is deterministic the
//! relation has one solution, which `value_after` names.
//!
//! A run also counts how often it evaluates the derivative function: once
//! per Euler step, twice per Heun step, four times per Runge-Kutta step.

use crate::scalar::{arithmetic_exact, arithmetic_total, half, sixth, time_after, twice, Scalar};
use vstd::prelude::*;
use vstd::std_specs::convert::FromSpec;
use vstd::std_specs::ops::{AddSpec, MulSpec};

verus! {

/// One of the three integration methods.
#[derive(Clone, Copy, Debug, PartialEq, Eq, Structural)]
pub enum Method {
    /// Explicit Euler: one slope per step.
    Euler,
    /// Heun's method, or improved Euler: a predictor and a corrector.
    Heun,
    /// The classical Runge-Kutta method of order four.
    RungeKutta,
}

/// What a run produced: the state reached, and how many times the
/// derivative function was evaluated on the way.
#[derive(Clone, Copy, Debug)]
pub struct Run<S> {
    pub state: S,
    pub evaluations: u128,
}

/// The evaluations of the derivative function that one step of `method`
/// takes.
pub open spec fn evaluations_per_step(method: Method) -> nat {
    match method {
        Method::Euler => 1,
        Method::Heun => 2,
        Method::RungeKutta => 4,
    }
}

/// The evaluations of the derivative function that `n` steps of `method`
/// take.
pub open spec fn evaluations_of(method: Method, n: nat) -> nat {
    n * evaluations_per_step(method)
}

/// The derivative function accepts every time and state.
pub open spec fn accepts_all<S: Scalar, F: Fn(S, S) -> S>(de: &F) -> bool {
    forall|t: S, y: S| #[trigger] de.requires((t, y))
}

/// The derivative function returns one value for each time and state.
pub open spec fn deterministic<S: Scalar, F: Fn(S, S) -> S>(de: &F) -> bool {
    forall|t: S, y: S, a: S, b: S|
        #[trigger] de.ensures((t, y), a) && #[trigger] de.ensures((t, y), b) ==> a == b
}

/// Two derivative functions compute the same: whatever one may return for
/// a time and a state, the other may return too.
pub open spec fn equivalent<S: Scalar, F: Fn(S, S) -> S, G: Fn(S, S) -> S>(f: &F, g: &G) -> bool {
    forall|t: S, y: S, k: S| #[trigger] f.ensures((t, y), k) <==> #[trigger] g.ensures((t, y), k)
}

/// The slope that the derivative function gives at time `t` and state `y`.
pub open spec fn slope<S: Scalar, F: Fn(S, S) -> S>(de: &F, t: S, y: S) -> S {
    choose|k: S| de.ensures((t, y), k)
}

/// Euler's update: `y + h * k1`.
pub open spec fn euler_update<S: Scalar>(h: S, y: S, k1: S) -> S {
    y.add_spec(h.mul_spec(k1))
}

/// Heun's update: `y + (h / 2) * (k1 + k2)`.
pub open spec fn heun_update<S: Scalar>(h: S, y: S, k1: S, k2: S) -> S {
    y.add_spec(half(h).mul_spec(k1.add_spec(k2)))
}

/// The Runge-Kutta update: `y + (h / 6) * (k1 + 2 * k2 + 2 * k3 + k4)`,
/// the sum taken from left to right.
pub open spec fn runge_kutta_update<S: Scalar>(h: S, y: S, k1: S, k2: S, k3: S, k4: S) -> S {
    y.add_spec(sixth(h).mul_spec(k1.add_spec(twice(k2)).add_spec(twice(k3)).add_spec(k4)))
}

/// The slopes of one Heun step from state `y` at time `t`: `k1` is a slope
/// at `(t, y)` and `k2` a slope at `(t + h, y + h * k1)`. The prediction
/// `y + h * k1` starts from the state the step began with.
pub open spec fn heun_slopes<S: Scalar, F: Fn(S, S) -> S>(
    de: &F,
    h: S,
    t: S,
    y: S,
    k1: S,
    k2: S,
) -> bool {
    &&& de.ensures((t, y), k1)
    &&& de.ensures((t.add_spec(h), euler_update(h, y, k1)), k2)
}

/// The slopes of one Runge-Kutta step from state `y` at time `t`: `k1` is
/// a slope at `(t, y)`, `k2` at `(t + h/2, y + (h/2) * k1)`, `k3` at
/// `(t + h/2, y + (h/2) * k2)` and `k4` at `(t + h, y + h * k3)`.
pub open spec fn runge_kutta_slopes<S: Scalar, F: Fn(S, S) -> S>(
    de: &F,
    h: S,
    t: S,
    y: S,
    k1: S,
    k2: S,
    k3: S,
    k4: S,
) -> bool {
    &&& de.ensures((t, y), k1)
    &&& de.ensures((t.add_spec(half(h)), euler_update(half(h), y, k1)), k2)
    &&& de.ensures((t.add_spec(half(h)), euler_update(half(h), y, k2)), k3)
    &&& de.ensures((t.add_spec(h), euler_update(h, y, k3)), k4)
}

/// `next` is a state that one Euler step of size `h` may reach from state
/// `y` at time `t`: `y + h * k1` for a slope `k1` at `(t, y)`.
pub open spec fn euler_step<S: Scalar, F: Fn(S, S) -> S>(
    de: &F,
    h: S,
    t: S,
    y: S,
    next: S,
) -> bool {
    exists|k1: S| #[trigger] de.ensures((t, y), k1) && next == euler_update(h, y, k1)
}

/// `next` is a state that one Heun step of size `h` may reach from state
/// `y` at time `t`.
pub open spec fn heun_step<S: Scalar, F: Fn(S, S) -> S>(
    de: &F,
    h: S,
    t: S,
    y: S,
    next: S,
) -> bool {
    exists|k1: S, k2: S|
        #[trigger] heun_slopes(de, h, t, y, k1, k2) && next == heun_update(h, y, k1, k2)
}

/// `next` is a state that one Runge-Kutta step of size `h` may reach from
/// state `y` at time `t`.
pub open spec fn runge_kutta_step<S: Scalar, F: Fn(S, S) -> S>(
    de: &F,
    h: S,
    t: S,
    y: S,
    next: S,
) -> bool {
    exists|k1: S, k2: S, k3: S, k4: S|
        #[trigger] runge_kutta_slopes(de, h, t, y, k1, k2, k3, k4) && next == runge_kutta_update(
            h,
            y,
            k1,
            k2,
            k3,
            k4,
        )
}

/// `next` is a state that one step of `method` may reach from `(t, y)`.
pub open spec fn step_reaches<S: Scalar, F: Fn(S, S) -> S>(
    method: Method,
    de: &F,
    h: S,
    t: S,
    y: S,
    next: S,
) -> bool {
    match method {
        Method::Euler => euler_step(de, h, t, y, next),
        Method::Heun => heun_step(de, h, t, y, next),
        Method::RungeKutta => runge_kutta_step(de, h, t, y, next),
    }
}

/// `y` is a state that `n` steps of `method` may reach from state `y0` at
/// time `t0`. There are exactly `n` steps, and the step that follows `i`
/// others is taken at the time `time_after(t0, h, i)`.
pub open spec fn reaches<S: Scalar, F: Fn(S, S) -> S>(
    method: Method,
    de: &F,
    y0: S,
    t0: S,
    h: S,
    n: nat,
    y: S,
) -> bool
    decreases n,
{
    if n == 0 {
        y == y0
    } else {
        exists|before: S|
            reaches(method, de, y0, t0, h, (n - 1) as nat, before) && #[trigger] step_reaches(
                method,
                de,
                h,
                time_after(t0, h, (n - 1) as nat),
                before,
                y,
            )
    }
}

/// The state after one step of `method` from `(t, y)`, with the slopes
/// that the derivative function gives.
pub open spec fn step_value<S: Scalar, F: Fn(S, S) -> S>(
    method: Method,
    de: &F,
    h: S,
    t: S,
    y: S,
) -> S {
    match method {
        Method::Euler => euler_update(h, y, slope(de, t, y)),
        Method::Heun => {
            let k1 = slope(de, t, y);
            let k2 = slope(de, t.add_spec(h), euler_update(h, y, k1));
            heun_update(h, y, k1, k2)
        },
        Method::RungeKutta => {
            let k1 = slope(de, t, y);
            let k2 = slope(de, t.add_spec(half(h)), euler_update(half(h), y, k1));
            let k3 = slope(de, t.add_spec(half(h)), euler_update(half(h), y, k2));
            let k4 = slope(de, t.add_spec(h), euler_update(h, y, k3));
            runge_kutta_update(h, y, k1, k2, k3, k4)
        },
    }
}

/// The state after `n` steps of `method` from state `y0` at time `t0`.
pub open spec fn value_after<S: Scalar, F: Fn(S, S) -> S>(
    method: Method,
    de: &F,
    y0: S,
    t0: S,
    h: S,
    n: nat,
) -> S
    decreases n,
{
    if n == 0 {
        y0
    } else {
        step_value(
            method,
            de,
            h,
            time_after(t0, h, (n - 1) as nat),
            value_after(method, de, y0, t0, h, (n - 1) as nat),
        )
    }
}

/// A deterministic derivative function leaves a step one outcome:
/// `step_value`.
pub proof fn lemma_step_is_value<S: Scalar, F: Fn(S, S) -> S>(
    method: Method,
    de: &F,
    h: S,
    t: S,
    y: S,
    next: S,
)
    requires
        deterministic(de),
        step_reaches(method, de, h, t, y, next),
    ensures
        next == step_value(method, de, h, t, y),
{
    match method {
        Method::Euler => {
            let k1 = choose|k1: S| #[trigger]
                de.ensures((t, y), k1) && next == euler_update(h, y, k1);
            assert(k1 == slope(de, t, y));
        },
        Method::Heun => {
            let (k1, k2) = choose|k1: S, k2: S|
                #[trigger] heun_slopes(de, h, t, y, k1, k2) && next == heun_update(h, y, k1, k2);
            assert(k1 == slope(de, t, y));
            assert(k2 == slope(de, t.add_spec(h), euler_update(h, y, k1)));
        },
        Method::RungeKutta => {
            let (k1, k2, k3, k4) = choose|k1: S, k2: S, k3: S, k4: S|
                #[trigger] runge_kutta_slopes(de, h, t, y, k1, k2, k3, k4) && next
                    == runge_kutta_update(h, y, k1, k2, k3, k4);
            let mid = t.add_spec(half(h));
            assert(k1 == slope(de, t, y));
            assert(k2 == slope(de, mid, euler_update(half(h), y, k1)));
            assert(k3 == slope(de, mid, euler_update(half(h), y, k2)));
            assert(k4 == slope(de, t.add_spec(h), euler_update(h, y, k3)));
        },
    }
}

/// A deterministic derivative function leaves a run one outcome:
/// `value_after`.
pub proof fn lemma_run_is_value<S: Scalar, F: Fn(S, S) -> S>(
    method: Method,
    de: &F,
    y0: S,
    t0: S,
    h: S,
    n: nat,
    y: S,
)
    requires
        deterministic(de),
        reaches(method, de, y0, t0, h, n, y),
    ensures
        y == value_after(method, de, y0, t0, h, n),
    decreases n,
{
    if n > 0 {
        let m = (n - 1) as nat;
        let before = choose|before: S|
            reaches(method, de, y0, t0, h, m, before) && #[trigger] step_reaches(
                method,
                de,
                h,
                time_after(t0, h, m),
                before,
                y,
            );
        lemma_run_is_value(method, de, y0, t0, h, m, before);
        lemma_step_is_value(method, de, h, time_after(t0, h, m), before, y);
    }
}

/// What one step may reach with a derivative function, it may reach with
/// any other that computes the same.
pub proof fn lemma_step_transfers<S: Scalar, F: Fn(S, S) -> S, G: Fn(S, S) -> S>(
    method: Method,
    f: &F,
    g: &G,
    h: S,
    t: S,
    y: S,
    next: S,
)
    requires
        equivalent(f, g),
        step_reaches(method, f, h, t, y, next),
    ensures
        step_reaches(method, g, h, t, y, next),
{
    match method {
        Method::Euler => {
            let k1 = choose|k1: S| #[trigger]
                f.ensures((t, y), k1) && next == euler_update(h, y, k1);
            assert(g.ensures((t, y), k1));
        },
        Method::Heun => {
            let (k1, k2) = choose|k1: S, k2: S|
                #[trigger] heun_slopes(f, h, t, y, k1, k2) && next == heun_update(h, y, k1, k2);
            assert(heun_slopes(g, h, t, y, k1, k2));
        },
        Method::RungeKutta => {
            let (k1, k2, k3, k4) = choose|k1: S, k2: S, k3: S, k4: S|
                #[trigger] runge_kutta_slopes(f, h, t, y, k1, k2, k3, k4) && next
                    == runge_kutta_update(h, y, k1, k2, k3, k4);
            assert(runge_kutta_slopes(g, h, t, y, k1, k2, k3, k4));
        },
    }
}

/// What a run may reach with a derivative function, it may reach with any
/// other that computes the same.
pub proof fn lemma_run_transfers<S: Scalar, F: Fn(S, S) -> S, G: Fn(S, S) -> S>(
    method: Method,
    f: &F,
    g: &G,
    y0: S,
    t0: S,
    h: S,
    n: nat,
    y: S,
)
    requires
        equivalent(f, g),
        reaches(method, f, y0, t0, h, n, y),
    ensures
        reaches(method, g, y0, t0, h, n, y),
    decreases n,
{
    if n > 0 {
        let m = (n - 1) as nat;
        let before = choose|before: S|
            reaches(method, f, y0, t0, h, m, before) && #[trigger] step_reaches(
                method,
                f,
                h,
                time_after(t0, h, m),
                before,
                y,
            );
        lemma_run_transfers(method, f, g, y0, t0, h, m, before);
        lemma_step_transfers(method, f, g, h, time_after(t0, h, m), before, y);
        lemma_run_extends(method, g, y0, t0, h, m, before, y);
    }
}

/// A run of `n` steps followed by one more step, taken at the time the run
/// has arrived at, is a run of `n + 1` steps.
pub proof fn lemma_run_extends<S: Scalar, F: Fn(S, S) -> S>(
    method: Method,
    de: &F,
    y0: S,
    t0: S,
    h: S,
    n: nat,
    before: S,
    next: S,
)
    requires
        reaches(method, de, y0, t0, h, n, before),
        step_reaches(method, de, h, time_after(t0, h, n), before, next),
    ensures
        reaches(method, de, y0, t0, h, n + 1, next),
{
    assert((n + 1 - 1) as nat == n);
}

/// Evaluates the derivative function once, at time `t` and state `y`, and
/// counts the evaluation. The loops below evaluate the derivative function
/// nowhere else.
fn evaluate<S: Scalar, F: Fn(S, S) -> S>(de: &F, t: S, y: S, evaluations: &mut u128) -> (k: S)
    requires
        de.requires((t, y)),
        *old(evaluations) < u128::MAX,
    ensures
        de.ensures((t, y), k),
        *final(evaluations) == *old(evaluations) + 1,
{
    let k = de(t, y);
    *evaluations = *evaluations + 1;
    k
}

/// Runs `steps` explicit Euler steps of size `h` from state `y0` at time
/// `t0`. The number of steps is fixed in advance: the running time is
/// advanced with each step and never compared with an end time.
pub fn euler_steps<S: Scalar, F: Fn(S, S) -> S>(
    y0: S,
    t0: S,
    steps: usize,
    h: S,
    de: &F,
) -> (run: Run<S>)
    requires
        arithmetic_total::<S>(),
        accepts_all(de),
    ensures
        run.evaluations == evaluations_of(Method::Euler, steps as nat),
        arithmetic_exact::<S>() ==> reaches(
            Method::Euler,
            de,
            y0,
            t0,
            h,
            steps as nat,
            run.state,
        ),
        arithmetic_exact::<S>() && deterministic(de) ==> run.state == value_after(
            Method::Euler,
            de,
            y0,
            t0,
            h,
            steps as nat,
        ),
{
    let mut ycurrent = y0;
    let mut tcurrent = t0;
    let mut evaluations: u128 = 0;
    let mut done: usize = 0;
    while done < steps
        invariant
            done <= steps,
            evaluations == done,
            arithmetic_total::<S>(),
            accepts_all(de),
            arithmetic_exact::<S>() ==> tcurrent == time_after(t0, h, done as nat),
            arithmetic_exact::<S>() ==> reaches(
                Method::Euler,
                de,
                y0,
                t0,
                h,
                done as nat,
                ycurrent,
            ),
        decreases steps - done,
    {
        let k1 = evaluate(de, tcurrent, ycurrent, &mut evaluations);
        let ynext = ycurrent + h * k1;
        proof {
            if arithmetic_exact::<S>() {
                lemma_run_extends(Method::Euler, de, y0, t0, h, done as nat, ycurrent, ynext);
            }
        }
        ycurrent = ynext;
        tcurrent = tcurrent + h;
        done = done + 1;
    }
    proof {
        if arithmetic_exact::<S>() && deterministic(de) {
            lemma_run_is_value(Method::Euler, de, y0, t0, h, steps as nat, ycurrent);
        }
    }
    Run { state: ycurrent, evaluations }
}

/// Runs `steps` Heun steps of size `h` from state `y0` at time `t0`. Half
/// the step size is computed once, before the first step.
pub fn heun_steps<S: Scalar, F: Fn(S, S) -> S>(
    y0: S,
    t0: S,
    steps: usize,
    h: S,
    de: &F,
) -> (run: Run<S>)
    requires
        arithmetic_total::<S>(),
        accepts_all(de),
    ensures
        run.evaluations == evaluations_of(Method::Heun, steps as nat),
        arithmetic_exact::<S>() ==> reaches(
            Method::Heun,
            de,
            y0,
            t0,
            h,
            steps as nat,
            run.state,
        ),
        arithmetic_exact::<S>() && deterministic(de) ==> run.state == value_after(
            Method::Heun,
            de,
            y0,
            t0,
            h,
            steps as nat,
        ),
{
    let mut ycurrent = y0;
    let mut tcurrent = t0;
    let half_h = h / S::from(2u8);
    let mut evaluations: u128 = 0;
    let mut done: usize = 0;
    while done < steps
        invariant
            done <= steps,
            evaluations == 2 * done,
            arithmetic_total::<S>(),
            accepts_all(de),
            arithmetic_exact::<S>() ==> half_h == half(h),
            arithmetic_exact::<S>() ==> tcurrent == time_after(t0, h, done as nat),
            arithmetic_exact::<S>() ==> reaches(
                Method::Heun,
                de,
                y0,
                t0,
                h,
                done as nat,
                ycurrent,
            ),
        decreases steps - done,
    {
        let k1 = evaluate(de, tcurrent, ycurrent, &mut evaluations);
        let k2 = evaluate(de, tcurrent + h, ycurrent + h * k1, &mut evaluations);
        let ynext = ycurrent + half_h * (k1 + k2);
        proof {
            if arithmetic_exact::<S>() {
                assert(heun_slopes(de, h, tcurrent, ycurrent, k1, k2));
                lemma_run_extends(Method::Heun, de, y0, t0, h, done as nat, ycurrent, ynext);
            }
        }
        ycurrent = ynext;
        tcurrent = tcurrent + h;
        done = done + 1;
    }
    proof {
        if arithmetic_exact::<S>() && deterministic(de) {
            lemma_run_is_value(Method::Heun, de, y0, t0, h, steps as nat, ycurrent);
        }
    }
    Run { state: ycurrent, evaluations }
}

/// Runs `steps` classical Runge-Kutta steps of size `h` from state `y0` at
/// time `t0`. Half and a sixth of the step size are computed once, before
/// the first step.
pub fn runge_kutta_steps<S: Scalar, F: Fn(S, S) -> S>(
    y0: S,
    t0: S,
    steps: usize,
    h: S,
    de: &F,
) -> (run: Run<S>)
    requires
        arithmetic_total::<S>(),
        accepts_all(de),
    ensures
        run.evaluations == evaluations_of(Method::RungeKutta, steps as nat),
        arithmetic_exact::<S>() ==> reaches(
            Method::RungeKutta,
            de,
            y0,
            t0,
            h,
            steps as nat,
            run.state,
        ),
        arithmetic_exact::<S>() && deterministic(de) ==> run.state == value_after(
            Method::RungeKutta,
            de,
            y0,
            t0,
            h,
            steps as nat,
        ),
{
    let mut ycurrent = y0;
    let mut tcurrent = t0;
    let two = S::from(2u8);
    let half_h = h / two;
    let sixth_h = h / S::from(6u8);
    let mut evaluations: u128 = 0;
    let mut done: usize = 0;
    while done < steps
        invariant
            done <= steps,
            evaluations == 4 * done,
            arithmetic_total::<S>(),
            accepts_all(de),
            arithmetic_exact::<S>() ==> two == S::from_spec(2u8),
            arithmetic_exact::<S>() ==> half_h == half(h),
            arithmetic_exact::<S>() ==> sixth_h == sixth(h),
            arithmetic_exact::<S>() ==> tcurrent == time_after(t0, h, done as nat),
            arithmetic_exact::<S>() ==> reaches(
                Method::RungeKutta,
                de,
                y0,
                t0,
                h,
                done as nat,
                ycurrent,
            ),
        decreases steps - done,
    {
        let k1 = evaluate(de, tcurrent, ycurrent, &mut evaluations);
        let k2 = evaluate(de, tcurrent + half_h, ycurrent + half_h * k1, &mut evaluations);
        let k3 = evaluate(de, tcurrent + half_h, ycurrent + half_h * k2, &mut evaluations);
        let k4 = evaluate(de, tcurrent + h, ycurrent + h * k3, &mut evaluations);
        let ynext = ycurrent + sixth_h * (k1 + two * k2 + two * k3 + k4);
        proof {
            if arithmetic_exact::<S>() {
                assert(runge_kutta_slopes(de, h, tcurrent, ycurrent, k1, k2, k3, k4));
                lemma_run_extends(
                    Method::RungeKutta,
                    de,
                    y0,
                    t0,
                    h,
                    done as nat,
                    ycurrent,
                    ynext,
                );
            }
        }
        ycurrent = ynext;
        tcurrent = tcurrent + h;
        done = done + 1;
    }
    proof {
        if arithmetic_exact::<S>() && deterministic(de) {
            lemma_run_is_value(Method::RungeKutta, de, y0, t0, h, steps as nat, ycurrent);
        }
    }
    Run { state: ycurrent, evaluations }
}

} // verus!
