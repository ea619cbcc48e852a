//! Fixed-step explicit integrators for a scalar first-order ordinary
//! differential equation `dy/dt = f(t, y)`: explicit Euler, Heun (improved
//! Euler) and the classical Runge-Kutta method of order four, with the
//! bookkeeping needed to compare running the three side by side on worker
//! threads against running them one after the other.
//!
//! - `scalar`: the numbers that are integrated over, and what the contracts
//!   assume of their arithmetic.
//! - `stepping`: the step of each method, runs of `n` steps, and the loops.
//! - `serial_funcs`, `threaded_funcs`: the timed integrators, for a borrowed
//!   and for a shared derivative function.
//! - `clock`: clock readings and the time between two of them.
//! - `config`: which configurations can be integrated over.
//! - `harness`: the serial and the concurrent policy and their costs.
//! - `laws`: what holds of every run.

pub mod clock;
pub mod config;
pub mod harness;
pub mod laws;
pub mod scalar;
pub mod serial_funcs;
pub mod stepping;
pub mod threaded_funcs;
