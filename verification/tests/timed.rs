use ode_approx::stepping::{euler_steps, heun_steps, runge_kutta_steps};
use ode_approx::{serial_funcs, threaded_funcs};
use std::cell::Cell;
use std::sync::Arc;

fn regular_de(_t: f64, y: f64) -> f64 {
    10.0 - 0.2 * y - 0.27 * y.powf(1.5)
}

fn linear(t: f64, y: f64) -> f64 {
    t * y + 1.0
}

#[test]
fn serial_euler_value() {
    let (y, _elapsed) = serial_funcs::euler_method(1.0f64, 0.0, 3, 0.1, &linear);
    assert_eq!(y, 1.33522);
}

#[test]
fn serial_heun_value() {
    let (y, _elapsed) = serial_funcs::improved_euler(1.0f64, 0.0, 3, 0.1, &linear);
    assert_eq!(y, 1.3556398341649998);
}

#[test]
fn serial_runge_kutta_value() {
    let (y, _elapsed) = serial_funcs::runge_kutta(1.0f64, 0.0, 3, 0.1, &linear);
    assert_eq!(y, 1.35519184073709);
}

#[test]
fn threaded_euler_value() {
    let de = Arc::new(linear);
    let (y, _elapsed) = threaded_funcs::euler_method(1.0f64, 0.0, 3, 0.1, de);
    assert_eq!(y, 1.33522);
}

#[test]
fn threaded_heun_value() {
    let de = Arc::new(|t: f64, y: f64| t * y + 1.0);
    let (y, _elapsed) = threaded_funcs::improved_euler(1.0f64, 0.0, 3, 0.1, de);
    assert_eq!(y, 1.3556398341649998);
}

#[test]
fn threaded_runge_kutta_value() {
    let de = Arc::new(linear);
    let (y, _elapsed) = threaded_funcs::runge_kutta(1.0f64, 0.0, 3, 0.1, de);
    assert_eq!(y, 1.35519184073709);
}

#[test]
fn shared_function_outlives_one_share() {
    let de = Arc::new(linear);
    let first = threaded_funcs::euler_method(1.0f64, 0.0, 3, 0.1, de.clone());
    let second = threaded_funcs::euler_method(1.0f64, 0.0, 3, 0.1, de.clone());
    assert_eq!(first.0, second.0);
    assert_eq!(Arc::strong_count(&de), 1);
}

#[test]
fn timed_runs_agree_with_untimed_runs() {
    let steps = 500usize;
    let h = 0.01f64;
    let e = serial_funcs::euler_method(0.0f64, 0.0, steps, h, &regular_de).0;
    let i = serial_funcs::improved_euler(0.0f64, 0.0, steps, h, &regular_de).0;
    let r = serial_funcs::runge_kutta(0.0f64, 0.0, steps, h, &regular_de).0;
    assert_eq!(e.to_bits(), euler_steps(0.0f64, 0.0, steps, h, &regular_de).state.to_bits());
    assert_eq!(i.to_bits(), heun_steps(0.0f64, 0.0, steps, h, &regular_de).state.to_bits());
    assert_eq!(r.to_bits(), runge_kutta_steps(0.0f64, 0.0, steps, h, &regular_de).state.to_bits());
}

#[test]
fn serial_and_shared_runs_are_bit_identical() {
    let steps = 500usize;
    let h = 0.01f64;
    let shared = Arc::new(|_t: f64, y: f64| 10.0 - 0.2 * y - 0.27 * y.powf(1.5));

    let first = serial_funcs::euler_method(0.0f64, 0.0, steps, h, &regular_de).0;
    let again = serial_funcs::euler_method(0.0f64, 0.0, steps, h, &regular_de).0;
    let batch = threaded_funcs::euler_method(0.0f64, 0.0, steps, h, shared.clone()).0;
    assert_eq!(first.to_bits(), again.to_bits());
    assert_eq!(first.to_bits(), batch.to_bits());

    let first = serial_funcs::improved_euler(0.0f64, 0.0, steps, h, &regular_de).0;
    let again = serial_funcs::improved_euler(0.0f64, 0.0, steps, h, &regular_de).0;
    let batch = threaded_funcs::improved_euler(0.0f64, 0.0, steps, h, shared.clone()).0;
    assert_eq!(first.to_bits(), again.to_bits());
    assert_eq!(first.to_bits(), batch.to_bits());

    let first = serial_funcs::runge_kutta(0.0f64, 0.0, steps, h, &regular_de).0;
    let again = serial_funcs::runge_kutta(0.0f64, 0.0, steps, h, &regular_de).0;
    let batch = threaded_funcs::runge_kutta(0.0f64, 0.0, steps, h, shared.clone()).0;
    assert_eq!(first.to_bits(), again.to_bits());
    assert_eq!(first.to_bits(), batch.to_bits());
}

#[test]
fn timed_euler_counts_its_evaluations() {
    let calls = Cell::new(0usize);
    let de = |_t: f64, y: f64| {
        calls.set(calls.get() + 1);
        -y
    };
    serial_funcs::euler_method(1.0f64, 0.0, 250, 0.02, &de);
    assert_eq!(calls.get(), 250);
    serial_funcs::improved_euler(1.0f64, 0.0, 250, 0.02, &de);
    assert_eq!(calls.get(), 250 + 500);
    serial_funcs::runge_kutta(1.0f64, 0.0, 250, 0.02, &de);
    assert_eq!(calls.get(), 250 + 500 + 1000);
}

#[test]
fn a_long_run_takes_time() {
    let (_y, elapsed) = serial_funcs::runge_kutta(0.0f64, 0.0, 200_000, 0.000025, &regular_de);
    assert!(elapsed > 0);
    let de = Arc::new(regular_de);
    let (_y, elapsed) = threaded_funcs::runge_kutta(0.0f64, 0.0, 200_000, 0.000025, de);
    assert!(elapsed > 0);
}

#[test]
fn an_empty_run_is_quick() {
    let (y, elapsed) = serial_funcs::euler_method(4.0f64, 0.0, 0, 0.1, &linear);
    assert_eq!(y, 4.0);
    assert!(elapsed < 1_000_000_000);
}
