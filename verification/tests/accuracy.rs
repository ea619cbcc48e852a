use ode_approx::stepping::{euler_steps, heun_steps, runge_kutta_steps, Run};

fn growth(_t: f64, y: f64) -> f64 {
    y
}

fn regular_de(_t: f64, y: f64) -> f64 {
    10.0 - 0.2 * y - 0.27 * y.powf(1.5)
}

fn errors(method: fn(f64, f64, usize, f64, &fn(f64, f64) -> f64) -> Run<f64>) -> Vec<f64> {
    let de: fn(f64, f64) -> f64 = growth;
    let mut found = Vec::new();
    for steps in [10usize, 20, 40, 80, 160] {
        let h = 1.0 / steps as f64;
        found.push((method(1.0, 0.0, steps, h, &de).state - std::f64::consts::E).abs());
    }
    found
}

#[test]
fn euler_converges_with_first_order() {
    let found = errors(euler_steps::<f64, fn(f64, f64) -> f64>);
    assert!(found[0] < 0.13);
    for pair in found.windows(2) {
        let ratio = pair[0] / pair[1];
        assert!(ratio > 1.8 && ratio < 2.2, "ratio {}", ratio);
    }
}

#[test]
fn heun_converges_with_second_order() {
    let found = errors(heun_steps::<f64, fn(f64, f64) -> f64>);
    assert!(found[0] < 0.0043);
    for pair in found.windows(2) {
        let ratio = pair[0] / pair[1];
        assert!(ratio > 3.6 && ratio < 4.4, "ratio {}", ratio);
    }
}

#[test]
fn runge_kutta_converges_with_fourth_order() {
    let found = errors(runge_kutta_steps::<f64, fn(f64, f64) -> f64>);
    assert!(found[0] < 0.0000022);
    for pair in found.windows(2) {
        let ratio = pair[0] / pair[1];
        assert!(ratio > 14.0 && ratio < 18.0, "ratio {}", ratio);
    }
}

fn steady_state() -> f64 {
    let mut low = 0.0f64;
    let mut high = 20.0f64;
    for _ in 0..200 {
        let middle = (low + high) / 2.0;
        if regular_de(0.0, middle) > 0.0 {
            low = middle;
        } else {
            high = middle;
        }
    }
    low
}

#[test]
fn steady_state_is_approached_by_all_methods() {
    let steps = ((5.0f64 - 0.0) / 0.01).round() as usize;
    assert_eq!(steps, 500);
    let steady = steady_state();
    assert!(regular_de(0.0, steady).abs() < 1.0e-12);
    assert!((steady - 9.633642563223312).abs() < 1.0e-9);

    let euler = euler_steps(0.0f64, 0.0, steps, 0.01, &regular_de).state;
    let heun = heun_steps(0.0f64, 0.0, steps, 0.01, &regular_de).state;
    let runge_kutta = runge_kutta_steps(0.0f64, 0.0, steps, 0.01, &regular_de).state;

    assert!((euler - 9.625311557872058).abs() < 1.0e-9);
    assert!((heun - 9.624891066735005).abs() < 1.0e-9);
    assert!((runge_kutta - 9.624893155702996).abs() < 1.0e-9);

    assert!((euler - steady).abs() < 0.01);
    assert!((heun - steady).abs() < 0.01);
    assert!((runge_kutta - steady).abs() < 0.01);
    assert!(regular_de(5.0, euler).abs() < 0.02);
    assert!(regular_de(5.0, heun).abs() < 0.02);
    assert!(regular_de(5.0, runge_kutta).abs() < 0.02);

    assert!((euler - heun).abs() < 0.001);
    assert!((heun - runge_kutta).abs() < 0.00001);
    assert!((runge_kutta - steady).abs() <= (heun - steady).abs());
}

#[test]
fn higher_order_is_closer_to_the_solution() {
    let steps = 500usize;
    let exact = runge_kutta_steps(0.0f64, 0.0, 500_000, 0.00001, &regular_de).state;
    let euler = euler_steps(0.0f64, 0.0, steps, 0.01, &regular_de).state;
    let heun = heun_steps(0.0f64, 0.0, steps, 0.01, &regular_de).state;
    let runge_kutta = runge_kutta_steps(0.0f64, 0.0, steps, 0.01, &regular_de).state;
    assert!((runge_kutta - exact).abs() <= (heun - exact).abs());
    assert!((heun - exact).abs() <= (euler - exact).abs());
    assert!((euler - exact).abs() < 0.0005);
    assert!((heun - exact).abs() < 0.000003);
    assert!((runge_kutta - exact).abs() < 0.000000001);
}
