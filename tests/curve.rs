use battery_runtime::discharge::{calculate_voltage_at_time, simulate_discharge_curve};
use battery_runtime::quantity::{Quantity, Ratio};
use battery_runtime::runtime::estimate_runtime_hours;

fn is_ratio(q: Quantity, n: i128, d: i128) -> bool {
    match q {
        Quantity::Finite(x) => x.den > 0 && x.num * d == n * x.den,
        _ => false,
    }
}

fn finite(num: i128, den: i128) -> Quantity {
    Quantity::Finite(Ratio { num, den })
}

#[test]
fn runtime_is_capacity_over_current() {
    // 2500 mAh at 500 mA
    assert!(is_ratio(estimate_runtime_hours(2500, 500_000), 5, 1));
    // 300 mAh at 1.5 mA
    assert!(is_ratio(estimate_runtime_hours(300, 1_500), 200, 1));
    // 800 mAh at 3 A
    assert!(is_ratio(estimate_runtime_hours(800, 3_000_000), 4, 15));
}

#[test]
fn runtime_doubles_with_capacity_and_halves_with_current() {
    let base = estimate_runtime_hours(1200, 700_000);
    let double_capacity = estimate_runtime_hours(2400, 700_000);
    let double_current = estimate_runtime_hours(1200, 1_400_000);
    assert!(is_ratio(base, 12, 7));
    assert!(is_ratio(double_capacity, 24, 7));
    assert!(is_ratio(double_current, 6, 7));
}

#[test]
fn runtime_at_zero_current_is_infinite() {
    assert_eq!(estimate_runtime_hours(300, 0), Quantity::Infinite);
}

#[test]
fn runtime_at_negative_current_is_negative() {
    assert!(is_ratio(estimate_runtime_hours(2500, -500_000), -5, 1));
}

#[test]
fn runtime_at_extreme_currents() {
    assert!(is_ratio(estimate_runtime_hours(u16::MAX, i64::MIN), -65_535_000, 1i128 << 63));
    assert!(is_ratio(estimate_runtime_hours(u16::MAX, i64::MAX), 65_535_000, i64::MAX as i128));
}

#[test]
fn curve_has_twenty_one_evenly_spaced_samples() {
    let runtime = estimate_runtime_hours(2000, 1_000_000);
    let curve = simulate_discharge_curve(runtime, 1200);
    assert_eq!(curve.len(), 21);
    for (i, p) in curve.iter().enumerate() {
        let i = i as i128;
        // time i / 10 hours, voltage 1.2 * (200 - i) / 200 volts
        assert!(is_ratio(p.time, i, 10));
        assert!(is_ratio(p.voltage, 1200 * (200 - i), 200_000));
    }
    assert!(is_ratio(curve[0].voltage, 12, 10));
    assert!(is_ratio(curve[20].time, 2, 1));
    assert!(is_ratio(curve[20].voltage, 108, 100));
}

#[test]
fn curve_times_never_decrease() {
    let runtime = estimate_runtime_hours(3500, 123_457);
    let curve = simulate_discharge_curve(runtime, 3700);
    for w in curve.windows(2) {
        match (w[0].time, w[1].time) {
            (Quantity::Finite(a), Quantity::Finite(b)) => assert!(b.num * a.den >= a.num * b.den),
            _ => panic!("finite runtime gives finite times"),
        }
    }
    assert!(is_ratio(curve[20].voltage, 3330, 1000));
}

#[test]
fn curve_for_zero_current() {
    let curve = simulate_discharge_curve(estimate_runtime_hours(300, 0), 1200);
    assert_eq!(curve.len(), 21);
    assert_eq!(curve[0].time, Quantity::Undefined);
    assert_eq!(curve[0].voltage, Quantity::Undefined);
    for p in &curve[1..] {
        assert_eq!(p.time, Quantity::Infinite);
        assert!(is_ratio(p.voltage, 108, 100));
    }
}

#[test]
fn curve_for_negative_current_sits_at_end_voltage() {
    let curve = simulate_discharge_curve(estimate_runtime_hours(2500, -500_000), 1500);
    assert_eq!(curve.len(), 21);
    for (i, p) in curve.iter().enumerate() {
        assert!(is_ratio(p.time, -(i as i128), 4));
        assert!(is_ratio(p.voltage, 135, 100));
    }
}

#[test]
fn curve_for_zero_runtime_repeats_time_zero() {
    let curve = simulate_discharge_curve(finite(0, 1), 1500);
    assert_eq!(curve.len(), 21);
    for p in &curve {
        assert!(is_ratio(p.time, 0, 1));
        assert!(is_ratio(p.voltage, 135, 100));
    }
}

#[test]
fn voltage_halfway_through() {
    let v = calculate_voltage_at_time(finite(1, 1), finite(2, 1), 1500);
    assert!(is_ratio(v, 1425, 1000));
}

#[test]
fn voltage_at_or_after_the_end() {
    assert!(is_ratio(calculate_voltage_at_time(finite(2, 1), finite(2, 1), 1500), 135, 100));
    assert!(is_ratio(calculate_voltage_at_time(finite(3, 1), finite(2, 1), 1500), 135, 100));
    assert!(is_ratio(
        calculate_voltage_at_time(Quantity::Infinite, finite(2, 1), 1500),
        135,
        100
    ));
}

#[test]
fn voltage_before_an_infinite_runtime_is_nominal() {
    let v = calculate_voltage_at_time(finite(7, 1), Quantity::Infinite, 3700);
    assert!(is_ratio(v, 37, 10));
}

#[test]
fn voltage_before_a_zero_runtime() {
    assert_eq!(calculate_voltage_at_time(finite(-1, 1), finite(0, 1), 1500), Quantity::Infinite);
    assert_eq!(calculate_voltage_at_time(finite(-1, 1), finite(0, 1), 0), Quantity::Undefined);
}

#[test]
fn voltage_with_undefined_operand() {
    assert_eq!(calculate_voltage_at_time(Quantity::Undefined, finite(2, 1), 1500), Quantity::Undefined);
    assert_eq!(calculate_voltage_at_time(finite(1, 1), Quantity::Undefined, 1500), Quantity::Undefined);
}

#[test]
fn voltage_before_a_negative_runtime_end() {
    // t = -3, r = -2: t < r, so 1.5 - 0.15 * 1.5 = 1.275
    let v = calculate_voltage_at_time(finite(-3, 1), finite(-2, 1), 1500);
    assert!(is_ratio(v, 1275, 1000));
}
