use battery_runtime::quantity::Quantity;
use battery_runtime::service::{calculate, discharge_curve, CalculationRequest, RequestError};

fn request(battery_type: &str, battery_size: &str, load_current_ua: i64) -> CalculationRequest {
    CalculationRequest {
        battery_type: battery_type.to_string(),
        battery_size: battery_size.to_string(),
        load_current_ua,
    }
}

fn is_ratio(q: Quantity, n: i128, d: i128) -> bool {
    match q {
        Quantity::Finite(x) => x.den > 0 && x.num * d == n * x.den,
        _ => false,
    }
}

#[test]
fn calculate_alkaline_aa_at_500_ma() {
    let r = calculate(&request("alkaline", "aa", 500_000)).unwrap();
    assert!(is_ratio(r.runtime_hours, 5, 1));
}

#[test]
fn calculate_unknown_battery_is_refused() {
    let e = calculate(&request("unknown", "aa", 500_000)).unwrap_err();
    assert_eq!(e, RequestError::InvalidBattery);
    assert_eq!(e.message(), "Invalid battery type or size");
}

#[test]
fn calculate_unknown_size_is_refused() {
    assert_eq!(
        calculate(&request("nimh", "d", 500_000)),
        Err(RequestError::InvalidBattery)
    );
}

#[test]
fn calculate_ignores_letter_case() {
    let r = calculate(&request("ALKALINE", "Aa", 250_000)).unwrap();
    assert!(is_ratio(r.runtime_hours, 10, 1));
}

#[test]
fn discharge_curve_nimh_aa_at_1000_ma() {
    let curve = discharge_curve(&request("nimh", "aa", 1_000_000)).unwrap();
    assert_eq!(curve.len(), 21);
    assert!(is_ratio(curve[0].time, 0, 1));
    assert!(is_ratio(curve[0].voltage, 12, 10));
    assert!(is_ratio(curve[20].time, 2, 1));
    assert!(is_ratio(curve[20].voltage, 108, 100));
    for (i, p) in curve.iter().enumerate() {
        assert!(is_ratio(p.time, i as i128, 10));
    }
}

#[test]
fn discharge_curve_unknown_battery_is_refused() {
    assert_eq!(
        discharge_curve(&request("unknown", "aa", 1_000_000)),
        Err(RequestError::InvalidBattery)
    );
    assert_eq!(
        discharge_curve(&request("nimh", "c", 1_000_000)),
        Err(RequestError::InvalidBattery)
    );
}

#[test]
fn calculate_nicd_aaa_at_zero_current_is_infinite() {
    let r = calculate(&request("nicd", "aaa", 0)).unwrap();
    assert_eq!(r.runtime_hours, Quantity::Infinite);
}

#[test]
fn discharge_curve_at_zero_current() {
    let curve = discharge_curve(&request("nicd", "aaa", 0)).unwrap();
    assert_eq!(curve.len(), 21);
    assert_eq!(curve[0].time, Quantity::Undefined);
    assert_eq!(curve[20].time, Quantity::Infinite);
    assert!(is_ratio(curve[20].voltage, 108, 100));
}
