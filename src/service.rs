//! The two requests the service answers: a runtime estimate and a discharge
//! curve for a battery named by chemistry and size under a given load.

use vstd::prelude::*;
use crate::discharge::{is_curve, simulate_discharge_curve, DischargeDataPoint};
use crate::quantity::Quantity;
use crate::runtime::{estimate_runtime_hours, runtime_of};
use crate::table::{capacity_spec, get_battery_capacity, get_battery_voltage, lower_of, voltage_spec};

verus! {

/// A battery, named by chemistry and size in any letter case, and the
/// current drawn from it in microamperes.
#[derive(Debug)]
pub struct CalculationRequest {
    pub battery_type: String,
    pub battery_size: String,
    pub load_current_ua: i64,
}

/// The answer to a runtime request.
#[derive(Clone, Copy, Debug, PartialEq, Eq, Structural)]
pub struct CalculationResult {
    pub runtime_hours: Quantity,
}

/// Why a request was refused.
#[derive(Clone, Copy, Debug, PartialEq, Eq, Structural)]
pub enum RequestError {
    /// The table has no entry for the battery named.
    InvalidBattery,
}

impl RequestError {
    /// The text sent back to the client.
    pub fn message(&self) -> (r: &'static str)
        ensures
            r@ == "Invalid battery type or size"@,
    {
        match self {
            RequestError::InvalidBattery => "Invalid battery type or size",
        }
    }
}

/// Capacity in milliampere-hours of the battery a request names.
pub open spec fn request_capacity(req: CalculationRequest) -> Option<u16> {
    capacity_spec(lower_of(req.battery_type@), lower_of(req.battery_size@))
}

/// Nominal voltage in millivolts of the battery a request names.
pub open spec fn request_voltage(req: CalculationRequest) -> Option<u16> {
    voltage_spec(lower_of(req.battery_type@))
}

/// Runtime in hours of the battery a request names under its load; refused
/// when the table lacks the battery.
pub fn calculate(req: &CalculationRequest) -> (r: Result<CalculationResult, RequestError>)
    ensures
        match request_capacity(*req) {
            Some(capacity) => r == Ok::<CalculationResult, RequestError>(
                CalculationResult { runtime_hours: runtime_of(capacity, req.load_current_ua) },
            ),
            None => r == Err::<CalculationResult, RequestError>(RequestError::InvalidBattery),
        },
{
    match get_battery_capacity(req.battery_type.as_str(), req.battery_size.as_str()) {
        Some(capacity) => {
            let runtime = estimate_runtime_hours(capacity, req.load_current_ua);
            Ok(CalculationResult { runtime_hours: runtime })
        },
        None => Err(RequestError::InvalidBattery),
    }
}

/// Discharge curve of the battery a request names over its runtime under
/// its load; refused when the table lacks its capacity or its voltage.
pub fn discharge_curve(req: &CalculationRequest) -> (r: Result<
    Vec<DischargeDataPoint>,
    RequestError,
>)
    ensures
        match (request_capacity(*req), request_voltage(*req)) {
            (Some(capacity), Some(voltage)) => r is Ok && is_curve(
                r->Ok_0@,
                runtime_of(capacity, req.load_current_ua),
                voltage as int,
            ),
            _ => r == Err::<Vec<DischargeDataPoint>, RequestError>(RequestError::InvalidBattery),
        },
{
    let capacity = get_battery_capacity(req.battery_type.as_str(), req.battery_size.as_str());
    let nominal_voltage = get_battery_voltage(req.battery_type.as_str(), req.battery_size.as_str());
    match (capacity, nominal_voltage) {
        (Some(cap), Some(voltage)) => {
            let runtime_hours = estimate_runtime_hours(cap, req.load_current_ua);
            Ok(simulate_discharge_curve(runtime_hours, voltage))
        },
        _ => Err(RequestError::InvalidBattery),
    }
}

} // verus!
