//! Battery runtime estimation and a linear discharge-curve model.
//!
//! Quantities are exact: capacities in milliampere-hours, nominal voltages
//! in millivolts, load currents in microamperes, and derived times and
//! voltages as fractions (see [`quantity`]).

pub mod quantity;
pub mod table;
pub mod runtime;
pub mod discharge;
pub mod service;
