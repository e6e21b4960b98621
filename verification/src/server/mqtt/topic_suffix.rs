//! Topic suffixes appended to the runner prefix `power-supply/{name}`.
use vstd::prelude::*;

verus! {

/// Runner status.
pub const STATUS: &'static str = "status";
/// Error reports.
pub const ERROR: &'static str = "error";
/// Output enable state.
pub const CONTROL_OE: &'static str = "control/oe";
/// Output enable command.
pub const CONTROL_OE_CMD: &'static str = "control/oe/cmd";
/// Voltage setting.
pub const CONTROL_VOLTAGE: &'static str = "control/voltage";
/// Voltage command.
pub const CONTROL_VOLTAGE_CMD: &'static str = "control/voltage/cmd";
/// Current limit setting.
pub const CONTROL_CURRENT: &'static str = "control/current";
/// Current limit command.
pub const CONTROL_CURRENT_CMD: &'static str = "control/current/cmd";
/// Voltage measurement refresh frequency.
pub const MEASURE_VOLTAGE_REFRESH_FREQ: &'static str = "measure/voltage/refresh_freq";
/// Current measurement refresh frequency.
pub const MEASURE_CURRENT_REFRESH_FREQ: &'static str = "measure/current/refresh_freq";

} // verus!
