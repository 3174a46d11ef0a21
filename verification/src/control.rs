//! The tick-level control decisions: resolving a fallible sensor reading
//! and the exact-threshold bang-bang heater policy.

use vstd::prelude::*;

verus! {

/// The fallback temperature substituted when a sensor read fails, in
/// hundredths of a degree Celsius. Failures degrade silently to this
/// sentinel; they are never retried and never halt the run.
pub const SENSOR_FALLBACK_CENTI: u32 = 0;

/// The temperature the executor works with: the reading itself when the
/// sensor answered, or the fallback sentinel when it failed.
pub open spec fn effective_temp(reading: Option<u32>) -> u32 {
    match reading {
        Some(t) => t,
        None => SENSOR_FALLBACK_CENTI,
    }
}

/// Resolves a possibly-failed sensor reading (`None` means the read
/// failed) to the temperature used for logging and control.
pub fn resolve_reading(reading: Option<u32>) -> (t: u32)
    ensures
        t == effective_temp(reading),
{
    match reading {
        Some(t) => t,
        None => SENSOR_FALLBACK_CENTI,
    }
}

/// Exact-threshold bang-bang policy: heat exactly when the measured
/// temperature is strictly below target. A reading equal to the target
/// counts as "reached", so the heater is driven low — there is no
/// hysteresis band.
pub open spec fn heater_on_spec(actual_centi: u32, target_centi: u32) -> bool {
    actual_centi < target_centi
}

/// Decides the heater command for one tick.
pub fn heater_command(actual_centi: u32, target_centi: u32) -> (on: bool)
    ensures
        on == heater_on_spec(actual_centi, target_centi),
{
    actual_centi < target_centi
}

} // verus!
