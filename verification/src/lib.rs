//! A verified reflow-oven temperature-profile controller.
//!
//! The library drives a heating element through an ordered list of
//! (target temperature, duration) stages using live sensor feedback,
//! logging one text line per sample. The control logic — stage
//! sequencing, the exact-threshold bang-bang actuator policy, the
//! sensor-failure fallback, and log-line formatting — is verified here;
//! the hardware edges (clock, thermocouple bus, storage, drive pin) are
//! performed by the caller, which the executor directs one command at a
//! time.
//!
//! Temperatures are carried as whole hundredths of a degree Celsius,
//! which is exact for the two-decimal log format and for the strict
//! threshold comparison; the caller converts the sensor's reading to
//! hundredths before reporting it. The clock is a monotonic counter in
//! whole seconds.

pub mod control;
pub mod executor;
pub mod logline;
pub mod profile;
pub mod runner;
pub mod trace;
