//! Register-level core of a driver for the EP-0106 i2c multi-sensor hub:
//! the device's register map, the decoders for each sensor reading, and
//! the status-flag and range checks, all verified. The blocking bus
//! transactions that fetch the raw register bytes are i/o and live in the
//! unverified layer around this crate.

pub mod ep0106;
pub mod error;
