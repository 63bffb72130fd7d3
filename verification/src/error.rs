//! Error taxonomy of the sensor hub.
//!
//! Transport faults (`I2c`) originate in the unverified bus layer; the
//! remaining variants report out-of-range or sensor-absent readings and are
//! produced by the verified register decoders in `ep0106`.

use vstd::prelude::*;

verus! {

/// One error per failure kind of the hub's read operations.
///
/// `ExternalTemperatureOverflow` is also the kind reported by
/// `on_board_temp` and `bmp280_temp` for an out-of-range high reading;
/// downstream consumers match on the kind, so the shared variant is kept.
#[derive(Clone, Copy, Debug, PartialEq, Eq, Structural)]
pub enum SensorHubError {
    /// A bus-level failure while opening the bus, selecting the device
    /// address, or performing a block read.
    I2c,
    /// The external thermistor read beyond its range.
    ExternalTemperatureOverflow,
    /// The external thermistor is not connected.
    ExternalTemperatureNotFound,
    /// The light sensor read beyond its 1800 lux ceiling.
    BrightnessOverflow,
    /// The light sensor is not connected.
    BrightnessNotFound,
    /// The onboard temperature and humidity data may not be up to date.
    NotUpToDate,
    /// The barometer reported an invalid value.
    BarometerValueNotValid,
}

} // verus!
