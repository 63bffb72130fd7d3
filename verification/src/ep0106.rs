//! Register map and verified decoders for the EP-0106 i2c sensor hub.
//!
//! Every read operation of the hub is a blocking block read of one, two or
//! four bytes from a fixed register address, followed by a decode and a
//! validity check. The bus transactions themselves are i/o and live in the
//! unverified layer around this crate; that layer hands the raw register
//! bytes to the functions here, which do all interpretation: status-flag
//! checks, two's-complement reinterpretation, little-endian reassembly and
//! range clamps. Each decoder's result is a function of the observed bytes
//! alone, so a caller that reads the same bytes twice gets the same answer.

use vstd::prelude::*;

use crate::error::SensorHubError;

verus! {

/// Bus number the hub is attached to.
pub const DEVICE_BUS: u8 = 1;
/// Fixed i2c slave address of the hub.
pub const DEVICE_ADDR: u16 = 0x17;
/// External thermistor temperature, one signed byte.
pub const TEMP_REG: u8 = 0x01;
/// Light intensity, low byte of a little-endian 16-bit pair.
pub const LIGHT_REG_L: u8 = 0x02;
/// Status flags for the thermistor and the light sensor.
pub const STATUS_REG: u8 = 0x04;
/// Onboard temperature, one signed byte.
pub const ON_BOARD_TEMP_REG: u8 = 0x05;
/// Onboard relative humidity, one unsigned byte.
pub const ON_BOARD_HUMIDITY_REG: u8 = 0x06;
/// BMP280 temperature, one signed byte.
pub const BMP280_TEMP_REG: u8 = 0x08;
/// BMP280 air pressure, low byte of a little-endian 24-bit value
/// transferred as a four-byte block.
pub const BMP280_PRESSURE_REG_L: u8 = 0x09;
/// BMP280 validity flag: any nonzero value marks the reading invalid.
pub const BMP280_STATUS: u8 = 0x0C;
/// Human-presence flag from the passive-infrared sensor.
pub const HUMAN_DETECT: u8 = 0x0D;

/// Bit 0 of the status register: external-temperature overflow.
pub open spec fn ext_temp_overflow_flag(status: u8) -> bool {
    status & 0x01 == 1
}

/// Bit 1 of the status register: external thermistor not connected.
pub open spec fn ext_temp_missing_flag(status: u8) -> bool {
    status & 0x02 == 2
}

/// Bit 2 of the status register: brightness overflow.
pub open spec fn brightness_overflow_flag(status: u8) -> bool {
    status & 0x04 == 4
}

/// Bit 3 of the status register: light sensor not connected.
pub open spec fn brightness_missing_flag(status: u8) -> bool {
    status & 0x08 == 8
}

/// A register byte reinterpreted as a two's-complement signed byte.
pub open spec fn signed_of(raw: u8) -> i8 {
    if raw < 128 {
        raw as i8
    } else {
        (raw - 256) as i8
    }
}

/// Reinterprets a raw register byte as a two's-complement signed byte.
pub fn decode_signed(raw: u8) -> (r: i8)
    ensures
        r == signed_of(raw),
{
    if raw < 128 {
        raw as i8
    } else {
        ((raw as i16) - 256) as i8
    }
}

/// Outcome of the thermistor status check: the overflow flag takes
/// precedence over the not-found flag, and the check passes only with
/// both flags clear.
pub open spec fn spec_ext_temp_status(status: u8) -> Result<(), SensorHubError> {
    if ext_temp_overflow_flag(status) {
        Err(SensorHubError::ExternalTemperatureOverflow)
    } else if ext_temp_missing_flag(status) {
        Err(SensorHubError::ExternalTemperatureNotFound)
    } else {
        Ok(())
    }
}

/// What `ext_temp` yields once the status byte and the temperature byte
/// are known: a status failure wins regardless of the temperature byte,
/// otherwise the byte reinterpreted as signed.
pub open spec fn spec_ext_temp(status: u8, raw: u8) -> Result<i8, SensorHubError> {
    match spec_ext_temp_status(status) {
        Err(e) => Err(e),
        Ok(()) => Ok(signed_of(raw)),
    }
}

/// Checks the status register for the external thermistor, deciding
/// whether its temperature register may be read at all.
pub fn ext_temp_status(status: u8) -> (r: Result<(), SensorHubError>)
    ensures
        r == spec_ext_temp_status(status),
{
    if status & 0x01 == 1 {
        Err(SensorHubError::ExternalTemperatureOverflow)
    } else if status & 0x02 == 2 {
        Err(SensorHubError::ExternalTemperatureNotFound)
    } else {
        Ok(())
    }
}

/// Decodes an external-thermistor reading from the status byte and the
/// temperature register byte.
pub fn ext_temp(status: u8, raw: u8) -> (r: Result<i8, SensorHubError>)
    ensures
        r == spec_ext_temp(status, raw),
{
    match ext_temp_status(status) {
        Err(e) => Err(e),
        Ok(()) => Ok(decode_signed(raw)),
    }
}

/// The 16-bit light reading reassembled from its little-endian byte pair.
pub open spec fn lux_of(low: u8, high: u8) -> int {
    low + 256 * high
}

/// Outcome of the light-sensor status check: the overflow flag takes
/// precedence over the not-found flag, and the check passes only with
/// both flags clear.
pub open spec fn spec_brightness_status(status: u8) -> Result<(), SensorHubError> {
    if brightness_overflow_flag(status) {
        Err(SensorHubError::BrightnessOverflow)
    } else if brightness_missing_flag(status) {
        Err(SensorHubError::BrightnessNotFound)
    } else {
        Ok(())
    }
}

/// What `brightness` yields once the status byte and the register pair
/// are known. The sensor's documented ceiling is 1800 lux, so a
/// reassembled value of 1800 or more is rejected as an overflow even
/// when the status flags are clear.
pub open spec fn spec_brightness(status: u8, low: u8, high: u8) -> Result<u16, SensorHubError> {
    match spec_brightness_status(status) {
        Err(e) => Err(e),
        Ok(()) => if lux_of(low, high) >= 1800 {
            Err(SensorHubError::BrightnessOverflow)
        } else {
            Ok(lux_of(low, high) as u16)
        },
    }
}

/// Checks the status register for the light sensor, deciding whether its
/// register pair may be read at all.
pub fn brightness_status(status: u8) -> (r: Result<(), SensorHubError>)
    ensures
        r == spec_brightness_status(status),
{
    if status & 0x04 == 4 {
        Err(SensorHubError::BrightnessOverflow)
    } else if status & 0x08 == 8 {
        Err(SensorHubError::BrightnessNotFound)
    } else {
        Ok(())
    }
}

/// Decodes a brightness reading in lux from the status byte and the
/// little-endian register pair (`low` at `LIGHT_REG_L`, `high` just
/// above it).
pub fn brightness(status: u8, low: u8, high: u8) -> (r: Result<u16, SensorHubError>)
    ensures
        r == spec_brightness(status, low, high),
{
    match brightness_status(status) {
        Err(e) => Err(e),
        Ok(()) => {
            let light: u16 = (low as u16) + (high as u16) * 256;
            if light >= 1800 {
                Err(SensorHubError::BrightnessOverflow)
            } else {
                Ok(light)
            }
        },
    }
}

/// What `on_board_temp` yields for a raw onboard-temperature byte: the
/// byte reinterpreted as signed, with 60 degrees and above rejected.
/// The out-of-range case reuses the external-temperature overflow kind.
pub open spec fn spec_on_board_temp(raw: u8) -> Result<i8, SensorHubError> {
    if signed_of(raw) >= 60 {
        Err(SensorHubError::ExternalTemperatureOverflow)
    } else {
        Ok(signed_of(raw))
    }
}

/// Decodes the onboard temperature register byte.
pub fn on_board_temp(raw: u8) -> (r: Result<i8, SensorHubError>)
    ensures
        r == spec_on_board_temp(raw),
{
    let temp = decode_signed(raw);
    if temp >= 60 {
        Err(SensorHubError::ExternalTemperatureOverflow)
    } else {
        Ok(temp)
    }
}

/// What `on_board_humidity` yields: the register byte unchanged, as a
/// percentage of relative humidity. No validity check is applied.
pub open spec fn spec_on_board_humidity(raw: u8) -> u8 {
    raw
}

/// Decodes the onboard humidity register byte.
pub fn on_board_humidity(raw: u8) -> (r: u8)
    ensures
        r == spec_on_board_humidity(raw),
{
    raw
}

/// Outcome of the BMP280 validity check: any nonzero status byte marks
/// both barometer registers invalid.
pub open spec fn spec_bmp280_status(status: u8) -> Result<(), SensorHubError> {
    if status != 0 {
        Err(SensorHubError::BarometerValueNotValid)
    } else {
        Ok(())
    }
}

/// What `bmp280_temp` yields once the BMP280 status byte and the
/// temperature byte are known: the byte reinterpreted as signed, with
/// 80 degrees and above rejected. The out-of-range case reuses the
/// external-temperature overflow kind.
pub open spec fn spec_bmp280_temp(status: u8, raw: u8) -> Result<i8, SensorHubError> {
    match spec_bmp280_status(status) {
        Err(e) => Err(e),
        Ok(()) => if signed_of(raw) >= 80 {
            Err(SensorHubError::ExternalTemperatureOverflow)
        } else {
            Ok(signed_of(raw))
        },
    }
}

/// The 24-bit pressure reading in pascal, reassembled little-endian from
/// the first three bytes of the four-byte block.
pub open spec fn pascal_of(b0: u8, b1: u8, b2: u8) -> int {
    b0 + 256 * b1 + 65536 * b2
}

/// What `bmp280_air_pressure` yields once the BMP280 status byte and the
/// four-byte pressure block are known. The device transfers four bytes
/// but only the low three carry data; `b3` never influences the result.
/// Values of 110000 Pa and above (beyond the documented range) are
/// rejected as not valid.
pub open spec fn spec_bmp280_air_pressure(
    status: u8,
    b0: u8,
    b1: u8,
    b2: u8,
    b3: u8,
) -> Result<u32, SensorHubError> {
    match spec_bmp280_status(status) {
        Err(e) => Err(e),
        Ok(()) => if pascal_of(b0, b1, b2) >= 110000 {
            Err(SensorHubError::BarometerValueNotValid)
        } else {
            Ok(pascal_of(b0, b1, b2) as u32)
        },
    }
}

/// Checks the BMP280 status register, deciding whether the barometer's
/// data registers may be read at all.
pub fn bmp280_status(status: u8) -> (r: Result<(), SensorHubError>)
    ensures
        r == spec_bmp280_status(status),
{
    if status != 0 {
        Err(SensorHubError::BarometerValueNotValid)
    } else {
        Ok(())
    }
}

/// Decodes a BMP280 temperature reading from the BMP280 status byte and
/// the temperature register byte.
pub fn bmp280_temp(status: u8, raw: u8) -> (r: Result<i8, SensorHubError>)
    ensures
        r == spec_bmp280_temp(status, raw),
{
    match bmp280_status(status) {
        Err(e) => Err(e),
        Ok(()) => {
            let temp = decode_signed(raw);
            if temp >= 80 {
                Err(SensorHubError::ExternalTemperatureOverflow)
            } else {
                Ok(temp)
            }
        },
    }
}

/// Decodes a BMP280 air-pressure reading in pascal from the BMP280
/// status byte and the four-byte block read at `BMP280_PRESSURE_REG_L`
/// (`b0` lowest; `b3` is transferred by the device but carries no data).
pub fn bmp280_air_pressure(
    status: u8,
    b0: u8,
    b1: u8,
    b2: u8,
    b3: u8,
) -> (r: Result<u32, SensorHubError>)
    ensures
        r == spec_bmp280_air_pressure(status, b0, b1, b2, b3),
{
    match bmp280_status(status) {
        Err(e) => Err(e),
        Ok(()) => {
            let pressure: u32 = (b0 as u32) + (b1 as u32) * 256 + (b2 as u32) * 65536;
            if pressure >= 110000 {
                Err(SensorHubError::BarometerValueNotValid)
            } else {
                Ok(pressure)
            }
        },
    }
}

/// Whether the human-presence byte reports a detection: exactly the
/// value 1 does; 0 and every other value does not.
pub open spec fn spec_human_detected(raw: u8) -> bool {
    raw == 1
}

/// Decodes the passive-infrared human-presence register byte.
pub fn human_detected(raw: u8) -> (r: bool)
    ensures
        r == spec_human_detected(raw),
{
    raw == 1
}

/// Law: with the overflow flag set, `ext_temp` fails with overflow no
/// matter what the temperature register holds; with the not-found flag
/// set and the overflow flag clear it fails with not-found, again for
/// every temperature byte; and with both flags clear it returns the
/// temperature byte reinterpreted as signed.
pub proof fn lemma_ext_temp_cases(status: u8, raw: u8)
    ensures
        ext_temp_overflow_flag(status) ==> spec_ext_temp(status, raw) == Err::<
            i8,
            SensorHubError,
        >(SensorHubError::ExternalTemperatureOverflow),
        !ext_temp_overflow_flag(status) && ext_temp_missing_flag(status) ==> spec_ext_temp(
            status,
            raw,
        ) == Err::<i8, SensorHubError>(SensorHubError::ExternalTemperatureNotFound),
        !ext_temp_overflow_flag(status) && !ext_temp_missing_flag(status) ==> spec_ext_temp(
            status,
            raw,
        ) == Ok::<i8, SensorHubError>(signed_of(raw)),
{
}

/// Law: a reassembled light value of 1800 lux or more fails with
/// overflow even when both status flags are clear, and below the
/// ceiling the value itself is returned.
pub proof fn lemma_brightness_ceiling(status: u8, low: u8, high: u8)
    ensures
        !brightness_overflow_flag(status) && !brightness_missing_flag(status) && lux_of(low, high)
            >= 1800 ==> spec_brightness(status, low, high) == Err::<u16, SensorHubError>(
            SensorHubError::BrightnessOverflow,
        ),
        !brightness_overflow_flag(status) && !brightness_missing_flag(status) && lux_of(low, high)
            < 1800 ==> spec_brightness(status, low, high) == Ok::<u16, SensorHubError>(
            lux_of(low, high) as u16,
        ),
{
}

/// Law: a nonzero BMP280 status byte makes `bmp280_air_pressure` fail
/// as not valid whatever the pressure block holds, and the fourth byte
/// of the block never influences the result.
pub proof fn lemma_bmp280_pressure_cases(status: u8, b0: u8, b1: u8, b2: u8, b3: u8, other_b3: u8)
    ensures
        status != 0 ==> spec_bmp280_air_pressure(status, b0, b1, b2, b3) == Err::<
            u32,
            SensorHubError,
        >(SensorHubError::BarometerValueNotValid),
        spec_bmp280_air_pressure(status, b0, b1, b2, b3) == spec_bmp280_air_pressure(
            status,
            b0,
            b1,
            b2,
            other_b3,
        ),
{
}

/// Law: every read operation is idempotent. A second read that observes
/// the same register bytes decodes to the identical result: each
/// outcome is a function of the observed bytes alone, and the decoders
/// keep no state between calls.
pub proof fn lemma_reads_idempotent(
    status_a: u8,
    b0_a: u8,
    b1_a: u8,
    b2_a: u8,
    b3_a: u8,
    status_b: u8,
    b0_b: u8,
    b1_b: u8,
    b2_b: u8,
    b3_b: u8,
)
    requires
        status_a == status_b,
        b0_a == b0_b,
        b1_a == b1_b,
        b2_a == b2_b,
        b3_a == b3_b,
    ensures
        spec_ext_temp(status_a, b0_a) == spec_ext_temp(status_b, b0_b),
        spec_brightness(status_a, b0_a, b1_a) == spec_brightness(status_b, b0_b, b1_b),
        spec_on_board_temp(b0_a) == spec_on_board_temp(b0_b),
        spec_on_board_humidity(b0_a) == spec_on_board_humidity(b0_b),
        spec_bmp280_temp(status_a, b0_a) == spec_bmp280_temp(status_b, b0_b),
        spec_bmp280_air_pressure(status_a, b0_a, b1_a, b2_a, b3_a) == spec_bmp280_air_pressure(
            status_b,
            b0_b,
            b1_b,
            b2_b,
            b3_b,
        ),
        spec_human_detected(b0_a) == spec_human_detected(b0_b),
{
}

} // verus!
