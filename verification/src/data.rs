//! Typed sensor data: device identity, measurements, and the decode/scale
//! rules that turn raw register bit patterns into them.

use vstd::prelude::*;

verus! {

/// SiLabs device model
#[derive(Debug, Clone, Copy, PartialEq, Eq, Structural)]
pub enum DeviceModel {
    SiEngineeringSample,
    Si7013,
    Si7020,
    Si7021,
    /// sentinel before identification succeeds, and the fallback for any
    /// identity byte outside the documented set
    NotRead,
}

/// The model tag an identity byte decodes to. The mapping is total: every
/// byte outside the documented set falls back to `NotRead`.
pub open spec fn spec_model_from_byte(v: u8) -> DeviceModel {
    if v == 0xff {
        DeviceModel::SiEngineeringSample
    } else if v == 0x0d {
        DeviceModel::Si7013
    } else if v == 0x14 {
        DeviceModel::Si7020
    } else if v == 0x15 {
        DeviceModel::Si7021
    } else {
        DeviceModel::NotRead
    }
}

impl From<u8> for DeviceModel {
    fn from(v: u8) -> (r: Self) {
        match v {
            0xff => Self::SiEngineeringSample,
            0x0d => Self::Si7013,
            0x14 => Self::Si7020,
            0x15 => Self::Si7021,
            _ => Self::NotRead,
        }
    }
}

impl vstd::std_specs::convert::FromSpecImpl<u8> for DeviceModel {
    open spec fn obeys_from_spec() -> bool {
        true
    }

    open spec fn from_spec(v: u8) -> DeviceModel {
        spec_model_from_byte(v)
    }
}

/// The firmware revision a revision byte decodes to. The mapping is total:
/// every byte outside the documented set falls back to 0 (indeterminate).
pub open spec fn spec_firmware_from_byte(v: u8) -> u8 {
    if v == 0xff {
        1
    } else if v == 0x20 {
        2
    } else {
        0
    }
}

/// Decode the firmware-revision byte returned by the chip.
pub fn firmware_from_byte(v: u8) -> (r: u8)
    ensures
        r == spec_firmware_from_byte(v),
{
    if v == 0xff {
        1
    } else if v == 0x20 {
        2
    } else {
        0
    }
}

/// Si7021 device id and firmware version
#[derive(Debug, Clone, Copy, PartialEq, Eq, Structural)]
pub struct DeviceData {
    /// device ID
    pub id: DeviceModel,
    pub firmware_version: u8,
    pub serial_a: u32,
    pub serial_b: u32,
}

impl DeviceData {
    /// The all-unread value the driver starts from.
    pub open spec fn spec_default() -> DeviceData {
        DeviceData { id: DeviceModel::NotRead, firmware_version: 0, serial_a: 0, serial_b: 0 }
    }
}

impl Default for DeviceData {
    fn default() -> (r: Self)
        ensures
            r == DeviceData::spec_default(),
    {
        DeviceData { id: DeviceModel::NotRead, firmware_version: 0, serial_a: 0, serial_b: 0 }
    }
}

/// A measurement result from the sensor, held in hundredths of a unit (the
/// chip's own resolution is coarser than 0.01 in either quantity).
#[derive(Debug, Clone, Copy, PartialEq, Eq, Structural)]
pub struct Measurements {
    /// temperature, hundredths of a degree Celsius
    pub temperature_centi_c: i32,
    /// relative humidity, hundredths of a percent, clamped to 0..=10000
    pub relative_humidity_centi_percent: u16,
}

/// The 16-bit big-endian value held by two bytes.
pub open spec fn spec_be16(hi: u8, lo: u8) -> u16 {
    (hi * 256 + lo) as u16
}

pub fn be16(hi: u8, lo: u8) -> (r: u16)
    ensures
        r == spec_be16(hi, lo),
{
    (hi as u16) * 256 + (lo as u16)
}

/// The 32-bit big-endian value held by four bytes.
pub open spec fn spec_be32(b0: u8, b1: u8, b2: u8, b3: u8) -> u32 {
    (b0 * 0x100_0000 + b1 * 0x1_0000 + b2 * 0x100 + b3) as u32
}

pub fn be32(b0: u8, b1: u8, b2: u8, b3: u8) -> (r: u32)
    ensures
        r == spec_be32(b0, b1, b2, b3),
{
    (b0 as u32) * 0x100_0000 + (b1 as u32) * 0x1_0000 + (b2 as u32) * 0x100 + (b3 as u32)
}

/// Fixed-point humidity scaling: `raw * 125 / 65536 - 6` percent, kept in
/// hundredths and clamped to the closed range [0, 100] percent. The clamp is
/// applied after scaling, never before.
pub open spec fn spec_scale_humidity(raw: u16) -> u16 {
    let scaled = raw * 12500 / 65536 - 600;
    if scaled < 0 {
        0
    } else if scaled > 10000 {
        10000
    } else {
        scaled as u16
    }
}

/// Scale a raw humidity conversion result to hundredths of a percent.
pub fn scale_humidity(raw: u16) -> (r: u16)
    ensures
        r == spec_scale_humidity(raw),
        r <= 10000,
{
    let scaled: u32 = (raw as u32) * 12500 / 65536;
    if scaled < 600 {
        0
    } else if scaled - 600 > 10000 {
        10000
    } else {
        (scaled - 600) as u16
    }
}

/// Fixed-point temperature scaling: `raw * 175.72 / 65536 - 46.85` degrees
/// Celsius, kept in hundredths. No clamping: the formula's natural range
/// already matches the chip's operating range.
pub open spec fn spec_scale_temperature(raw: u16) -> int {
    raw * 17572 / 65536 - 4685
}

/// Scale a raw temperature conversion result to hundredths of a degree
/// Celsius.
pub fn scale_temperature(raw: u16) -> (r: i32)
    ensures
        r == spec_scale_temperature(raw),
        -4685 <= r <= 12886,
{
    let scaled: u32 = (raw as u32) * 17572 / 65536;
    (scaled as i32) - 4685
}

/// The user-register byte a heater toggle writes back: bit 2 set or
/// cleared, every other bit taken from the byte just read.
pub open spec fn spec_heater_write_value(current: u8, enable: bool) -> u8 {
    if enable {
        current | 0x04
    } else {
        current & 0xfb
    }
}

/// Compute the user-register byte for a heater toggle.
pub fn heater_write_value(current: u8, enable: bool) -> (r: u8)
    ensures
        r == spec_heater_write_value(current, enable),
{
    if enable {
        current | 0x04
    } else {
        current & 0xfb
    }
}

/// A heater toggle is a faithful read-modify-write: the written byte agrees
/// with the byte read on every bit outside bit 2, bit 2 itself follows the
/// request, and enabling then disabling the heater writes back exactly the
/// original non-heater bits - the original byte itself whenever its heater
/// bit was clear.
pub proof fn lemma_heater_toggle_preserves_bits(current: u8, enable: bool)
    ensures
        spec_heater_write_value(current, enable) & 0xfb == current & 0xfb,
        spec_heater_write_value(current, enable) & 0x04 == if enable {
            0x04 as u8
        } else {
            0x00 as u8
        },
        spec_heater_write_value(spec_heater_write_value(current, true), false) == current & 0xfb,
        current & 0x04 == 0 ==> spec_heater_write_value(
            spec_heater_write_value(current, true),
            false,
        ) == current,
{
    assert((current | 0x04) & 0xfb == current & 0xfb) by (bit_vector);
    assert((current & 0xfb) & 0xfb == current & 0xfb) by (bit_vector);
    assert((current | 0x04) & 0x04 == 0x04) by (bit_vector);
    assert((current & 0xfb) & 0x04 == 0) by (bit_vector);
    assert(current & 0x04 == 0 ==> current & 0xfb == current) by (bit_vector);
}

/// Scaled humidity lands in the closed range [0, 100] percent for every raw
/// reading, and the clamp bites at both ends: an all-zero reading (-6 percent
/// before the clamp) reports 0, and an all-ones reading (about 118.99 percent
/// before the clamp) reports 100.
pub proof fn lemma_scale_humidity_range(raw: u16)
    ensures
        spec_scale_humidity(raw) <= 10000,
        spec_scale_humidity(0) == 0,
        spec_scale_humidity(0xffff) == 10000,
{
}

} // verus!
