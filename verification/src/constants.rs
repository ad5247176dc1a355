//! Command bytes and the fixed bus address of the Si7021 sensor family.
#![allow(non_upper_case_globals)]

use vstd::prelude::*;

verus! {

/// Measure Relative Humidity, Hold Master Mode
pub const Si7021_READ_RH_HOLD: u8 = 0xE5;
/// Measure Relative Humidity, No Hold Master Mode
pub const Si7021_READ_RH_NO_HOLD: u8 = 0xF5;
/// Measure Temperature, Hold Master Mode
pub const Si7021_READ_TEMP_HOLD: u8 = 0xE3;
/// Measure Temperature, No Hold Master Mode
pub const Si7021_READ_TEMP_NO_HOLD: u8 = 0xF3;
/// Read Temperature Value from Previous RH Measurement
pub const Si7021_READ_TEMP_AFTER_PREVIOUS_RH: u8 = 0xE0;
/// Reset
pub const Si7021_RESET: u8 = 0xFE;
/// Write RH/T User Register 1
pub const Si7021_WRITE_RH_T_USER_REG_1: u8 = 0xE6;
/// Read RH/T User Register 1
pub const Si7021_READ_RH_T_USER_REG_1: u8 = 0xE7;
/// Write Heater Control Register
pub const Si7021_WRITE_HEATER_CONTROL: u8 = 0x51;
/// Read Heater Control Register
pub const Si7021_READ_HEATER_CONTROL: u8 = 0x11;
/// Read Electronic ID 1st Byte, first command byte
pub const Si7021_READ_ID_BYTE_1_A: u8 = 0xFA;
/// Read Electronic ID 1st Byte, second command byte
pub const Si7021_READ_ID_BYTE_1_B: u8 = 0x0F;
/// Read Electronic ID 2nd Byte, first command byte
pub const Si7021_READ_ID_BYTE_2_A: u8 = 0xFC;
/// Read Electronic ID 2nd Byte, second command byte
pub const Si7021_READ_ID_BYTE_2_B: u8 = 0xC9;
/// Read Firmware Revision, first command byte
pub const Si7021_READ_FW_VERSION_A: u8 = 0x84;
/// Read Firmware Revision, second command byte
pub const Si7021_READ_FW_VERSION_B: u8 = 0xB8;

/// The only bus address the chip family answers to.
pub const PRIMARY_I2C_ADDRESS: u8 = 0x40;

/// Si7021 I2C device address
#[derive(Debug, Clone, Copy, PartialEq, Eq, Structural)]
pub enum DeviceAddress {
    /// it only has one I2C address but let's call it primary in case a future
    /// secondary is needed
    Primary,
}

impl From<DeviceAddress> for u8 {
    fn from(value: DeviceAddress) -> (r: u8) {
        match value {
            DeviceAddress::Primary => 0x40,
        }
    }
}

impl vstd::std_specs::convert::FromSpecImpl<DeviceAddress> for u8 {
    open spec fn obeys_from_spec() -> bool {
        true
    }

    open spec fn from_spec(value: DeviceAddress) -> u8 {
        0x40
    }
}

impl Default for DeviceAddress {
    fn default() -> (r: Self)
        ensures
            r == DeviceAddress::Primary,
    {
        DeviceAddress::Primary
    }
}

} // verus!
