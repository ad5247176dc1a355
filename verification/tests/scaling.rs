//! Decode and scaling rules, checked on concrete raw values, including a
//! cross-check of the fixed-point results against the datasheet's floating
//! point formulas.

use si7021_t_rh::constants::DeviceAddress;
use si7021_t_rh::data::{
    be16, be32, firmware_from_byte, heater_write_value, scale_humidity, scale_temperature,
    DeviceData, DeviceModel,
};

#[test]
fn humidity_boundaries_clamp() {
    // raw 0 scales to -6 percent and clamps up to 0
    assert_eq!(scale_humidity(0x0000), 0);
    // raw 0xFFFF scales to about 118.99 percent and clamps down to 100
    assert_eq!(scale_humidity(0xffff), 10000);
}

#[test]
fn humidity_midrange_matches_formula() {
    // 0x8000 * 125 / 65536 - 6 = 56.5 percent exactly
    assert_eq!(scale_humidity(0x8000), 5650);
    let exact = (0x8000 as f64) * 125.0 / 65536.0 - 6.0;
    assert!((exact * 100.0 - 5650.0).abs() < 1.0);
    // 0x7000 * 125 / 65536 - 6 = 48.6875 percent, truncated to hundredths
    assert_eq!(scale_humidity(0x7000), 4868);
    let exact = (0x7000 as f64) * 125.0 / 65536.0 - 6.0;
    assert!((exact * 100.0 - 4868.0).abs() < 1.0);
}

#[test]
fn humidity_never_exceeds_clamp() {
    let mut raw: u32 = 0;
    while raw <= 0xffff {
        let h = scale_humidity(raw as u16);
        assert!(h <= 10000);
        raw += 257;
    }
}

#[test]
fn temperature_matches_formula() {
    // 0x6000 * 175.72 / 65536 - 46.85 = 19.0445 degrees C
    assert_eq!(scale_temperature(0x6000), 1904);
    let exact = (0x6000 as f64) * 175.72 / 65536.0 - 46.85;
    assert!((exact * 100.0 - 1904.0).abs() < 1.0);
}

#[test]
fn temperature_extremes() {
    assert_eq!(scale_temperature(0x0000), -4685);
    assert_eq!(scale_temperature(0xffff), 12886);
    let exact = (0xffff as f64) * 175.72 / 65536.0 - 46.85;
    assert!((exact * 100.0 - 12886.0).abs() < 1.0);
}

#[test]
fn big_endian_decode() {
    assert_eq!(be16(0x12, 0x34), 0x1234);
    assert_eq!(be16(0xff, 0xff), 0xffff);
    assert_eq!(be32(0xde, 0xad, 0xbe, 0xef), 0xdead_beef);
    assert_eq!(be32(0x00, 0x00, 0x00, 0x01), 1);
}

#[test]
fn firmware_byte_mapping_is_total() {
    assert_eq!(firmware_from_byte(0xff), 1);
    assert_eq!(firmware_from_byte(0x20), 2);
    // every other byte is indeterminate
    assert_eq!(firmware_from_byte(0x00), 0);
    assert_eq!(firmware_from_byte(0x7f), 0);
    assert_eq!(firmware_from_byte(0x21), 0);
}

#[test]
fn model_byte_mapping_is_total() {
    assert_eq!(DeviceModel::from(0xff), DeviceModel::SiEngineeringSample);
    assert_eq!(DeviceModel::from(0x0d), DeviceModel::Si7013);
    assert_eq!(DeviceModel::from(0x14), DeviceModel::Si7020);
    assert_eq!(DeviceModel::from(0x15), DeviceModel::Si7021);
    assert_eq!(DeviceModel::from(0x00), DeviceModel::NotRead);
    // unrecognized bytes fall back to NotRead instead of failing
    assert_eq!(DeviceModel::from(0x42), DeviceModel::NotRead);
    assert_eq!(DeviceModel::from(0xfe), DeviceModel::NotRead);
}

#[test]
fn heater_write_value_read_modify_write() {
    // bit 2 is set or cleared; every other bit is preserved
    assert_eq!(heater_write_value(0xb3, true), 0xb7);
    assert_eq!(heater_write_value(0xb7, false), 0xb3);
    assert_eq!(heater_write_value(0x00, true), 0x04);
    assert_eq!(heater_write_value(0xff, false), 0xfb);
    // enable then disable restores a byte whose heater bit was clear
    assert_eq!(heater_write_value(heater_write_value(0xb3, true), false), 0xb3);
}

#[test]
fn device_address_is_fixed() {
    assert_eq!(u8::from(DeviceAddress::Primary), 0x40);
    assert_eq!(DeviceAddress::default(), DeviceAddress::Primary);
}

#[test]
fn device_data_default_is_unread() {
    let d = DeviceData::default();
    assert_eq!(d.id, DeviceModel::NotRead);
    assert_eq!(d.firmware_version, 0);
    assert_eq!(d.serial_a, 0);
    assert_eq!(d.serial_b, 0);
}
