//! The driver's protocol sequencing, exercised against the scripted
//! transport: command bytes, transaction order and counts, decode results,
//! and error classification.

use si7021_t_rh::Si7021;
use si7021_t_rh::data::{DeviceModel, Measurements};
use si7021_t_rh::error::Error;
use si7021_t_rh::mock::{LoggedDelay, RecordedOp, ScriptFault, ScriptedTransport};

fn scripted(responses: Vec<Vec<u8>>) -> ScriptedTransport {
    let mut transport = ScriptedTransport::new();
    for response in responses {
        transport.push_response(response);
    }
    transport
}

fn expect_write(op: &RecordedOp, expected: &[u8]) {
    match op {
        RecordedOp::Write { address, data } => {
            assert_eq!(*address, 0x40);
            assert_eq!(data.as_slice(), expected);
        },
        _ => panic!("expected a plain write"),
    }
}

fn expect_write_read(op: &RecordedOp, expected_written: &[u8], expected_response: &[u8]) {
    match op {
        RecordedOp::WriteRead { address, data, response } => {
            assert_eq!(*address, 0x40);
            assert_eq!(data.as_slice(), expected_written);
            assert_eq!(response.as_slice(), expected_response);
        },
        _ => panic!("expected a combined write-then-read"),
    }
}

fn expect_read(op: &RecordedOp, expected_response: &[u8]) {
    match op {
        RecordedOp::Read { address, response } => {
            assert_eq!(*address, 0x40);
            assert_eq!(response.as_slice(), expected_response);
        },
        _ => panic!("expected a plain read"),
    }
}

#[test]
fn new_starts_with_unread_identity() {
    let driver = Si7021::new(ScriptedTransport::new(), LoggedDelay::new());
    assert_eq!(driver.device_data.id, DeviceModel::NotRead);
    assert_eq!(driver.device_data.firmware_version, 0);
    assert_eq!(driver.device_data.serial_a, 0);
    assert_eq!(driver.device_data.serial_b, 0);
}

#[test]
fn release_gives_back_the_transport() {
    let mut driver = Si7021::new(scripted(vec![vec![0x3a]]), LoggedDelay::new());
    let connected = driver.is_connected().unwrap();
    assert!(connected);
    let transport = driver.release();
    assert_eq!(transport.call_count(), 1);
}

#[test]
fn is_connected_checks_user_register_default() {
    let mut driver = Si7021::new(scripted(vec![vec![0x3a]]), LoggedDelay::new());
    assert!(driver.is_connected().unwrap());
    let transport = driver.release();
    assert_eq!(transport.log.len(), 1);
    expect_write_read(&transport.log[0], &[0xe7], &[0x3a]);
}

#[test]
fn is_connected_false_on_any_other_byte() {
    // 0x55 is a perfectly plausible configuration, but the probe is an
    // exact match against the power-on default
    let mut driver = Si7021::new(scripted(vec![vec![0x55]]), LoggedDelay::new());
    assert!(!driver.is_connected().unwrap());
}

#[test]
fn is_connected_propagates_transport_fault() {
    let mut driver = Si7021::new(ScriptedTransport::new(), LoggedDelay::new());
    let r = driver.is_connected();
    assert!(matches!(r, Err(Error::I2c(ScriptFault::Exhausted))));
}

#[test]
fn is_connected_rejects_short_response() {
    let mut driver = Si7021::new(scripted(vec![vec![0x3a, 0x00]]), LoggedDelay::new());
    let r = driver.is_connected();
    assert!(matches!(r, Err(Error::I2c(ScriptFault::WrongLength))));
}

#[test]
fn reset_device_writes_reset_command() {
    let mut driver = Si7021::new(ScriptedTransport::new(), LoggedDelay::new());
    driver.reset_device().unwrap();
    let transport = driver.release();
    assert_eq!(transport.log.len(), 1);
    expect_write(&transport.log[0], &[0xfe]);
}

#[test]
fn read_device_model_reassembles_serials() {
    let id1 = vec![0xde, 0x01, 0xad, 0x02, 0xbe, 0x03, 0xef, 0x04];
    let id2 = vec![0x15, 0x34, 0x99, 0x98, 0x56, 0x78, 0x97, 0x96];
    let mut driver = Si7021::new(scripted(vec![id1.clone(), id2.clone()]), LoggedDelay::new());
    let model = driver.read_device_model().unwrap();
    assert_eq!(model, DeviceModel::Si7021);
    assert_eq!(driver.device_data.id, DeviceModel::Si7021);
    // serial A interleaves bytes 0, 2, 4, 6 of the first response
    assert_eq!(driver.device_data.serial_a, 0xdead_beef);
    // serial B interleaves bytes 0, 1, 4, 5 of the second response
    assert_eq!(driver.device_data.serial_b, 0x1534_5678);
    let transport = driver.release();
    assert_eq!(transport.log.len(), 2);
    expect_write_read(&transport.log[0], &[0xfa, 0x0f], &id1);
    expect_write_read(&transport.log[1], &[0xfc, 0xc9], &id2);
}

#[test]
fn read_device_model_unknown_byte_is_not_read() {
    let id1 = vec![0; 8];
    let id2 = vec![0x42, 0, 0, 0, 0, 0, 0, 0];
    let mut driver = Si7021::new(scripted(vec![id1, id2]), LoggedDelay::new());
    let model = driver.read_device_model().unwrap();
    assert_eq!(model, DeviceModel::NotRead);
    assert_eq!(driver.device_data.id, DeviceModel::NotRead);
}

#[test]
fn read_firmware_version_decodes_and_caches() {
    let mut driver = Si7021::new(scripted(vec![vec![0x20]]), LoggedDelay::new());
    let version = driver.read_firmware_version().unwrap();
    assert_eq!(version, 2);
    assert_eq!(driver.device_data.firmware_version, 2);
    let transport = driver.release();
    assert_eq!(transport.log.len(), 1);
    expect_write_read(&transport.log[0], &[0x84, 0xb8], &[0x20]);
}

#[test]
fn read_firmware_version_unknown_byte_is_zero() {
    let mut driver = Si7021::new(scripted(vec![vec![0x07]]), LoggedDelay::new());
    assert_eq!(driver.read_firmware_version().unwrap(), 0);
    assert_eq!(driver.device_data.firmware_version, 0);
}

#[test]
fn init_device_full_sequence_reports_ready() {
    let id1 = vec![0xde, 0x01, 0xad, 0x02, 0xbe, 0x03, 0xef, 0x04];
    let id2 = vec![0x15, 0x34, 0x99, 0x98, 0x56, 0x78, 0x97, 0x96];
    let responses = vec![vec![0x3a], id1, id2, vec![0xff]];
    let mut driver = Si7021::new(scripted(responses), LoggedDelay::new());
    assert!(driver.init_device().unwrap());
    assert_eq!(driver.device_data.id, DeviceModel::Si7021);
    assert_eq!(driver.device_data.firmware_version, 1);
    assert_eq!(driver.device_data.serial_a, 0xdead_beef);
    assert_eq!(driver.device_data.serial_b, 0x1534_5678);
    let transport = driver.release();
    // reset, probe, two identity reads, firmware read
    assert_eq!(transport.log.len(), 5);
    expect_write(&transport.log[0], &[0xfe]);
    expect_write_read(&transport.log[1], &[0xe7], &[0x3a]);
    expect_write_read(&transport.log[4], &[0x84, 0xb8], &[0xff]);
}

#[test]
fn init_device_stops_after_failed_probe() {
    let mut driver = Si7021::new(scripted(vec![vec![0x55]]), LoggedDelay::new());
    assert!(!driver.init_device().unwrap());
    // identification is never attempted and the identity cache is untouched
    assert_eq!(driver.device_data.id, DeviceModel::NotRead);
    assert_eq!(driver.device_data.serial_a, 0);
    let transport = driver.release();
    assert_eq!(transport.log.len(), 2);
    expect_write(&transport.log[0], &[0xfe]);
    expect_write_read(&transport.log[1], &[0xe7], &[0x55]);
}

#[test]
fn init_device_stops_on_unknown_model() {
    let id1 = vec![0; 8];
    let id2 = vec![0x42, 0, 0, 0, 0, 0, 0, 0];
    let mut driver = Si7021::new(scripted(vec![vec![0x3a], id1, id2]), LoggedDelay::new());
    assert!(!driver.init_device().unwrap());
    assert_eq!(driver.device_data.id, DeviceModel::NotRead);
    // the firmware read is never issued
    let transport = driver.release();
    assert_eq!(transport.log.len(), 4);
}

#[test]
fn read_relative_humidity_scales_and_clamps() {
    let mut driver = Si7021::new(scripted(vec![vec![0x80, 0x00, 0xaa]]), LoggedDelay::new());
    let humidity = driver.read_relative_humidity().unwrap();
    assert_eq!(humidity, 5650);
    let transport = driver.release();
    assert_eq!(transport.log.len(), 2);
    expect_write(&transport.log[0], &[0xf5]);
    expect_read(&transport.log[1], &[0x80, 0x00, 0xaa]);
}

#[test]
fn read_relative_humidity_clamps_low_raw_to_zero() {
    let mut driver = Si7021::new(scripted(vec![vec![0x00, 0x00, 0xaa]]), LoggedDelay::new());
    assert_eq!(driver.read_relative_humidity().unwrap(), 0);
}

#[test]
fn read_temperature_scales() {
    let mut driver = Si7021::new(scripted(vec![vec![0x60, 0x00, 0xcc]]), LoggedDelay::new());
    let temperature = driver.read_temperature().unwrap();
    assert_eq!(temperature, 1904);
    let transport = driver.release();
    assert_eq!(transport.log.len(), 2);
    expect_write(&transport.log[0], &[0xf3]);
    expect_read(&transport.log[1], &[0x60, 0x00, 0xcc]);
}

#[test]
fn read_measurements_uses_one_conversion_cycle() {
    let responses = vec![vec![0x80, 0x00, 0xaa], vec![0x60, 0x00]];
    let mut driver = Si7021::new(scripted(responses), LoggedDelay::new());
    let measurements = driver.read_measurements().unwrap();
    assert_eq!(
        measurements,
        Measurements { temperature_centi_c: 1904, relative_humidity_centi_percent: 5650 },
    );
    let transport = driver.release();
    // one RH conversion (command plus read), then one 2-byte register read
    // of the temperature from that same conversion - never a second cycle
    assert_eq!(transport.log.len(), 3);
    expect_write(&transport.log[0], &[0xf5]);
    expect_read(&transport.log[1], &[0x80, 0x00, 0xaa]);
    expect_write_read(&transport.log[2], &[0xe0], &[0x60, 0x00]);
}

#[test]
fn heater_control_round_trip_preserves_other_bits() {
    // register starts at a non-zero pattern with the heater bit clear; the
    // second read sees the value the first toggle wrote
    let responses = vec![vec![0xb3], vec![0xb7]];
    let mut driver = Si7021::new(scripted(responses), LoggedDelay::new());
    driver.heater_control(true).unwrap();
    driver.heater_control(false).unwrap();
    let transport = driver.release();
    assert_eq!(transport.log.len(), 4);
    expect_write_read(&transport.log[0], &[0xe7], &[0xb3]);
    expect_write(&transport.log[1], &[0xe6, 0xb7]);
    expect_write_read(&transport.log[2], &[0xe7], &[0xb7]);
    // every non-heater bit is back to its original value
    expect_write(&transport.log[3], &[0xe6, 0xb3]);
}

#[test]
fn is_heater_enabled_reads_bit_2() {
    let mut driver = Si7021::new(scripted(vec![vec![0xb7], vec![0xb3]]), LoggedDelay::new());
    assert!(driver.is_heater_enabled().unwrap());
    assert!(!driver.is_heater_enabled().unwrap());
}

#[test]
fn set_heater_level_rejects_before_any_bus_traffic() {
    let mut driver = Si7021::new(ScriptedTransport::new(), LoggedDelay::new());
    let r = driver.set_heater_level(0x10);
    match r {
        Err(Error::OutOfRange(level)) => assert_eq!(level, 0x10),
        _ => panic!("expected OutOfRange"),
    }
    let transport = driver.release();
    // validation precedes the transaction: zero transport calls
    assert_eq!(transport.call_count(), 0);
}

#[test]
fn set_heater_level_writes_level_in_range() {
    let mut driver = Si7021::new(ScriptedTransport::new(), LoggedDelay::new());
    driver.set_heater_level(0x0f).unwrap();
    let transport = driver.release();
    assert_eq!(transport.log.len(), 1);
    expect_write(&transport.log[0], &[0x51, 0x0f]);
}
