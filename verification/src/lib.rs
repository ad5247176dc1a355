//! Protocol driver for the Si7021 family of I²C temperature/humidity sensors.
//!
//! The driver owns an I²C transport and a delay provider (the `transport`
//! module's traits), talks to the chip's one bus address, and turns fixed
//! command bytes and raw register bit patterns into typed measurements,
//! device identity, and heater configuration. Every operation's contract
//! pins down the exact bus traffic it issues and how each result is decoded
//! from the bytes the device answered.

pub mod constants;
pub mod data;
pub mod error;
pub mod mock;
pub mod transport;

use vstd::prelude::*;

use crate::constants::{
    PRIMARY_I2C_ADDRESS, Si7021_READ_FW_VERSION_A, Si7021_READ_FW_VERSION_B,
    Si7021_READ_ID_BYTE_1_A, Si7021_READ_ID_BYTE_1_B, Si7021_READ_ID_BYTE_2_A,
    Si7021_READ_ID_BYTE_2_B, Si7021_READ_RH_NO_HOLD, Si7021_READ_RH_T_USER_REG_1,
    Si7021_READ_TEMP_AFTER_PREVIOUS_RH, Si7021_READ_TEMP_NO_HOLD, Si7021_RESET,
    Si7021_WRITE_HEATER_CONTROL, Si7021_WRITE_RH_T_USER_REG_1, DeviceAddress,
};
use crate::data::{
    be16, be32, firmware_from_byte, heater_write_value, scale_humidity, scale_temperature,
    spec_be16, spec_be32, spec_firmware_from_byte, spec_heater_write_value,
    spec_model_from_byte, spec_scale_humidity, spec_scale_temperature, DeviceData, DeviceModel,
    Measurements,
};
use crate::error::Error;
use crate::transport::{
    extends, lemma_extends_index, lemma_extends_push, lemma_extends_refl, lemma_extends_trans,
    op_is_command,
    op_is_read, op_is_write_read, op_response, BusOp, Delay, Transport,
};

verus! {

/// The big-endian 16-bit raw value held by the first two response bytes of a
/// transaction.
pub open spec fn op_raw16(op: BusOp) -> u16 {
    spec_be16(op_response(op)[0], op_response(op)[1])
}

/// The bus traffic of one no-hold RH conversion: the conversion command,
/// then a 3-byte read of the result (2 data bytes and an unused checksum
/// byte).
pub open spec fn rh_conversion_trace(pre: Seq<BusOp>, post: Seq<BusOp>) -> bool {
    let n = pre.len() as int;
    &&& post.len() == n + 2
    &&& extends(pre, post)
    &&& op_is_command(post[n], seq![Si7021_READ_RH_NO_HOLD])
    &&& op_is_read(post[n + 1], 3)
}

/// The bus traffic of one no-hold temperature conversion: the conversion
/// command, then a 3-byte read of the result.
pub open spec fn temp_conversion_trace(pre: Seq<BusOp>, post: Seq<BusOp>) -> bool {
    let n = pre.len() as int;
    &&& post.len() == n + 2
    &&& extends(pre, post)
    &&& op_is_command(post[n], seq![Si7021_READ_TEMP_NO_HOLD])
    &&& op_is_read(post[n + 1], 3)
}

/// The bus traffic of a completed `init_device` call: a reset command and
/// the connectivity probe, then - as far as the probe and the model byte
/// allow - the two identity reads and the firmware read.
pub open spec fn init_trace(pre: Seq<BusOp>, post: Seq<BusOp>, ready: bool) -> bool {
    let n = pre.len() as int;
    &&& post.len() >= n + 2
    &&& extends(pre, post)
    &&& op_is_command(post[n], seq![Si7021_RESET])
    &&& op_is_write_read(post[n + 1], seq![Si7021_READ_RH_T_USER_REG_1], 1)
    &&& {
        let user_reg = op_response(post[n + 1])[0];
        if user_reg != 0x3a {
            // the probe failed: identification is never attempted
            &&& !ready
            &&& post.len() == n + 2
        } else {
            &&& post.len() >= n + 4
            &&& op_is_write_read(
                post[n + 2],
                seq![Si7021_READ_ID_BYTE_1_A, Si7021_READ_ID_BYTE_1_B],
                8,
            )
            &&& op_is_write_read(
                post[n + 3],
                seq![Si7021_READ_ID_BYTE_2_A, Si7021_READ_ID_BYTE_2_B],
                8,
            )
            &&& {
                let model = spec_model_from_byte(op_response(post[n + 3])[0]);
                if model == DeviceModel::NotRead {
                    &&& !ready
                    &&& post.len() == n + 4
                } else {
                    &&& ready
                    &&& post.len() == n + 5
                    &&& op_is_write_read(
                        post[n + 4],
                        seq![Si7021_READ_FW_VERSION_A, Si7021_READ_FW_VERSION_B],
                        1,
                    )
                }
            }
        }
    }
}

/// How a completed `init_device` call updates the cached identity, given its
/// bus traffic: nothing when the probe failed, otherwise the serial numbers
/// and model from the identity responses, and the firmware revision when it
/// was read.
pub open spec fn init_data_update(
    pre: Seq<BusOp>,
    post: Seq<BusOp>,
    before: DeviceData,
    after: DeviceData,
) -> bool {
    let n = pre.len() as int;
    if post.len() == n + 2 {
        after == before
    } else {
        let id1 = op_response(post[n + 2]);
        let id2 = op_response(post[n + 3]);
        &&& after.serial_a == spec_be32(id1[0], id1[2], id1[4], id1[6])
        &&& after.serial_b == spec_be32(id2[0], id2[1], id2[4], id2[5])
        &&& after.id == spec_model_from_byte(id2[0])
        &&& after.firmware_version == (if post.len() == n + 5 {
            spec_firmware_from_byte(op_response(post[n + 4])[0])
        } else {
            before.firmware_version
        })
    }
}

/// the Si7021 device
pub struct Si7021<I2C, D> {
    /// I²C interface
    i2c: I2C,
    /// I²C device address
    address: u8,
    delayer: D,
    pub device_data: DeviceData,
}

impl<I2C: Transport, D: Delay> Si7021<I2C, D> {
    /// the transport the driver owns
    pub closed spec fn spec_transport(&self) -> I2C {
        self.i2c
    }

    /// the delay provider the driver owns
    pub closed spec fn spec_delayer(&self) -> D {
        self.delayer
    }

    /// the bus address the driver talks to
    pub closed spec fn spec_address(&self) -> u8 {
        self.address
    }

    /// the cached device identity, as contracts see it
    pub closed spec fn spec_device_data(&self) -> DeviceData {
        self.device_data
    }

    /// every bus transaction the driver has issued, oldest first
    pub open spec fn ops(&self) -> Seq<BusOp> {
        self.spec_transport().ops()
    }

    /// every wait the driver has performed, in milliseconds, oldest first
    pub open spec fn waited(&self) -> Seq<u32> {
        self.spec_delayer().waited()
    }

    /// the driver always talks to the chip family's one bus address
    pub open spec fn wf(&self) -> bool {
        self.spec_address() == PRIMARY_I2C_ADDRESS
    }

    /// create new Si7021 driver with default I2C address: ADDR pin low
    pub fn new(i2c: I2C, delayer: D) -> (r: Self)
        ensures
            r.wf(),
            r.spec_transport() == i2c,
            r.spec_delayer() == delayer,
            r.spec_device_data() == DeviceData::spec_default(),
    {
        Si7021 {
            i2c,
            address: u8::from(DeviceAddress::Primary),
            delayer,
            device_data: DeviceData::default(),
        }
    }

    /// give back the I2C interface
    pub fn release(self) -> (r: I2C)
        ensures
            r == self.spec_transport(),
    {
        self.i2c
    }

    /// send a command buffer (command byte optionally followed by data
    /// byte(s)) to the device in one write transaction
    fn write_command(&mut self, command_buf: Vec<u8>) -> (r: Result<(), Error<I2C::Fault>>)
        requires
            old(self).wf(),
        ensures
            final(self).wf(),
            final(self).spec_delayer() == old(self).spec_delayer(),
            final(self).spec_device_data() == old(self).spec_device_data(),
            extends(old(self).ops(), final(self).ops()),
            match r {
                Ok(_) => final(self).ops() == old(self).ops().push(
                    (BusOp::Write { address: PRIMARY_I2C_ADDRESS, data: command_buf@ }),
                ),
                Err(e) => e matches Error::I2c(_),
            },
    {
        match self.i2c.write(self.address, &command_buf) {
            Ok(_) => {
                proof {
                    lemma_extends_push(old(self).ops(), final(self).ops().last());
                }
                Ok(())
            },
            Err(e) => Err(Error::I2c(e)),
        }
    }

    /// write a single register-selector byte, then read `read_len` bytes
    /// back, in one combined transaction with no intervening bus release
    fn read_register(&mut self, register_address: u8, read_len: usize) -> (r: Result<
        Vec<u8>,
        Error<I2C::Fault>,
    >)
        requires
            old(self).wf(),
        ensures
            final(self).wf(),
            final(self).spec_delayer() == old(self).spec_delayer(),
            final(self).spec_device_data() == old(self).spec_device_data(),
            extends(old(self).ops(), final(self).ops()),
            match r {
                Ok(buffer) => buffer@.len() == read_len && final(self).ops() == old(
                    self,
                ).ops().push(
                    (BusOp::WriteRead {
                        address: PRIMARY_I2C_ADDRESS,
                        data: seq![register_address],
                        response: buffer@,
                    }),
                ),
                Err(e) => e matches Error::I2c(_),
            },
    {
        let mut command_buffer: Vec<u8> = Vec::new();
        command_buffer.push(register_address);
        proof {
            assert(command_buffer@ =~= seq![register_address]);
        }
        match self.i2c.write_read(self.address, &command_buffer, read_len) {
            Ok(buffer) => {
                proof {
                    lemma_extends_push(old(self).ops(), final(self).ops().last());
                }
                Ok(buffer)
            },
            Err(e) => Err(Error::I2c(e)),
        }
    }

    /// send a fixed two-byte command, then read `read_len` bytes back, in
    /// one combined transaction with no intervening bus release
    fn command_read(&mut self, c0: u8, c1: u8, read_len: usize) -> (r: Result<
        Vec<u8>,
        Error<I2C::Fault>,
    >)
        requires
            old(self).wf(),
        ensures
            final(self).wf(),
            final(self).spec_delayer() == old(self).spec_delayer(),
            final(self).spec_device_data() == old(self).spec_device_data(),
            extends(old(self).ops(), final(self).ops()),
            match r {
                Ok(buffer) => buffer@.len() == read_len && final(self).ops() == old(
                    self,
                ).ops().push(
                    (BusOp::WriteRead {
                        address: PRIMARY_I2C_ADDRESS,
                        data: seq![c0, c1],
                        response: buffer@,
                    }),
                ),
                Err(e) => e matches Error::I2c(_),
            },
    {
        let mut command_buffer: Vec<u8> = Vec::new();
        command_buffer.push(c0);
        command_buffer.push(c1);
        proof {
            assert(command_buffer@ =~= seq![c0, c1]);
        }
        match self.i2c.write_read(self.address, &command_buffer, read_len) {
            Ok(buffer) => {
                proof {
                    lemma_extends_push(old(self).ops(), final(self).ops().last());
                }
                Ok(buffer)
            },
            Err(e) => Err(Error::I2c(e)),
        }
    }

    /// check if Si7021 is connected by reading RH/T User Register 1
    ///
    /// A heuristic probe: it reports true only when the register holds its
    /// power-on-reset value 0x3A, so a register reconfigured away from the
    /// default reads as not connected.
    pub fn is_connected(&mut self) -> (r: Result<bool, Error<I2C::Fault>>)
        requires
            old(self).wf(),
        ensures
            final(self).wf(),
            final(self).spec_delayer() == old(self).spec_delayer(),
            final(self).spec_device_data() == old(self).spec_device_data(),
            extends(old(self).ops(), final(self).ops()),
            match r {
                Ok(connected) => final(self).ops().len() == old(self).ops().len() + 1
                    && op_is_write_read(
                    final(self).ops().last(),
                    seq![Si7021_READ_RH_T_USER_REG_1],
                    1,
                ) && connected == (op_response(final(self).ops().last())[0] == 0x3a),
                Err(e) => e matches Error::I2c(_),
            },
    {
        let result_buf = match self.read_register(Si7021_READ_RH_T_USER_REG_1, 1) {
            Ok(buffer) => buffer,
            Err(e) => {
                return Err(e);
            },
        };
        Ok(result_buf[0] == 0x3a)
    }

    /// reset Si7021 device, called by init_device()
    ///
    /// Writes the reset command, then unconditionally waits out the chip's
    /// 50 ms power-up settle time.
    pub fn reset_device(&mut self) -> (r: Result<(), Error<I2C::Fault>>)
        requires
            old(self).wf(),
        ensures
            final(self).wf(),
            final(self).spec_device_data() == old(self).spec_device_data(),
            extends(old(self).ops(), final(self).ops()),
            match r {
                Ok(_) => final(self).ops() == old(self).ops().push(
                    (BusOp::Write { address: PRIMARY_I2C_ADDRESS, data: seq![Si7021_RESET] }),
                ) && final(self).waited() == old(self).waited().push(50u32),
                Err(e) => e matches Error::I2c(_) && final(self).waited() == old(self).waited(),
            },
    {
        let mut command: Vec<u8> = Vec::new();
        command.push(Si7021_RESET);
        proof {
            assert(command@ =~= seq![Si7021_RESET]);
        }
        match self.write_command(command) {
            Ok(_) => {},
            Err(e) => {
                return Err(e);
            },
        }
        self.delayer.delay_ms(50);
        Ok(())
    }

    /// initial Si7021 device
    ///
    /// Reset, probe connectivity, then identify: returns Ok(false) without
    /// attempting any identification read when the probe fails, Ok(false)
    /// after the identity reads when the model byte is unrecognized, and
    /// Ok(true) once the model and the firmware revision are both read and
    /// cached. Transitions are strictly sequential, with no retries.
    pub fn init_device(&mut self) -> (r: Result<bool, Error<I2C::Fault>>)
        requires
            old(self).wf(),
        ensures
            final(self).wf(),
            extends(old(self).ops(), final(self).ops()),
            match r {
                Ok(ready) => init_trace(old(self).ops(), final(self).ops(), ready)
                    && init_data_update(
                    old(self).ops(),
                    final(self).ops(),
                    old(self).spec_device_data(),
                    final(self).spec_device_data(),
                ) && final(self).waited() == old(self).waited().push(50u32),
                Err(e) => e matches Error::I2c(_),
            },
    {
        let ghost pre = old(self).ops();
        let ghost n = pre.len() as int;
        match self.reset_device() {
            Ok(_) => {},
            Err(e) => {
                return Err(e);
            },
        }
        let ghost ops1 = self.ops();
        let connected = match self.is_connected() {
            Ok(c) => c,
            Err(e) => {
                proof {
                    lemma_extends_trans(pre, ops1, self.ops());
                }
                return Err(e);
            },
        };
        let ghost ops2 = self.ops();
        proof {
            lemma_extends_trans(pre, ops1, ops2);
            lemma_extends_index(ops1, ops2, n);
            assert(ops2.last() == ops2[n + 1]);
        }
        if !connected {
            return Ok(false);
        }
        let model = match self.read_device_model() {
            Ok(m) => m,
            Err(e) => {
                proof {
                    lemma_extends_trans(pre, ops2, self.ops());
                }
                return Err(e);
            },
        };
        let ghost ops3 = self.ops();
        proof {
            lemma_extends_trans(pre, ops2, ops3);
            lemma_extends_index(ops2, ops3, n);
            lemma_extends_index(ops2, ops3, n + 1);
        }
        if model == DeviceModel::NotRead {
            return Ok(false);
        }
        let _firmware_result = match self.read_firmware_version() {
            Ok(v) => v,
            Err(e) => {
                proof {
                    lemma_extends_trans(pre, ops3, self.ops());
                }
                return Err(e);
            },
        };
        proof {
            lemma_extends_trans(pre, ops3, self.ops());
            lemma_extends_index(ops3, self.ops(), n);
            lemma_extends_index(ops3, self.ops(), n + 1);
            lemma_extends_index(ops3, self.ops(), n + 2);
            lemma_extends_index(ops3, self.ops(), n + 3);
        }
        Ok(true)
    }

    /// read device model
    ///
    /// Issues the two electronic-ID reads, reassembles both 32-bit serial
    /// numbers into the cached identity from the chip's interleaved byte
    /// positions, and decodes the model byte; every unrecognized model byte
    /// decodes to `NotRead` rather than failing.
    pub fn read_device_model(&mut self) -> (r: Result<DeviceModel, Error<I2C::Fault>>)
        requires
            old(self).wf(),
        ensures
            final(self).wf(),
            final(self).spec_delayer() == old(self).spec_delayer(),
            extends(old(self).ops(), final(self).ops()),
            final(self).spec_device_data().firmware_version == old(
                self,
            ).spec_device_data().firmware_version,
            match r {
                Ok(model) => {
                    let post = final(self).ops();
                    let n = old(self).ops().len() as int;
                    &&& post.len() == n + 2
                    &&& op_is_write_read(
                        post[n],
                        seq![Si7021_READ_ID_BYTE_1_A, Si7021_READ_ID_BYTE_1_B],
                        8,
                    )
                    &&& op_is_write_read(
                        post[n + 1],
                        seq![Si7021_READ_ID_BYTE_2_A, Si7021_READ_ID_BYTE_2_B],
                        8,
                    )
                    &&& model == spec_model_from_byte(op_response(post[n + 1])[0])
                    &&& final(self).spec_device_data() == (DeviceData {
                        id: model,
                        firmware_version: old(self).spec_device_data().firmware_version,
                        serial_a: spec_be32(
                            op_response(post[n])[0],
                            op_response(post[n])[2],
                            op_response(post[n])[4],
                            op_response(post[n])[6],
                        ),
                        serial_b: spec_be32(
                            op_response(post[n + 1])[0],
                            op_response(post[n + 1])[1],
                            op_response(post[n + 1])[4],
                            op_response(post[n + 1])[5],
                        ),
                    })
                },
                Err(e) => e matches Error::I2c(_) && final(self).spec_device_data().id == old(
                    self,
                ).spec_device_data().id && final(self).spec_device_data().serial_b == old(
                    self,
                ).spec_device_data().serial_b,
            },
    {
        let buf1 = match self.command_read(Si7021_READ_ID_BYTE_1_A, Si7021_READ_ID_BYTE_1_B, 8) {
            Ok(buffer) => buffer,
            Err(e) => {
                return Err(e);
            },
        };
        let serial_a = be32(buf1[0], buf1[2], buf1[4], buf1[6]);
        self.device_data.serial_a = serial_a;
        let ghost mid_ops = self.ops();

        let buf2 = match self.command_read(Si7021_READ_ID_BYTE_2_A, Si7021_READ_ID_BYTE_2_B, 8) {
            Ok(buffer) => buffer,
            Err(e) => {
                proof {
                    lemma_extends_trans(old(self).ops(), mid_ops, self.ops());
                }
                return Err(e);
            },
        };
        proof {
            lemma_extends_trans(old(self).ops(), mid_ops, self.ops());
        }
        let serial_b = be32(buf2[0], buf2[1], buf2[4], buf2[5]);
        self.device_data.serial_b = serial_b;

        // the first byte of the second response is the model-identifying byte
        let model = DeviceModel::from(buf2[0]);
        self.device_data.id = model;
        Ok(model)
    }

    /// read firmware version number of Si7021
    ///
    /// The revision byte decodes to 1 or 2 for the documented revisions and
    /// to 0 (indeterminate) for every other byte; the decoded value is also
    /// cached in the device identity.
    pub fn read_firmware_version(&mut self) -> (r: Result<u8, Error<I2C::Fault>>)
        requires
            old(self).wf(),
        ensures
            final(self).wf(),
            final(self).spec_delayer() == old(self).spec_delayer(),
            extends(old(self).ops(), final(self).ops()),
            final(self).spec_device_data().id == old(self).spec_device_data().id,
            final(self).spec_device_data().serial_a == old(self).spec_device_data().serial_a,
            final(self).spec_device_data().serial_b == old(self).spec_device_data().serial_b,
            match r {
                Ok(version) => {
                    let post = final(self).ops();
                    let n = old(self).ops().len() as int;
                    &&& post.len() == n + 1
                    &&& op_is_write_read(
                        post[n],
                        seq![Si7021_READ_FW_VERSION_A, Si7021_READ_FW_VERSION_B],
                        1,
                    )
                    &&& version == spec_firmware_from_byte(op_response(post[n])[0])
                    &&& final(self).spec_device_data().firmware_version == version
                },
                Err(e) => e matches Error::I2c(_) && final(self).spec_device_data() == old(
                    self,
                ).spec_device_data(),
            },
    {
        let result_buf = match self.command_read(
            Si7021_READ_FW_VERSION_A,
            Si7021_READ_FW_VERSION_B,
            1,
        ) {
            Ok(buffer) => buffer,
            Err(e) => {
                return Err(e);
            },
        };
        let version = firmware_from_byte(result_buf[0]);
        self.device_data.firmware_version = version;
        Ok(version)
    }

    /// read relative humidity, in hundredths of a percent
    ///
    /// Issues one no-hold RH conversion: a 20 ms guard wait (in case the
    /// caller re-invoked too soon after a prior conversion), the conversion
    /// command, a 25 ms conversion wait, then a 3-byte read. The scaled
    /// value is clamped to the closed range 0..=10000 after scaling.
    pub fn read_relative_humidity(&mut self) -> (r: Result<u16, Error<I2C::Fault>>)
        requires
            old(self).wf(),
        ensures
            final(self).wf(),
            final(self).spec_device_data() == old(self).spec_device_data(),
            extends(old(self).ops(), final(self).ops()),
            extends(old(self).waited(), final(self).waited()),
            match r {
                Ok(humidity) => rh_conversion_trace(old(self).ops(), final(self).ops())
                    && humidity == spec_scale_humidity(op_raw16(final(self).ops().last()))
                    && humidity <= 10000 && final(self).waited() == old(self).waited().push(
                    20u32,
                ).push(25u32),
                Err(e) => e matches Error::I2c(_),
            },
    {
        self.delayer.delay_ms(20);
        let mut command: Vec<u8> = Vec::new();
        command.push(Si7021_READ_RH_NO_HOLD);
        proof {
            assert(command@ =~= seq![Si7021_READ_RH_NO_HOLD]);
        }
        match self.write_command(command) {
            Ok(_) => {},
            Err(e) => {
                proof {
                    lemma_extends_push(old(self).waited(), 20u32);
                }
                return Err(e);
            },
        }
        self.delayer.delay_ms(25);
        proof {
            lemma_extends_push(old(self).waited(), 20u32);
            lemma_extends_push(old(self).waited().push(20u32), 25u32);
            lemma_extends_trans(
                old(self).waited(),
                old(self).waited().push(20u32),
                self.waited(),
            );
        }
        let ghost mid_ops = self.ops();
        let result_buf = match self.i2c.read(self.address, 3) {
            Ok(buffer) => buffer,
            Err(fault) => {
                proof {
                    lemma_extends_trans(old(self).ops(), mid_ops, self.ops());
                }
                return Err(Error::I2c(fault));
            },
        };
        proof {
            lemma_extends_push(mid_ops, self.ops().last());
            lemma_extends_trans(old(self).ops(), mid_ops, self.ops());
        }
        let raw = be16(result_buf[0], result_buf[1]);
        Ok(scale_humidity(raw))
    }

    /// read temperature, in hundredths of a degree Celsius
    ///
    /// Issues one no-hold temperature conversion: the conversion command, a
    /// 20 ms conversion wait, then a 3-byte read. No clamping is applied.
    pub fn read_temperature(&mut self) -> (r: Result<i32, Error<I2C::Fault>>)
        requires
            old(self).wf(),
        ensures
            final(self).wf(),
            final(self).spec_device_data() == old(self).spec_device_data(),
            extends(old(self).ops(), final(self).ops()),
            extends(old(self).waited(), final(self).waited()),
            match r {
                Ok(temperature) => temp_conversion_trace(old(self).ops(), final(self).ops())
                    && temperature == spec_scale_temperature(op_raw16(final(self).ops().last()))
                    && final(self).waited() == old(self).waited().push(20u32),
                Err(e) => e matches Error::I2c(_),
            },
    {
        let mut command: Vec<u8> = Vec::new();
        command.push(Si7021_READ_TEMP_NO_HOLD);
        proof {
            assert(command@ =~= seq![Si7021_READ_TEMP_NO_HOLD]);
        }
        match self.write_command(command) {
            Ok(_) => {},
            Err(e) => {
                proof {
                    lemma_extends_refl(self.waited());
                }
                return Err(e);
            },
        }
        self.delayer.delay_ms(20);
        proof {
            lemma_extends_push(old(self).waited(), 20u32);
        }
        let ghost mid_ops = self.ops();
        let result_buf = match self.i2c.read(self.address, 3) {
            Ok(buffer) => buffer,
            Err(fault) => {
                proof {
                    lemma_extends_trans(old(self).ops(), mid_ops, self.ops());
                }
                return Err(Error::I2c(fault));
            },
        };
        proof {
            lemma_extends_push(mid_ops, self.ops().last());
            lemma_extends_trans(old(self).ops(), mid_ops, self.ops());
        }
        let raw = be16(result_buf[0], result_buf[1]);
        Ok(scale_temperature(raw))
    }

    /// read measurements (temperature and humidity as a struct)
    ///
    /// Performs one full RH conversion, then reads the temperature the chip
    /// computed internally during that same conversion from its holding
    /// register: exactly one conversion cycle and one 2-byte register read,
    /// never a second full conversion.
    pub fn read_measurements(&mut self) -> (r: Result<Measurements, Error<I2C::Fault>>)
        requires
            old(self).wf(),
        ensures
            final(self).wf(),
            final(self).spec_device_data() == old(self).spec_device_data(),
            extends(old(self).ops(), final(self).ops()),
            extends(old(self).waited(), final(self).waited()),
            match r {
                Ok(measurements) => {
                    let pre = old(self).ops();
                    let post = final(self).ops();
                    let n = pre.len() as int;
                    &&& post.len() == n + 3
                    &&& op_is_command(post[n], seq![Si7021_READ_RH_NO_HOLD])
                    &&& op_is_read(post[n + 1], 3)
                    &&& op_is_write_read(post[n + 2], seq![Si7021_READ_TEMP_AFTER_PREVIOUS_RH], 2)
                    &&& measurements.relative_humidity_centi_percent == spec_scale_humidity(
                        op_raw16(post[n + 1]),
                    )
                    &&& measurements.relative_humidity_centi_percent <= 10000
                    &&& measurements.temperature_centi_c == spec_scale_temperature(
                        op_raw16(post[n + 2]),
                    )
                    &&& final(self).waited() == old(self).waited().push(20u32).push(25u32)
                },
                Err(e) => e matches Error::I2c(_),
            },
    {
        let humidity = match self.read_relative_humidity() {
            Ok(value) => value,
            Err(e) => {
                return Err(e);
            },
        };
        let ghost mid_ops = self.ops();
        let result_buf = match self.read_register(Si7021_READ_TEMP_AFTER_PREVIOUS_RH, 2) {
            Ok(buffer) => buffer,
            Err(e) => {
                proof {
                    lemma_extends_trans(old(self).ops(), mid_ops, self.ops());
                }
                return Err(e);
            },
        };
        proof {
            lemma_extends_trans(old(self).ops(), mid_ops, self.ops());
        }
        let raw = be16(result_buf[0], result_buf[1]);
        let temperature = scale_temperature(raw);
        Ok(Measurements { temperature_centi_c: temperature, relative_humidity_centi_percent: humidity })
    }

    /// heater control enable/disable
    ///
    /// Read-modify-write of the heater-enable bit (bit 2) of the user
    /// register: every other bit is written back exactly as it was read,
    /// never blindly overwritten.
    pub fn heater_control(&mut self, enable: bool) -> (r: Result<(), Error<I2C::Fault>>)
        requires
            old(self).wf(),
        ensures
            final(self).wf(),
            final(self).spec_device_data() == old(self).spec_device_data(),
            final(self).spec_delayer() == old(self).spec_delayer(),
            extends(old(self).ops(), final(self).ops()),
            match r {
                Ok(_) => {
                    let pre = old(self).ops();
                    let post = final(self).ops();
                    let n = pre.len() as int;
                    &&& post.len() == n + 2
                    &&& op_is_write_read(post[n], seq![Si7021_READ_RH_T_USER_REG_1], 1)
                    &&& op_is_command(
                        post[n + 1],
                        seq![
                            Si7021_WRITE_RH_T_USER_REG_1,
                            spec_heater_write_value(op_response(post[n])[0], enable),
                        ],
                    )
                },
                Err(e) => e matches Error::I2c(_),
            },
    {
        let result_buf = match self.read_register(Si7021_READ_RH_T_USER_REG_1, 1) {
            Ok(buffer) => buffer,
            Err(e) => {
                return Err(e);
            },
        };
        let write_value = heater_write_value(result_buf[0], enable);
        let ghost mid_ops = self.ops();
        let mut command: Vec<u8> = Vec::new();
        command.push(Si7021_WRITE_RH_T_USER_REG_1);
        command.push(write_value);
        proof {
            assert(command@ =~= seq![Si7021_WRITE_RH_T_USER_REG_1, write_value]);
        }
        match self.write_command(command) {
            Ok(_) => {},
            Err(e) => {
                proof {
                    lemma_extends_trans(old(self).ops(), mid_ops, self.ops());
                }
                return Err(e);
            },
        }
        proof {
            lemma_extends_trans(old(self).ops(), mid_ops, self.ops());
        }
        Ok(())
    }

    /// is heater enabled
    ///
    /// Reads the user register and reports whether the heater-enable bit
    /// (bit 2) is set.
    pub fn is_heater_enabled(&mut self) -> (r: Result<bool, Error<I2C::Fault>>)
        requires
            old(self).wf(),
        ensures
            final(self).wf(),
            final(self).spec_device_data() == old(self).spec_device_data(),
            final(self).spec_delayer() == old(self).spec_delayer(),
            extends(old(self).ops(), final(self).ops()),
            match r {
                Ok(enabled) => final(self).ops().len() == old(self).ops().len() + 1
                    && op_is_write_read(
                    final(self).ops().last(),
                    seq![Si7021_READ_RH_T_USER_REG_1],
                    1,
                ) && enabled == ((op_response(final(self).ops().last())[0] & 0x04) != 0),
                Err(e) => e matches Error::I2c(_),
            },
    {
        let result_buf = match self.read_register(Si7021_READ_RH_T_USER_REG_1, 1) {
            Ok(buffer) => buffer,
            Err(e) => {
                return Err(e);
            },
        };
        let read_value = result_buf[0];
        if (read_value & 0x04) != 0x00 {
            Ok(true)
        } else {
            Ok(false)
        }
    }

    /// set heater power level
    ///
    /// The level is a 4-bit field: every value above 0x0F is rejected with
    /// `OutOfRange` before any bus traffic is attempted.
    pub fn set_heater_level(&mut self, level: u8) -> (r: Result<(), Error<I2C::Fault>>)
        requires
            old(self).wf(),
        ensures
            final(self).wf(),
            final(self).spec_device_data() == old(self).spec_device_data(),
            final(self).spec_delayer() == old(self).spec_delayer(),
            extends(old(self).ops(), final(self).ops()),
            match r {
                Ok(_) => level <= 0x0f && final(self).ops() == old(self).ops().push(
                    (BusOp::Write {
                        address: PRIMARY_I2C_ADDRESS,
                        data: seq![Si7021_WRITE_HEATER_CONTROL, level],
                    }),
                ),
                Err(e) => match e {
                    Error::OutOfRange(rejected) => rejected == level && level > 0x0f
                        && *final(self) == *old(self),
                    Error::I2c(_) => level <= 0x0f,
                    _ => false,
                },
            },
    {
        if level > 0x0f {
            proof {
                lemma_extends_refl(self.ops());
            }
            return Err(Error::OutOfRange(level));
        }
        let mut command: Vec<u8> = Vec::new();
        command.push(Si7021_WRITE_HEATER_CONTROL);
        command.push(level);
        proof {
            assert(command@ =~= seq![Si7021_WRITE_HEATER_CONTROL, level]);
        }
        match self.write_command(command) {
            Ok(_) => Ok(()),
            Err(e) => Err(e),
        }
    }
}

} // verus!
