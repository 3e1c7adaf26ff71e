//! The driver proper: shadow state and the synchronization protocol.
//!
//! A `LM36011` owns a transport and one shadow byte per register.  The
//! shadow is initialized to the documented power-on defaults, refreshed by
//! reads, mutated by setters only on success, and flushed by
//! `write_status`.  Every contract states both what reaches the wire and
//! how the shadow changes.

use vstd::prelude::*;

use crate::convert::{flash_current_code_from_tenths_ma, spec_flash_code, FLASH_MAX_TENTHS_MA};
use crate::registers::{
    ConfigurationRegisterFlags, DeviceIdFlags, EnableRegisterFlags, FlagRegisterFlags,
    LedFlashBrightnessFlags, LedTorchBrightnessFlags, Register, CONFIG_KNOWN_MASK,
    DEVICE_ID_KNOWN_MASK, ENABLE_KNOWN_MASK, FLAGS_KNOWN_MASK, FLASH_KNOWN_MASK, IVFM_2_9V,
    IVFM_ENABLE, SILICON_REVISION_MASK, SOFTWARE_RESET, THERMAL_SCALEBACK_ENABLED, TIMEOUT_600MS,
    TORCH_2_4MA, TORCH_KNOWN_MASK, TORCH_RAMP_1MS,
};
use crate::transport::{I2cTransport, Transaction};

verus! {

/// Bus address of the device: fixed, 7-bit.
pub const LM36011_I2C_ADDRESS: u8 = 0x64;

/// Errors a driver operation can return.
#[derive(Debug)]
pub enum LM36011Error<E> {
    /// The transport failed; its native error is carried verbatim.
    I2CError(E),
    /// Reserved for argument validation; no current operation emits it.
    InvalidInput,
    /// A current argument lay outside the documented bounds.
    CurrentOutOfRange,
    /// The silicon-revision field did not match the expected constant.
    DeviceIDError,
}

/// The device handle: a transport plus one shadow per register.
pub struct LM36011<I2C> {
    i2c: I2C,
    log: Ghost<Seq<Transaction>>,
    /// Shadow of the Enable register.
    pub enable_flags: EnableRegisterFlags,
    /// Shadow of the Configuration register.
    pub config_flags: ConfigurationRegisterFlags,
    /// Shadow of the LED Flash Brightness register.
    pub flash_brightness_flags: LedFlashBrightnessFlags,
    /// Shadow of the LED Torch Brightness register.
    pub torch_brightness_flags: LedTorchBrightnessFlags,
    /// Shadow of the Flags register.
    pub flag_register_flags: FlagRegisterFlags,
    /// Shadow of the Device ID register.
    pub device_id: DeviceIdFlags,
}

impl<I2C: I2cTransport> LM36011<I2C> {
    /// The six shadow bytes, ordered by register offset.
    pub closed spec fn shadows(&self) -> Seq<u8> {
        seq![
            self.enable_flags@,
            self.config_flags@,
            self.flash_brightness_flags@,
            self.torch_brightness_flags@,
            self.flag_register_flags@,
            self.device_id@,
        ]
    }

    /// The shadow byte of one register.
    pub closed spec fn shadow(&self, reg: Register) -> u8 {
        self.shadows()[reg.spec_index()]
    }

    /// The record of the transfers the driver has issued and completed,
    /// oldest first.
    pub closed spec fn transactions(&self) -> Seq<Transaction> {
        self.log@
    }

    /// The documented power-on shadow: IVFM enabled; 2.9 V threshold,
    /// 600 ms timeout, 1 ms torch ramp; 11 mA flash code with thermal
    /// scale-back on; 2.4 mA torch code; no flags; no device ID.
    pub open spec fn spec_default_shadows() -> Seq<u8> {
        seq![0x10u8, 0x15u8, 0x80u8, 0x00u8, 0x00u8, 0x00u8]
    }

    /// The raw bytes of a six-register block, each truncated to its
    /// register's known mask.
    pub open spec fn spec_decode_block(response: Seq<u8>) -> Seq<u8>
        recommends
            response.len() == 6,
    {
        seq![
            response[0] & ENABLE_KNOWN_MASK,
            response[1] & CONFIG_KNOWN_MASK,
            response[2] & FLASH_KNOWN_MASK,
            response[3] & TORCH_KNOWN_MASK,
            response[4] & FLAGS_KNOWN_MASK,
            response[5] & DEVICE_ID_KNOWN_MASK,
        ]
    }

    /// The transition a successful whole-block read makes: exactly one
    /// write-read transaction, of the Enable offset and a six-byte
    /// response, and every shadow updated from that response at once.
    pub open spec fn read_all_ok(pre: Self, post: Self) -> bool {
        let h = post.transactions();
        &&& h.len() == pre.transactions().len() + 1
        &&& h == pre.transactions().push(h.last())
        &&& h.last() matches Transaction::WriteRead { address, bytes, response }
            && address == LM36011_I2C_ADDRESS && bytes == seq![1u8] && response.len() == 6
            && post.shadows() == Self::spec_decode_block(response)
    }

    /// Creates a driver around a transport.
    ///
    /// The shadow starts at the documented power-on defaults; the bus is
    /// not touched.
    pub fn new(i2c: I2C) -> (r: Self)
        ensures
            r.shadows() =~= Self::spec_default_shadows(),
            r.transactions() == Seq::<Transaction>::empty(),
    {
        let r = Self {
            i2c,
            log: Ghost(Seq::empty()),
            enable_flags: EnableRegisterFlags::from_bits_truncate(IVFM_ENABLE),
            config_flags: ConfigurationRegisterFlags::from_bits_truncate(
                IVFM_2_9V | TIMEOUT_600MS | TORCH_RAMP_1MS,
            ),
            flash_brightness_flags: LedFlashBrightnessFlags::from_bits_truncate(
                THERMAL_SCALEBACK_ENABLED,
            ),
            torch_brightness_flags: LedTorchBrightnessFlags::from_bits_truncate(TORCH_2_4MA),
            flag_register_flags: FlagRegisterFlags::empty(),
            device_id: DeviceIdFlags::empty(),
        };
        proof {
            assert(0x10u8 & 0x1Fu8 == 0x10u8) by (bit_vector);
            assert((0x00u8 | 0x14u8 | 0x01u8) & 0xFFu8 == 0x15u8) by (bit_vector);
            assert(0x80u8 & 0xFFu8 == 0x80u8) by (bit_vector);
            assert(0x00u8 & 0x7Fu8 == 0x00u8) by (bit_vector);
        }
        r
    }

    /// Consumes the driver and hands the transport back.
    pub fn release(self) -> I2C {
        self.i2c
    }

    // Transport adapter: the primitives over the raw two-wire capability,
    // all at the fixed device address.  Only these touch the transport,
    // and only they extend the transaction record.

    /// Writes a whole frame — the start offset followed by the data
    /// bytes, as the device receives it; the device auto-increments its
    /// register pointer.
    fn write_block<const N: usize>(&mut self, frame: &[u8; N]) -> (r: Result<(), I2C::Error>)
        ensures
            final(self).shadows() == old(self).shadows(),
            r is Ok ==> final(self).transactions() == old(self).transactions().push(
                Transaction::Write { address: LM36011_I2C_ADDRESS, bytes: frame@ },
            ),
            r is Err ==> final(self).transactions() == old(self).transactions(),
    {
        match self.i2c.write(LM36011_I2C_ADDRESS, frame) {
            Ok(()) => {
                self.log = Ghost(
                    self.log@.push(
                        Transaction::Write { address: LM36011_I2C_ADDRESS, bytes: frame@ },
                    ),
                );
                Ok(())
            },
            Err(e) => Err(e),
        }
    }

    /// Writes one register: the two bytes offset and value.
    fn write_reg(&mut self, off: u8, val: u8) -> (r: Result<(), I2C::Error>)
        ensures
            final(self).shadows() == old(self).shadows(),
            r is Ok ==> final(self).transactions() == old(self).transactions().push(
                Transaction::Write { address: LM36011_I2C_ADDRESS, bytes: seq![off, val] },
            ),
            r is Err ==> final(self).transactions() == old(self).transactions(),
    {
        let frame: [u8; 2] = [off, val];
        proof {
            assert(frame@ =~= seq![off, val]);
        }
        self.write_block(&frame)
    }

    /// Reads `R` registers starting at `start_off`; the device
    /// auto-increments its register pointer.
    fn read_block<const R: usize>(&mut self, start_off: u8) -> (r: Result<[u8; R], I2C::Error>)
        ensures
            final(self).shadows() == old(self).shadows(),
            r matches Ok(data) ==> final(self).transactions() == old(self).transactions().push(
                Transaction::WriteRead {
                    address: LM36011_I2C_ADDRESS,
                    bytes: seq![start_off],
                    response: data@,
                },
            ),
            r is Err ==> final(self).transactions() == old(self).transactions(),
    {
        let frame: [u8; 1] = [start_off];
        proof {
            assert(frame@ =~= seq![start_off]);
        }
        match self.i2c.write_read::<1, R>(LM36011_I2C_ADDRESS, &frame) {
            Ok(data) => {
                self.log = Ghost(
                    self.log@.push(
                        Transaction::WriteRead {
                            address: LM36011_I2C_ADDRESS,
                            bytes: frame@,
                            response: data@,
                        },
                    ),
                );
                Ok(data)
            },
            Err(e) => Err(e),
        }
    }

    /// Reads one register.
    fn read_reg(&mut self, off: u8) -> (r: Result<u8, I2C::Error>)
        ensures
            final(self).shadows() == old(self).shadows(),
            r matches Ok(b) ==> final(self).transactions() == old(self).transactions().push(
                Transaction::WriteRead {
                    address: LM36011_I2C_ADDRESS,
                    bytes: seq![off],
                    response: seq![b],
                },
            ),
            r is Err ==> final(self).transactions() == old(self).transactions(),
    {
        match self.read_block::<1>(off) {
            Ok(data) => {
                proof {
                    assert(data@ =~= seq![data@[0]]);
                }
                Ok(data[0])
            },
            Err(e) => Err(e),
        }
    }

    /// Writes `data` to one register.
    ///
    /// On success the register's shadow becomes the written byte,
    /// truncated to the known bits; on failure the shadow is untouched.
    /// Writing the Flags register is permitted at the wire level though
    /// the device defines no effect for it.
    pub fn set_register(&mut self, reg: Register, data: u8) -> (r: Result<
        (),
        LM36011Error<I2C::Error>,
    >)
        ensures
            r is Ok ==> final(self).transactions() == old(self).transactions().push(
                Transaction::Write {
                    address: LM36011_I2C_ADDRESS,
                    bytes: seq![reg.spec_offset(), data],
                },
            ),
            r is Ok ==> final(self).shadows() =~= old(self).shadows().update(
                reg.spec_index(),
                reg.spec_decode(data),
            ),
            r is Err ==> final(self).shadows() == old(self).shadows() && r matches Err(
                LM36011Error::I2CError(_),
            ),
    {
        match self.write_reg(reg.offset(), data) {
            Ok(()) => {
                match reg {
                    Register::EnableRegister => {
                        self.enable_flags = EnableRegisterFlags::from_bits_truncate(data);
                    },
                    Register::ConfigurationRegister => {
                        self.config_flags = ConfigurationRegisterFlags::from_bits_truncate(data);
                    },
                    Register::LEDFlashBrightnessRegister => {
                        self.flash_brightness_flags = LedFlashBrightnessFlags::from_bits_truncate(
                            data,
                        );
                    },
                    Register::LEDTorchBrightnessRegister => {
                        self.torch_brightness_flags = LedTorchBrightnessFlags::from_bits_truncate(
                            data,
                        );
                    },
                    Register::FlagsRegister => {
                        self.flag_register_flags = FlagRegisterFlags::from_bits_truncate(data);
                    },
                    Register::DeviceIdRegister => {
                        self.device_id = DeviceIdFlags::from_bits_truncate(data);
                    },
                }
                Ok(())
            },
            Err(e) => Err(LM36011Error::I2CError(e)),
        }
    }

    /// Reads one register.
    ///
    /// Returns the raw byte and, on success, refreshes the register's
    /// shadow from it.
    pub fn get_register(&mut self, reg: Register) -> (r: Result<u8, I2C::Error>)
        ensures
            r matches Ok(b) ==> final(self).transactions() == old(self).transactions().push(
                Transaction::WriteRead {
                    address: LM36011_I2C_ADDRESS,
                    bytes: seq![reg.spec_offset()],
                    response: seq![b],
                },
            ) && final(self).shadows() =~= old(self).shadows().update(
                reg.spec_index(),
                reg.spec_decode(b),
            ),
            r is Err ==> final(self).shadows() == old(self).shadows(),
    {
        match self.read_reg(reg.offset()) {
            Ok(b) => {
                match reg {
                    Register::EnableRegister => {
                        self.enable_flags = EnableRegisterFlags::from_bits_truncate(b);
                    },
                    Register::ConfigurationRegister => {
                        self.config_flags = ConfigurationRegisterFlags::from_bits_truncate(b);
                    },
                    Register::LEDFlashBrightnessRegister => {
                        self.flash_brightness_flags = LedFlashBrightnessFlags::from_bits_truncate(
                            b,
                        );
                    },
                    Register::LEDTorchBrightnessRegister => {
                        self.torch_brightness_flags = LedTorchBrightnessFlags::from_bits_truncate(
                            b,
                        );
                    },
                    Register::FlagsRegister => {
                        self.flag_register_flags = FlagRegisterFlags::from_bits_truncate(b);
                    },
                    Register::DeviceIdRegister => {
                        self.device_id = DeviceIdFlags::from_bits_truncate(b);
                    },
                }
                Ok(b)
            },
            Err(e) => Err(e),
        }
    }

    /// Reads the Device ID register.
    ///
    /// Returns the raw byte and, on success, refreshes the device-ID
    /// shadow from it.
    pub fn get_device_id(&mut self) -> (r: Result<u8, I2C::Error>)
        ensures
            r matches Ok(b) ==> final(self).transactions() == old(self).transactions().push(
                Transaction::WriteRead {
                    address: LM36011_I2C_ADDRESS,
                    bytes: seq![6u8],
                    response: seq![b],
                },
            ) && final(self).shadows() =~= old(self).shadows().update(
                5,
                Register::DeviceIdRegister.spec_decode(b),
            ),
            r is Err ==> final(self).shadows() == old(self).shadows(),
    {
        self.get_register(Register::DeviceIdRegister)
    }

    /// Writes a flash-brightness code.
    ///
    /// Codes above `0x7F` are rejected without touching the bus.
    /// Otherwise the byte written is the code with bit 7 carried over
    /// from the current shadow, so the thermal scale-back setting is
    /// preserved; on success the shadow becomes that byte.
    pub fn set_flash_current_hex(&mut self, current: u8) -> (r: Result<
        (),
        LM36011Error<I2C::Error>,
    >)
        ensures
            current > 0x7F ==> (r matches Err(LM36011Error::CurrentOutOfRange)) && *final(self)
                == *old(self),
            current <= 0x7F && r is Ok ==> final(self).transactions() == old(self).transactions().push(
                Transaction::Write {
                    address: LM36011_I2C_ADDRESS,
                    bytes: seq![
                        3u8,
                        ((current & 0x7F) | (old(self).shadows()[2] & 0x80)) as u8,
                    ],
                },
            ) && final(self).shadows() =~= old(self).shadows().update(
                2,
                ((current & 0x7F) | (old(self).shadows()[2] & 0x80)) as u8,
            ),
            r is Err ==> final(self).shadows() == old(self).shadows(),
            current <= 0x7F && r is Err ==> r matches Err(LM36011Error::I2CError(_)),
    {
        if current > 0x7F {
            return Err(LM36011Error::CurrentOutOfRange);
        }
        let keep: u8 = self.flash_brightness_flags.bits() & 0x80;
        let data: u8 = (current & 0x7F) | keep;
        proof {
            let c = current;
            let k = self.flash_brightness_flags@;
            assert(((c & 0x7F) | (k & 0x80)) & 0xFF == ((c & 0x7F) | (k & 0x80))) by (bit_vector);
        }
        self.set_register(Register::LEDFlashBrightnessRegister, data)
    }

    /// Sets the flash current, given in tenths of a milliampere.
    ///
    /// Currents above 1500 mA are rejected without touching the bus.
    /// Otherwise the current is converted to its 7-bit code and written
    /// with the thermal scale-back bit carried over from the shadow.
    pub fn set_flash_current(&mut self, tenths_ma: u32) -> (r: Result<
        (),
        LM36011Error<I2C::Error>,
    >)
        ensures
            tenths_ma > FLASH_MAX_TENTHS_MA ==> (r matches Err(
                LM36011Error::CurrentOutOfRange,
            )) && *final(self) == *old(self),
            tenths_ma <= FLASH_MAX_TENTHS_MA && r is Ok ==> final(self).transactions() == old(self).transactions().push(
                Transaction::Write {
                    address: LM36011_I2C_ADDRESS,
                    bytes: seq![
                        3u8,
                        ((spec_flash_code(tenths_ma) & 0x7F) | (old(self).shadows()[2] & 0x80)) as u8,
                    ],
                },
            ) && final(self).shadows() =~= old(self).shadows().update(
                2,
                ((spec_flash_code(tenths_ma) & 0x7F) | (old(self).shadows()[2] & 0x80)) as u8,
            ),
            r is Err ==> final(self).shadows() == old(self).shadows(),
            tenths_ma <= FLASH_MAX_TENTHS_MA && r is Err ==> r matches Err(
                LM36011Error::I2CError(_),
            ),
    {
        match flash_current_code_from_tenths_ma(tenths_ma) {
            None => Err(LM36011Error::CurrentOutOfRange),
            Some(code) => self.set_flash_current_hex(code),
        }
    }

    /// Reads all six registers in one block transfer.
    ///
    /// On success every shadow is refreshed from the six-byte response;
    /// on failure no shadow changes.
    pub fn read_status(&mut self) -> (r: Result<(), LM36011Error<I2C::Error>>)
        ensures
            r is Ok ==> Self::read_all_ok(*old(self), *final(self)),
            r is Err ==> final(self).shadows() == old(self).shadows() && r matches Err(
                LM36011Error::I2CError(_),
            ),
    {
        match self.read_block::<6>(Register::EnableRegister.offset()) {
            Ok(data) => {
                self.enable_flags = EnableRegisterFlags::from_bits_truncate(data[0]);
                self.config_flags = ConfigurationRegisterFlags::from_bits_truncate(data[1]);
                self.flash_brightness_flags = LedFlashBrightnessFlags::from_bits_truncate(data[2]);
                self.torch_brightness_flags = LedTorchBrightnessFlags::from_bits_truncate(data[3]);
                self.flag_register_flags = FlagRegisterFlags::from_bits_truncate(data[4]);
                self.device_id = DeviceIdFlags::from_bits_truncate(data[5]);
                proof {
                    assert(self.shadows() =~= Self::spec_decode_block(data@));
                }
                Ok(())
            },
            Err(e) => Err(LM36011Error::I2CError(e)),
        }
    }

    /// Writes the four writable registers from the shadow in one block.
    ///
    /// The payload is exactly the Enable offset followed by the Enable,
    /// Configuration, Flash Brightness and Torch Brightness shadows; the
    /// read-only Flags register and the Device ID register, whose write
    /// triggers a reset, are not included.  The shadow never changes.
    pub fn write_status(&mut self) -> (r: Result<(), LM36011Error<I2C::Error>>)
        ensures
            final(self).shadows() == old(self).shadows(),
            r is Ok ==> final(self).transactions() == old(self).transactions().push(
                Transaction::Write {
                    address: LM36011_I2C_ADDRESS,
                    bytes: seq![
                        1u8,
                        old(self).shadows()[0],
                        old(self).shadows()[1],
                        old(self).shadows()[2],
                        old(self).shadows()[3],
                    ],
                },
            ),
            r is Err ==> r matches Err(LM36011Error::I2CError(_)),
    {
        let frame: [u8; 5] = [
            Register::EnableRegister.offset(),
            self.enable_flags.bits(),
            self.config_flags.bits(),
            self.flash_brightness_flags.bits(),
            self.torch_brightness_flags.bits(),
        ];
        proof {
            assert(frame@ =~= seq![
                1u8,
                self.enable_flags@,
                self.config_flags@,
                self.flash_brightness_flags@,
                self.torch_brightness_flags@,
            ]);
        }
        match self.write_block(&frame) {
            Ok(()) => Ok(()),
            Err(e) => Err(LM36011Error::I2CError(e)),
        }
    }

    /// Triggers a software reset by writing the reset bit to the Device
    /// ID register.
    ///
    /// On success the device holds its power-on values again, so the
    /// shadow is re-synchronized to the documented defaults; on failure
    /// the shadow is untouched.
    pub fn software_reset(&mut self) -> (r: Result<(), LM36011Error<I2C::Error>>)
        ensures
            r is Ok ==> final(self).transactions() == old(self).transactions().push(
                Transaction::Write { address: LM36011_I2C_ADDRESS, bytes: seq![6u8, 0x80u8] },
            ) && final(self).shadows() =~= Self::spec_default_shadows(),
            r is Err ==> final(self).shadows() == old(self).shadows() && r matches Err(
                LM36011Error::I2CError(_),
            ),
    {
        match self.write_reg(Register::DeviceIdRegister.offset(), SOFTWARE_RESET) {
            Ok(()) => {
                self.enable_flags = EnableRegisterFlags::from_bits_truncate(IVFM_ENABLE);
                self.config_flags = ConfigurationRegisterFlags::from_bits_truncate(
                    IVFM_2_9V | TIMEOUT_600MS | TORCH_RAMP_1MS,
                );
                self.flash_brightness_flags = LedFlashBrightnessFlags::from_bits_truncate(
                    THERMAL_SCALEBACK_ENABLED,
                );
                self.torch_brightness_flags = LedTorchBrightnessFlags::from_bits_truncate(
                    TORCH_2_4MA,
                );
                self.flag_register_flags = FlagRegisterFlags::empty();
                self.device_id = DeviceIdFlags::empty();
                proof {
                    assert(0x10u8 & 0x1Fu8 == 0x10u8) by (bit_vector);
                    assert((0x00u8 | 0x14u8 | 0x01u8) & 0xFFu8 == 0x15u8) by (bit_vector);
                    assert(0x80u8 & 0xFFu8 == 0x80u8) by (bit_vector);
                    assert(0x00u8 & 0x7Fu8 == 0x00u8) by (bit_vector);
                }
                Ok(())
            },
            Err(e) => Err(LM36011Error::I2CError(e)),
        }
    }

    /// Reads all registers, then checks the silicon-revision field.
    ///
    /// Succeeds with `true` exactly when the masked silicon-revision
    /// sub-field of the refreshed Device ID shadow equals `0x01`; a
    /// mismatch is reported as `DeviceIDError` after the shadow was
    /// refreshed, and a transport failure leaves the shadow untouched.
    pub fn verify_device_id(&mut self) -> (r: Result<bool, LM36011Error<I2C::Error>>)
        ensures
            r matches Ok(b) ==> b && Self::read_all_ok(*old(self), *final(self)) && final(self).shadows()[5] & SILICON_REVISION_MASK == 0x01,
            r matches Err(LM36011Error::DeviceIDError) ==> Self::read_all_ok(
                *old(self),
                *final(self),
            ) && final(self).shadows()[5] & SILICON_REVISION_MASK != 0x01,
            r matches Err(LM36011Error::I2CError(_)) ==> final(self).shadows() == old(self).shadows(),
            r is Err ==> r matches Err(LM36011Error::I2CError(_)) || r matches Err(
                LM36011Error::DeviceIDError,
            ),
    {
        match self.read_status() {
            Ok(()) => (),
            Err(e) => {
                return Err(e);
            },
        }
        if self.device_id.bits() & SILICON_REVISION_MASK == 0x01 {
            Ok(true)
        } else {
            Err(LM36011Error::DeviceIDError)
        }
    }
}

} // verus!
