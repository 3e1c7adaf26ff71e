//! Typed, bit-addressable views of the six one-byte registers.
//!
//! Each register holds a set of documented bits; reserved positions are
//! masked to zero on decode so that a stored value models only known state.

use vstd::prelude::*;

verus! {

/// The six configuration/status registers, at offsets `0x01..=0x06`.
#[derive(Clone, Copy, Debug, PartialEq, Eq, Structural)]
pub enum Register {
    /// Enable Register (offset 0x01)
    EnableRegister,
    /// Configuration Register (offset 0x02)
    ConfigurationRegister,
    /// LED Flash Brightness Register (offset 0x03)
    LEDFlashBrightnessRegister,
    /// LED Torch Brightness Register (offset 0x04)
    LEDTorchBrightnessRegister,
    /// Flags Register (offset 0x05, read-only on the device)
    FlagsRegister,
    /// Device ID / Reset Register (offset 0x06)
    DeviceIdRegister,
}

// Enable register fields.
/// Enables the input-voltage flash monitor.
pub const IVFM_ENABLE: u8 = 0b0001_0000;
/// Strobe type: set for edge-triggered, clear for level.
pub const STROBE_TYPE_EDGE_TRIGGERED: u8 = 0b0000_1000;
/// Enables the external strobe input.
pub const STROBE_ENABLE: u8 = 0b0000_0100;
/// Mode field value: IR drive.
pub const MODE_IR_DRIVE: u8 = 0b0000_0001;
/// Mode field value: torch.
pub const MODE_TORCH: u8 = 0b0000_0010;
/// Mode field value: flash.
pub const MODE_FLASH: u8 = 0b0000_0011;
/// Mask of the two mode bits; writing a mode clears the other bit.
pub const MODE_MASK: u8 = 0b0000_0011;

// Configuration register fields: IVFM threshold (bits 7:5), flash timeout
// (bits 4:1) and torch ramp (bit 0).
pub const IVFM_2_9V: u8 = 0b0000_0000;
pub const IVFM_3_0V: u8 = 0b0010_0000;
pub const IVFM_3_1V: u8 = 0b0100_0000;
pub const IVFM_3_2V: u8 = 0b0110_0000;
pub const IVFM_3_3V: u8 = 0b1000_0000;
pub const IVFM_3_4V: u8 = 0b1010_0000;
pub const IVFM_3_5V: u8 = 0b1100_0000;
pub const IVFM_3_6V: u8 = 0b1110_0000;
pub const TIMEOUT_40MS: u8 = 0b0000_0000;
pub const TIMEOUT_80MS: u8 = 0b0000_0010;
pub const TIMEOUT_120MS: u8 = 0b0000_0100;
pub const TIMEOUT_160MS: u8 = 0b0000_0110;
pub const TIMEOUT_200MS: u8 = 0b0000_1000;
pub const TIMEOUT_240MS: u8 = 0b0000_1010;
pub const TIMEOUT_280MS: u8 = 0b0000_1100;
pub const TIMEOUT_320MS: u8 = 0b0000_1110;
pub const TIMEOUT_360MS: u8 = 0b0001_0000;
pub const TIMEOUT_400MS: u8 = 0b0001_0010;
pub const TIMEOUT_600MS: u8 = 0b0001_0100;
pub const TIMEOUT_800MS: u8 = 0b0001_0110;
pub const TIMEOUT_1000MS: u8 = 0b0001_1000;
pub const TIMEOUT_1200MS: u8 = 0b0001_1010;
pub const TIMEOUT_1400MS: u8 = 0b0001_1100;
pub const TIMEOUT_1600MS: u8 = 0b0001_1110;
pub const TORCH_RAMP_OFF: u8 = 0b0000_0000;
pub const TORCH_RAMP_1MS: u8 = 0b0000_0001;

// Flash Brightness register fields: scale-back enable (bit 7) and a
// selection of current codes (bits 6:0).
pub const FLASH_11MA: u8 = 0x00;
pub const FLASH_257MA: u8 = 0x15;
pub const FLASH_750MA: u8 = 0x3F;
pub const FLASH_1030MA: u8 = 0x5F;
pub const FLASH_1200MA: u8 = 0x66;
pub const FLASH_1500MA: u8 = 0x7F;
/// Enables thermal current scale-back.
pub const THERMAL_SCALEBACK_ENABLED: u8 = 0b1000_0000;

// Torch Brightness register fields: current codes (bits 6:0).
pub const TORCH_2_4MA: u8 = 0x00;
pub const TORCH_64MA: u8 = 0x15;
pub const TORCH_188MA: u8 = 0x3F;
pub const TORCH_258MA: u8 = 0x5F;
pub const TORCH_302MA: u8 = 0x66;
pub const TORCH_376MA: u8 = 0x7F;

// Flags register fields.
pub const IVFM_TRIP: u8 = 0b0100_0000;
pub const VLED_SHORT_FAULT: u8 = 0b0010_0000;
pub const THERMAL_CURRENT_SCALE_BACK: u8 = 0b0000_1000;
pub const THERMAL_SHUTDOWN_FAULT: u8 = 0b0000_0100;
pub const UVLO_FAULT: u8 = 0b0000_0010;
pub const FLASH_TIMEOUT_FLAG: u8 = 0b0000_0001;

// Device ID register fields.
/// Writing this bit forces a device reset.
pub const SOFTWARE_RESET: u8 = 0b1000_0000;
/// Mask of the device-ID sub-field on read.
pub const DEVICE_ID_MASK: u8 = 0b0011_1000;
/// Mask of the silicon-revision sub-field on read.
pub const SILICON_REVISION_MASK: u8 = 0b0000_0111;

/// Known bits of the Enable register: IVFM enable, strobe type, strobe
/// enable and the two mode bits; bits 7:5 are reserved.
pub const ENABLE_KNOWN_MASK: u8 = 0x1F;
/// Known bits of the Configuration register: all eight bits carry fields.
pub const CONFIG_KNOWN_MASK: u8 = 0xFF;
/// Known bits of the Flash Brightness register: scale-back bit and code.
pub const FLASH_KNOWN_MASK: u8 = 0xFF;
/// Known bits of the Torch Brightness register: bit 7 is reserved.
pub const TORCH_KNOWN_MASK: u8 = 0x7F;
/// Known bits of the Flags register: bits 7 and 4 are reserved.
pub const FLAGS_KNOWN_MASK: u8 = 0x6F;
/// Known bits of the Device ID register on read: device ID and revision.
pub const DEVICE_ID_KNOWN_MASK: u8 = 0x3F;

impl Register {
    /// The register's offset on the wire.
    pub open spec fn spec_offset(self) -> u8 {
        match self {
            Register::EnableRegister => 1,
            Register::ConfigurationRegister => 2,
            Register::LEDFlashBrightnessRegister => 3,
            Register::LEDTorchBrightnessRegister => 4,
            Register::FlagsRegister => 5,
            Register::DeviceIdRegister => 6,
        }
    }

    /// Position of the register's shadow in the driver's shadow block.
    pub open spec fn spec_index(self) -> int {
        self.spec_offset() - 1
    }

    /// The mask of documented bit positions; reserved bits are outside it.
    pub open spec fn spec_known_mask(self) -> u8 {
        match self {
            Register::EnableRegister => ENABLE_KNOWN_MASK,
            Register::ConfigurationRegister => CONFIG_KNOWN_MASK,
            Register::LEDFlashBrightnessRegister => FLASH_KNOWN_MASK,
            Register::LEDTorchBrightnessRegister => TORCH_KNOWN_MASK,
            Register::FlagsRegister => FLAGS_KNOWN_MASK,
            Register::DeviceIdRegister => DEVICE_ID_KNOWN_MASK,
        }
    }

    /// Decoding a raw byte keeps the documented bits and clears the rest.
    pub open spec fn spec_decode(self, raw: u8) -> u8 {
        raw & self.spec_known_mask()
    }

    pub fn offset(self) -> (r: u8)
        ensures
            r == self.spec_offset(),
    {
        match self {
            Register::EnableRegister => 1,
            Register::ConfigurationRegister => 2,
            Register::LEDFlashBrightnessRegister => 3,
            Register::LEDTorchBrightnessRegister => 4,
            Register::FlagsRegister => 5,
            Register::DeviceIdRegister => 6,
        }
    }

    pub fn known_mask(self) -> (r: u8)
        ensures
            r == self.spec_known_mask(),
    {
        match self {
            Register::EnableRegister => ENABLE_KNOWN_MASK,
            Register::ConfigurationRegister => CONFIG_KNOWN_MASK,
            Register::LEDFlashBrightnessRegister => FLASH_KNOWN_MASK,
            Register::LEDTorchBrightnessRegister => TORCH_KNOWN_MASK,
            Register::FlagsRegister => FLAGS_KNOWN_MASK,
            Register::DeviceIdRegister => DEVICE_ID_KNOWN_MASK,
        }
    }

    /// Plain-text name of the register.
    pub fn name(self) -> (r: &'static str)
        ensures
            r@ == self.spec_name(),
    {
        match self {
            Register::EnableRegister => "Enable Register",
            Register::ConfigurationRegister => "Configuration Register",
            Register::LEDFlashBrightnessRegister => "LED Flash Brightness Register",
            Register::LEDTorchBrightnessRegister => "LED Torch Brightness Register",
            Register::FlagsRegister => "Flags Register",
            Register::DeviceIdRegister => "Device ID Register",
        }
    }

    pub open spec fn spec_name(self) -> Seq<char> {
        match self {
            Register::EnableRegister => "Enable Register"@,
            Register::ConfigurationRegister => "Configuration Register"@,
            Register::LEDFlashBrightnessRegister => "LED Flash Brightness Register"@,
            Register::LEDTorchBrightnessRegister => "LED Torch Brightness Register"@,
            Register::FlagsRegister => "Flags Register"@,
            Register::DeviceIdRegister => "Device ID Register"@,
        }
    }
}

/// Law: the codec round-trips.  Decoding a byte and encoding the result
/// again gives back exactly the byte restricted to the register's known
/// mask, and a decoded value is unchanged by a second decode.
pub proof fn lemma_codec_round_trip(reg: Register, raw: u8)
    ensures
        reg.spec_decode(raw) == raw & reg.spec_known_mask(),
        reg.spec_decode(reg.spec_decode(raw)) == reg.spec_decode(raw),
{
    let m = reg.spec_known_mask();
    assert((raw & m) & m == raw & m) by (bit_vector);
}

/// A set of documented bits of one register.  Bits outside `MASK` are
/// never stored: every constructor and every operation truncates to the
/// known positions, so a value of this type models only known state.
#[derive(Clone, Copy, Debug)]
pub struct Flags<const MASK: u8> {
    bits: u8,
}

impl<const MASK: u8> View for Flags<MASK> {
    type V = u8;

    closed spec fn view(&self) -> u8 {
        self.bits
    }
}

/// Bit set for the Enable register.
pub type EnableRegisterFlags = Flags<0x1F>;

/// Bit set for the Configuration register.
pub type ConfigurationRegisterFlags = Flags<0xFF>;

/// Bit set for the LED Flash Brightness register.
pub type LedFlashBrightnessFlags = Flags<0xFF>;

/// Bit set for the LED Torch Brightness register.
pub type LedTorchBrightnessFlags = Flags<0x7F>;

/// Bit set for the Flags register.
pub type FlagRegisterFlags = Flags<0x6F>;

/// Bit set for the Device ID register.
pub type DeviceIdFlags = Flags<0x3F>;

proof fn lemma_and_mask_idempotent(b: u8, m: u8)
    ensures
        (b & m) & m == b & m,
{
    assert((b & m) & m == b & m) by (bit_vector);
}

proof fn lemma_or_keeps_mask(a: u8, b: u8, m: u8)
    requires
        a & m == a,
        b & m == b,
    ensures
        (a | b) & m == (a | b),
{
    assert(a & m == a && b & m == b ==> (a | b) & m == (a | b)) by (bit_vector);
}

proof fn lemma_and_keeps_mask(a: u8, b: u8, m: u8)
    requires
        a & m == a,
    ensures
        (a & b) & m == (a & b),
{
    assert(a & m == a ==> (a & b) & m == (a & b)) by (bit_vector);
}

impl<const MASK: u8> Flags<MASK> {
    /// Every stored value holds only documented bits.
    #[verifier::type_invariant]
    pub closed spec fn masked(self) -> bool {
        self.bits & MASK == self.bits
    }

    /// The empty bit set.
    pub fn empty() -> (r: Self)
        ensures
            r@ == 0,
    {
        proof {
            let m = MASK;
            assert(0u8 & m == 0u8) by (bit_vector);
        }
        Flags { bits: 0 }
    }

    /// Decodes a raw byte, truncating bits outside the known mask to zero.
    pub fn from_bits_truncate(bits: u8) -> (r: Self)
        ensures
            r@ == bits & MASK,
    {
        proof {
            lemma_and_mask_idempotent(bits, MASK);
        }
        Flags { bits: bits & MASK }
    }

    /// Encodes the set as a raw byte.
    pub fn bits(&self) -> (r: u8)
        ensures
            r == self@,
    {
        self.bits
    }

    /// True when every bit of `other` is present in `self`.
    pub fn contains(&self, other: Self) -> (r: bool)
        ensures
            r == (self@ & other@ == other@),
    {
        self.bits & other.bits == other.bits
    }

    /// Adds the bits of `other`.
    pub fn insert(&mut self, other: Self)
        ensures
            final(self)@ == (old(self)@ | other@),
    {
        proof {
            use_type_invariant(&*self);
            use_type_invariant(&other);
            lemma_or_keeps_mask(self.bits, other.bits, MASK);
        }
        self.bits = self.bits | other.bits;
    }

    /// Removes the bits of `other`.
    pub fn remove(&mut self, other: Self)
        ensures
            final(self)@ == (old(self)@ & !other@),
    {
        proof {
            use_type_invariant(&*self);
            lemma_and_keeps_mask(self.bits, !other.bits, MASK);
        }
        self.bits = self.bits & !other.bits;
    }

    /// Adds or removes the bits of `other` according to `value`.
    pub fn set(&mut self, other: Self, value: bool)
        ensures
            value ==> final(self)@ == (old(self)@ | other@),
            !value ==> final(self)@ == (old(self)@ & !other@),
    {
        if value {
            self.insert(other);
        } else {
            self.remove(other);
        }
    }

    /// The union of the two sets.
    pub fn union(self, other: Self) -> (r: Self)
        ensures
            r@ == (self@ | other@),
    {
        proof {
            use_type_invariant(&self);
            use_type_invariant(&other);
            lemma_or_keeps_mask(self.bits, other.bits, MASK);
        }
        Flags { bits: self.bits | other.bits }
    }

    /// The intersection of the two sets.
    pub fn intersection(self, other: Self) -> (r: Self)
        ensures
            r@ == (self@ & other@),
    {
        proof {
            use_type_invariant(&self);
            lemma_and_keeps_mask(self.bits, other.bits, MASK);
        }
        Flags { bits: self.bits & other.bits }
    }
}

} // verus!
