use lm36011::registers::{
    ConfigurationRegisterFlags, DeviceIdFlags, EnableRegisterFlags, FlagRegisterFlags,
    LedFlashBrightnessFlags, LedTorchBrightnessFlags, Register, IVFM_ENABLE, MODE_MASK,
    MODE_TORCH, STROBE_ENABLE,
};

#[test]
fn codec_round_trip_enable() {
    let mask = Register::EnableRegister.known_mask();
    assert_eq!(mask, 0x1F);
    for b in 0..=255u16 {
        let b = b as u8;
        assert_eq!(EnableRegisterFlags::from_bits_truncate(b).bits(), b & mask);
    }
}

#[test]
fn codec_round_trip_configuration() {
    let mask = Register::ConfigurationRegister.known_mask();
    assert_eq!(mask, 0xFF);
    for b in 0..=255u16 {
        let b = b as u8;
        assert_eq!(ConfigurationRegisterFlags::from_bits_truncate(b).bits(), b & mask);
    }
}

#[test]
fn codec_round_trip_flash_brightness() {
    let mask = Register::LEDFlashBrightnessRegister.known_mask();
    assert_eq!(mask, 0xFF);
    for b in 0..=255u16 {
        let b = b as u8;
        assert_eq!(LedFlashBrightnessFlags::from_bits_truncate(b).bits(), b & mask);
    }
}

#[test]
fn codec_round_trip_torch_brightness() {
    let mask = Register::LEDTorchBrightnessRegister.known_mask();
    assert_eq!(mask, 0x7F);
    for b in 0..=255u16 {
        let b = b as u8;
        assert_eq!(LedTorchBrightnessFlags::from_bits_truncate(b).bits(), b & mask);
    }
}

#[test]
fn codec_round_trip_flags() {
    let mask = Register::FlagsRegister.known_mask();
    assert_eq!(mask, 0x6F);
    for b in 0..=255u16 {
        let b = b as u8;
        assert_eq!(FlagRegisterFlags::from_bits_truncate(b).bits(), b & mask);
    }
}

#[test]
fn codec_round_trip_device_id() {
    let mask = Register::DeviceIdRegister.known_mask();
    assert_eq!(mask, 0x3F);
    for b in 0..=255u16 {
        let b = b as u8;
        assert_eq!(DeviceIdFlags::from_bits_truncate(b).bits(), b & mask);
    }
}

#[test]
fn register_offsets() {
    assert_eq!(Register::EnableRegister.offset(), 0x01);
    assert_eq!(Register::ConfigurationRegister.offset(), 0x02);
    assert_eq!(Register::LEDFlashBrightnessRegister.offset(), 0x03);
    assert_eq!(Register::LEDTorchBrightnessRegister.offset(), 0x04);
    assert_eq!(Register::FlagsRegister.offset(), 0x05);
    assert_eq!(Register::DeviceIdRegister.offset(), 0x06);
}

#[test]
fn register_names() {
    assert_eq!(Register::EnableRegister.name(), "Enable Register");
    assert_eq!(Register::ConfigurationRegister.name(), "Configuration Register");
    assert_eq!(Register::LEDFlashBrightnessRegister.name(), "LED Flash Brightness Register");
    assert_eq!(Register::LEDTorchBrightnessRegister.name(), "LED Torch Brightness Register");
    assert_eq!(Register::FlagsRegister.name(), "Flags Register");
    assert_eq!(Register::DeviceIdRegister.name(), "Device ID Register");
}

#[test]
fn flag_set_operations() {
    let mut flags = EnableRegisterFlags::empty();
    assert_eq!(flags.bits(), 0);

    flags.insert(EnableRegisterFlags::from_bits_truncate(IVFM_ENABLE));
    assert_eq!(flags.bits(), 0x10);
    assert!(flags.contains(EnableRegisterFlags::from_bits_truncate(IVFM_ENABLE)));

    flags.insert(EnableRegisterFlags::from_bits_truncate(MODE_TORCH));
    assert_eq!(flags.bits(), 0x12);

    flags.remove(EnableRegisterFlags::from_bits_truncate(MODE_MASK));
    assert_eq!(flags.bits(), 0x10);

    flags.set(EnableRegisterFlags::from_bits_truncate(STROBE_ENABLE), true);
    assert_eq!(flags.bits(), 0x14);
    flags.set(EnableRegisterFlags::from_bits_truncate(STROBE_ENABLE), false);
    assert_eq!(flags.bits(), 0x10);

    let both = EnableRegisterFlags::from_bits_truncate(IVFM_ENABLE).union(
        EnableRegisterFlags::from_bits_truncate(MODE_TORCH),
    );
    assert_eq!(both.bits(), 0x12);
    let overlap = both.intersection(EnableRegisterFlags::from_bits_truncate(MODE_MASK));
    assert_eq!(overlap.bits(), 0x02);
}

#[test]
fn decode_truncates_reserved_bits() {
    assert_eq!(EnableRegisterFlags::from_bits_truncate(0xFF).bits(), 0x1F);
    assert_eq!(LedTorchBrightnessFlags::from_bits_truncate(0xFF).bits(), 0x7F);
    assert_eq!(FlagRegisterFlags::from_bits_truncate(0xFF).bits(), 0x6F);
    assert_eq!(DeviceIdFlags::from_bits_truncate(0xFF).bits(), 0x3F);
}
