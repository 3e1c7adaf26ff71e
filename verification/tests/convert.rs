use lm36011::convert::{
    flash_code_to_current_hundredths_ma, flash_current_code_from_tenths_ma,
    torch_code_to_current_hundredths_ma, torch_current_code_from_tenths_ma,
};

#[test]
fn flash_conversion_examples() {
    // floor(150 mA / 11.7 mA) = 12
    assert_eq!(flash_current_code_from_tenths_ma(1500), Some(0x0C));
    assert_eq!(flash_current_code_from_tenths_ma(0), Some(0));
    // one step boundary: 11.7 mA
    assert_eq!(flash_current_code_from_tenths_ma(116), Some(0));
    assert_eq!(flash_current_code_from_tenths_ma(117), Some(1));
}

#[test]
fn flash_conversion_saturates() {
    // floor(1500 mA / 11.7 mA) = 128, saturated to the largest code
    assert_eq!(flash_current_code_from_tenths_ma(15000), Some(0x7F));
    assert_eq!(flash_current_code_from_tenths_ma(14976), Some(0x7F));
}

#[test]
fn flash_conversion_rejects_out_of_range() {
    assert_eq!(flash_current_code_from_tenths_ma(15001), None);
    assert_eq!(flash_current_code_from_tenths_ma(16000), None);
}

#[test]
fn torch_conversion_examples() {
    // floor(64 mA / 2.93 mA) = 21
    assert_eq!(torch_current_code_from_tenths_ma(640), Some(0x15));
    assert_eq!(torch_current_code_from_tenths_ma(0), Some(0));
    // one step boundary: 2.93 mA
    assert_eq!(torch_current_code_from_tenths_ma(29), Some(0));
    assert_eq!(torch_current_code_from_tenths_ma(30), Some(1));
}

#[test]
fn torch_conversion_saturates_and_rejects() {
    // floor(376 mA / 2.93 mA) = 128, saturated to the largest code
    assert_eq!(torch_current_code_from_tenths_ma(3760), Some(0x7F));
    assert_eq!(torch_current_code_from_tenths_ma(3761), None);
}

#[test]
fn reverse_conversions_scale_by_step() {
    assert_eq!(flash_code_to_current_hundredths_ma(0), 0);
    assert_eq!(flash_code_to_current_hundredths_ma(12), 14040);
    assert_eq!(flash_code_to_current_hundredths_ma(0x7F), 148590);
    assert_eq!(torch_code_to_current_hundredths_ma(0), 0);
    assert_eq!(torch_code_to_current_hundredths_ma(0x15), 6153);
    assert_eq!(torch_code_to_current_hundredths_ma(0x7F), 37211);
}
