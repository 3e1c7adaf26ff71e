//! Conversion between drive currents and raw 7-bit register codes.
//!
//! The flash output steps in 11.7 mA per code and the torch output in
//! 2.93 mA per code.  Currents are taken in tenths of a milliampere so the
//! conversions are exact integer arithmetic: a flash current of `x` mA is
//! passed as `10 * x`, and `floor(x / 11.7)` equals `(10 * x) / 117`.

use vstd::prelude::*;

verus! {

/// Flash step size, in tenths of a milliampere (11.7 mA per code).
pub const FLASH_STEP_TENTHS_MA: u32 = 117;

/// Largest accepted flash current, in tenths of a milliampere (1500 mA).
pub const FLASH_MAX_TENTHS_MA: u32 = 15000;

/// Largest accepted torch current, in tenths of a milliampere (376 mA).
pub const TORCH_MAX_TENTHS_MA: u32 = 3760;

/// The 7-bit flash code for an in-range current: the current divided by
/// the step, saturated to the largest code.
pub open spec fn spec_flash_code(tenths_ma: u32) -> u8 {
    if tenths_ma / 117 > 0x7F {
        0x7F
    } else {
        (tenths_ma / 117) as u8
    }
}

/// The 7-bit torch code for an in-range current: the current divided by
/// the 2.93 mA step, saturated to the largest code.
pub open spec fn spec_torch_code(tenths_ma: u32) -> u8 {
    if (10 * tenths_ma as int) / 293 > 0x7F {
        0x7F
    } else {
        ((10 * tenths_ma as int) / 293) as u8
    }
}

/// Converts a flash current to its register code.
///
/// Currents above 1500 mA are rejected; in-range currents give
/// `floor(current_ma / 11.7)`, saturated to `0x7F`.
pub fn flash_current_code_from_tenths_ma(tenths_ma: u32) -> (r: Option<u8>)
    ensures
        tenths_ma > FLASH_MAX_TENTHS_MA ==> r is None,
        tenths_ma <= FLASH_MAX_TENTHS_MA ==> r == Some(spec_flash_code(tenths_ma)),
{
    if tenths_ma > FLASH_MAX_TENTHS_MA {
        return None;
    }
    let code: u32 = tenths_ma / FLASH_STEP_TENTHS_MA;
    if code > 0x7F {
        Some(0x7F)
    } else {
        Some(code as u8)
    }
}

/// Converts a torch current to its register code.
///
/// Currents above 376 mA are rejected; in-range currents give
/// `floor(current_ma / 2.93)`, saturated to `0x7F`.
pub fn torch_current_code_from_tenths_ma(tenths_ma: u32) -> (r: Option<u8>)
    ensures
        tenths_ma > TORCH_MAX_TENTHS_MA ==> r is None,
        tenths_ma <= TORCH_MAX_TENTHS_MA ==> r == Some(spec_torch_code(tenths_ma)),
{
    if tenths_ma > TORCH_MAX_TENTHS_MA {
        return None;
    }
    let code: u32 = (10 * tenths_ma) / 293;
    if code > 0x7F {
        Some(0x7F)
    } else {
        Some(code as u8)
    }
}

/// Nominal flash current of a code, in hundredths of a milliampere.
///
/// Informational reverse conversion, defined as the code times the
/// 11.7 mA step.
pub fn flash_code_to_current_hundredths_ma(code: u8) -> (r: u32)
    requires
        code <= 0x7F,
    ensures
        r == 1170 * code,
{
    1170 * (code as u32)
}

/// Nominal torch current of a code, in hundredths of a milliampere.
///
/// Informational reverse conversion, defined as the code times the
/// 2.93 mA step.
pub fn torch_code_to_current_hundredths_ma(code: u8) -> (r: u32)
    requires
        code <= 0x7F,
    ensures
        r == 293 * code,
{
    293 * (code as u32)
}

/// Law: every code the flash conversion accepts fits in seven bits, and on
/// the unsaturated range it is exactly the quotient of current by step.
pub proof fn lemma_flash_code_bounds(tenths_ma: u32)
    ensures
        spec_flash_code(tenths_ma) <= 0x7F,
        tenths_ma < 0x80 * 117 ==> spec_flash_code(tenths_ma) == tenths_ma / 117,
{
}

/// Law: every code the torch conversion accepts fits in seven bits.
pub proof fn lemma_torch_code_bounds(tenths_ma: u32)
    ensures
        spec_torch_code(tenths_ma) <= 0x7F,
{
}

} // verus!
