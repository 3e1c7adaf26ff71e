//! Driver for the LM36011 inductorless LED flash/torch controller.
//!
//! The part sits on a two-wire bus at address `0x64` and exposes six byte-wide
//! registers.  The driver keeps an in-memory shadow of each register, offers
//! typed bit-set views of the register contents, converts flash and torch
//! currents to raw codes, and synchronizes shadow and device state through
//! single-register and whole-block transfers.

pub mod convert;
pub mod driver;
pub mod registers;
pub mod transport;

pub use driver::LM36011;
pub use driver::LM36011Error;
pub use registers::Register;
pub use transport::I2cTransport;
pub use transport::Transaction;
