//! The two-wire capability the driver runs on.
//!
//! The driver is generic over a transport that can write a byte string to
//! a device address and perform a combined write-then-read.  The trait
//! promises nothing about an implementation — a hardware bus binding or a
//! test double provides it from outside the verified library — so the
//! driver's contracts assume nothing of one either: they are stated over
//! the driver's own record of the transfers it has issued, and hold for
//! every value a transport may return.

use vstd::prelude::*;

verus! {

/// One bus transfer as the driver issued it.
pub enum Transaction {
    /// A plain write of `bytes` to `address`.
    Write { address: u8, bytes: Seq<u8> },
    /// A write of `bytes` to `address` followed by a read of `response`.
    WriteRead { address: u8, bytes: Seq<u8>, response: Seq<u8> },
}

/// A blocking two-wire master.
pub trait I2cTransport: Sized {
    /// The transport's native error, surfaced verbatim by the driver.
    type Error;

    /// Writes `bytes` to the device at `address`.
    fn write<const N: usize>(&mut self, address: u8, bytes: &[u8; N]) -> Result<(), Self::Error>;

    /// Writes `bytes` to the device at `address`, then reads `R` bytes.
    fn write_read<const N: usize, const R: usize>(
        &mut self,
        address: u8,
        bytes: &[u8; N],
    ) -> Result<[u8; R], Self::Error>;
}

} // verus!
