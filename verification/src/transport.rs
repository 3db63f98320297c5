//! The capability the driver requires from its environment: a blocking
//! two-wire bus that can write two bytes to a device, or write one byte and
//! read one back in a single combined transaction.
use vstd::prelude::*;

verus! {

/// A blocking two-wire bus transport. Implementations wrap the board's bus
/// peripheral; the driver promises nothing about the outcome of a
/// transaction and propagates the implementation's error verbatim.
pub trait Transport: Sized {
    /// The transport's own error type, passed through unchanged.
    type BusError;

    /// Send the two bytes `b0`, `b1` to the device at bus address `addr` as
    /// a single write transaction.
    fn write(&mut self, addr: u8, b0: u8, b1: u8) -> Result<(), Self::BusError>;

    /// Send the byte `out` to the device at bus address `addr`, then read
    /// one byte back, as a single combined write-then-read transaction.
    fn write_read(&mut self, addr: u8, out: u8) -> Result<u8, Self::BusError>;
}

} // verus!
