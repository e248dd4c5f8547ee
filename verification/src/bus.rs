//! The capabilities the driver consumes, to be implemented by the embedding
//! platform: a byte-oriented two-wire bus transport and a millisecond sleep.
//!
//! The driver promises nothing about what a bus hands back — a device may
//! answer anything or fail — so these methods carry no contract; every
//! guarantee the driver gives holds whatever an implementation does.

use vstd::prelude::*;

verus! {

/// A two-wire bus transport, addressed by a fixed 7-bit device address.
///
/// All defined operations write a single command byte or read the three-byte
/// response (two bytes of big-endian signed measurement, one status byte).
pub trait I2cBus {
    /// The transport's own error type, surfaced unchanged through
    /// [`Error::I2c`](crate::driver::Error::I2c).
    type BusError;

    /// Write a single command byte to the device at the given address.
    fn write_byte(&mut self, address: u8, byte: u8) -> Result<(), Self::BusError>;

    /// Read the three-byte response from the device at the given address:
    /// the two measurement bytes followed by the status byte.
    fn read_three(&mut self, address: u8) -> Result<(u8, u8, u8), Self::BusError>;
}

/// A blocking sleep with millisecond granularity.
pub trait DelayMs {
    /// Block the calling thread for at least `ms` milliseconds.
    fn delay_ms(&mut self, ms: u32);
}

} // verus!
