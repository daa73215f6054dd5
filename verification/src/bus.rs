//! The two-wire bus transport a driver instance runs on.
//!
//! Opening a device handle, moving raw bytes and parking for a delay are
//! host concerns, so they stand behind this trait and the host supplies the
//! implementation: a real bus adapter in production, a scripted stand-in
//! under test. Nothing is promised of any call's outcome — the transport
//! alone decides whether a transfer succeeds and what bytes come back — so
//! everything proved of the driver holds for every implementation.
use vstd::prelude::*;

use crate::error::BusError;

verus! {

/// An exclusive handle on the two-wire bus, positioned at the device's
/// address. A driver owns one and issues its whole write/delay/read
/// exchange through it, one transaction at a time.
pub trait I2cBus {
    /// Writes a register address byte followed by the register's two data
    /// bytes to the device.
    fn write(&mut self, data: &[u8; 3]) -> Result<(), BusError>;

    /// Writes a single register-pointer byte, selecting which register a
    /// following read returns.
    fn smbus_write_byte(&mut self, value: u8) -> Result<(), BusError>;

    /// Reads the two data bytes of the register the pointer selects.
    fn read(&mut self) -> Result<[u8; 2], BusError>;

    /// Parks or suspends the caller for at least the given number of
    /// milliseconds before the exchange goes on.
    fn delay_ms(&mut self, ms: u64);
}

} // verus!
