//! Error values reported by driver operations.
use vstd::prelude::*;

verus! {

/// A failure reported by the underlying two-wire bus transport: a write or
/// read that the device did not acknowledge or the host could not complete.
#[derive(Clone, Debug, PartialEq, Eq)]
pub struct BusError {
    /// What the transport reported, carried through unchanged.
    pub message: String,
}

/// An error generated by a driver operation.
#[derive(Clone, Debug, PartialEq, Eq)]
pub enum Error {
    /// An error originating from the bus transport.
    Bus(BusError),
}

} // verus!
