//! Sensor plumbing shared by all environmental sensor drivers.
//!
//! Concrete sensor drivers live outside this crate with the bus they
//! read; what they share — the error classification and the hub that
//! will own them — is here.

use vstd::prelude::*;

verus! {

/// Sensor errors.
#[derive(Debug, Clone, Copy, PartialEq, Eq, Structural)]
pub enum SensorError {
    /// The sensor's serial bus transfer failed.
    I2cError,
    /// The sensor's peripheral bus transfer failed.
    SpiError,
    /// The sensor did not respond.
    NoResponse,
    /// The sensor returned an implausible reading.
    InvalidData,
    /// The sensor was read before it was initialized.
    NotInitialized,
}

/// The hub that owns the node's sensors and reads them in turn.
pub struct SensorHub {
}

impl SensorHub {
    /// A hub with no sensors registered yet.
    pub fn new() -> (h: SensorHub) {
        SensorHub {  }
    }

    /// Read every registered sensor; succeeds when each read succeeds.
    pub fn read_all(&mut self) -> (r: Result<(), SensorError>)
        ensures
            r is Ok,
            *final(self) == *old(self),
    {
        Ok(())
    }
}

} // verus!
