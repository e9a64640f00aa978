use vstd::prelude::*;

verus! {

/// Everything that can go wrong while driving the bridge chip.
#[derive(Debug, Copy, Clone, PartialEq, Eq, Structural)]
pub enum Error {
    /// The device reset command did not report the reset indicator.
    DeviceResetError,
    /// The I2C transport failed.
    I2CCommunicationError,
    /// The configuration read back differs from the one written.
    WriteConfigError,
    /// The One-Wire bus is shorted.
    ShortDetected,
}

} // verus!
