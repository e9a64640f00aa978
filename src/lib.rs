//! Driver for a DS2482-class I2C to One-Wire bridge.
//!
//! The driver is generic over an I2C transport and a microsecond delay.
//! Both keep, as ghost state, what they have done: the I2C frames carried and
//! the sleeps made. Each operation states the frames and sleeps it adds, and
//! how its result follows from the replies.

pub mod bus;
pub mod protocol;
pub mod theorems;
pub mod driver;
pub mod error;

pub use bus::{BusFault, Delay, Exchange, FrameLog, I2cBus, SleepLog};
pub use driver::{OneWireDS2482, Triplet};
pub use error::Error;
