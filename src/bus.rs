use vstd::prelude::*;

verus! {

/// The transport reported a failure; its own error is not kept.
#[derive(Debug, Copy, Clone, PartialEq, Eq, Structural)]
pub struct BusFault;

/// The byte a one-byte read handed back, or `None` when it failed.
pub open spec fn got_of(r: Result<u8, BusFault>) -> Option<u8> {
    match r {
        Ok(b) => Some(b),
        Err(_) => None,
    }
}

/// The frames an I2C controller has carried, oldest first.
pub type FrameLog = Seq<Exchange>;

/// The sleeps a delay has made, in microseconds, oldest first.
pub type SleepLog = Seq<u32>;

/// An I2C controller that can address a 7-bit target. It keeps, as ghost
/// state, every frame it has carried and what each answered.
pub trait I2cBus {
    /// The frames carried so far, oldest first.
    spec fn frames(&self) -> FrameLog;

    /// Send `bytes` to `addr` in one frame.
    fn write(&mut self, addr: u8, bytes: &[u8]) -> (r: Result<(), BusFault>)
        ensures
            final(self).frames() == old(self).frames().push(
                Exchange::Write { addr, bytes: bytes@, ok: r is Ok },
            ),
    ;

    /// Read one byte from `addr` in one frame.
    fn read(&mut self, addr: u8) -> (r: Result<u8, BusFault>)
        ensures
            final(self).frames() == old(self).frames().push(Exchange::Read { addr, got: got_of(r) }),
    ;

    /// Send `bytes` to `addr`, then read one byte back, in one transaction.
    fn write_read(&mut self, addr: u8, bytes: &[u8]) -> (r: Result<u8, BusFault>)
        ensures
            final(self).frames() == old(self).frames().push(
                Exchange::WriteRead { addr, bytes: bytes@, got: got_of(r) },
            ),
    ;
}

/// A blocking sleep of microsecond granularity, which keeps as ghost state
/// every sleep it has made.
pub trait Delay {
    /// The sleeps made so far, in microseconds, oldest first.
    spec fn slept(&self) -> SleepLog;

    fn delay_us(&mut self, us: u32)
        ensures
            final(self).slept() == old(self).slept().push(us),
    ;
}

/// One exchange with the outside world, with what it answered. A driver
/// operation is described by a sequence of these: its I2C frames and its
/// sleeps, in the order they happen.
pub enum Exchange {
    /// A write frame; `ok` is whether the transport accepted it.
    Write { addr: u8, bytes: Seq<u8>, ok: bool },
    /// A one-byte read frame; `None` when the transport failed.
    Read { addr: u8, got: Option<u8> },
    /// A write followed by a one-byte read; `None` when the transport failed.
    WriteRead { addr: u8, bytes: Seq<u8>, got: Option<u8> },
    /// A sleep of `us` microseconds.
    Pause { us: u32 },
}

} // verus!
