use vstd::prelude::*;

use crate::bus::Exchange;
use crate::error::Error;

verus! {

/// Command "Device Reset".
pub const COMMAND_DRST: u8 = 0xF0;
/// Command "Write Configuration".
pub const COMMAND_WCFG: u8 = 0xD2;
/// Command "1-Wire Reset".
pub const COMMAND_1WRS: u8 = 0xB4;
/// Command "1-Wire Single Bit".
pub const COMMAND_1WSB: u8 = 0x87;
/// Command "1-Wire Read Byte".
pub const COMMAND_1WRB: u8 = 0x96;
/// Command "1-Wire Write Byte".
pub const COMMAND_1WWB: u8 = 0xA5;
/// Command "Triplet".
pub const COMMAND_TRIPLET: u8 = 0x78;
/// Command "Set Read Pointer".
pub const COMMAND_SRP: u8 = 0xE1;

/// Read pointer selecting the status register.
pub const POINTER_STATUS: u8 = 0xF0;
/// Read pointer selecting the data register.
pub const POINTER_DATA: u8 = 0xE1;

/// Status bit: 1-Wire busy.
pub const STATUS_1WB: u8 = 0x01;
/// Status bit: presence pulse detected.
pub const STATUS_PPD: u8 = 0x02;
/// Status bit: short detected.
pub const STATUS_SD: u8 = 0x04;
/// Status bit: device reset has occurred.
pub const STATUS_RST: u8 = 0x10;
/// Status bit: single bit result.
pub const STATUS_SBR: u8 = 0x20;
/// Status bit: triplet second bit.
pub const STATUS_TSB: u8 = 0x40;
/// Status bit: branch direction taken.
pub const STATUS_DIR: u8 = 0x80;

/// Most status polls made while waiting for the chip to become idle.
pub const MAX_POLLS: u32 = 1000;
/// Sleep between two status polls, in microseconds.
pub const POLL_DELAY_US: u32 = 20;

/// What a register read answered: whether the pointer write was accepted,
/// and the byte read (`None` when that read failed).
pub type Poll = (bool, Option<u8>);

pub open spec fn has_bit(status: u8, bit: u8) -> bool {
    status & bit != 0
}

pub open spec fn write_value(ok: bool) -> Result<(), Error> {
    if ok {
        Ok(())
    } else {
        Err(Error::I2CCommunicationError)
    }
}

pub open spec fn read_value(got: Option<u8>) -> Result<u8, Error> {
    match got {
        Some(b) => Ok(b),
        None => Err(Error::I2CCommunicationError),
    }
}

/// The I2C frames among `t`, in order.
pub open spec fn frames_of(t: Seq<Exchange>) -> Seq<Exchange>
    decreases t.len(),
{
    if t.len() == 0 {
        Seq::empty()
    } else {
        frames_of(t.drop_last()) + if t.last() is Pause {
            Seq::empty()
        } else {
            seq![t.last()]
        }
    }
}

/// The sleeps among `t`, in microseconds, in order.
pub open spec fn pauses_of(t: Seq<Exchange>) -> Seq<u32>
    decreases t.len(),
{
    if t.len() == 0 {
        Seq::empty()
    } else {
        pauses_of(t.drop_last()) + match t.last() {
            Exchange::Pause { us } => seq![us],
            _ => Seq::empty(),
        }
    }
}

pub proof fn lemma_split_add(a: Seq<Exchange>, b: Seq<Exchange>)
    ensures
        frames_of(a + b) == frames_of(a) + frames_of(b),
        pauses_of(a + b) == pauses_of(a) + pauses_of(b),
    decreases b.len(),
{
    if b.len() == 0 {
        assert(a + b =~= a);
        assert(frames_of(a) + frames_of(b) =~= frames_of(a));
        assert(pauses_of(a) + pauses_of(b) =~= pauses_of(a));
    } else {
        lemma_split_add(a, b.drop_last());
        assert((a + b).drop_last() =~= a + b.drop_last());
        assert((a + b).last() == b.last());
        assert(frames_of(a + b) =~= frames_of(a) + frames_of(b));
        assert(pauses_of(a + b) =~= pauses_of(a) + pauses_of(b));
    }
}

pub proof fn lemma_no_pause(t: Seq<Exchange>)
    requires
        forall|i: int| 0 <= i < t.len() ==> !(#[trigger] t[i] is Pause),
    ensures
        frames_of(t) == t,
        pauses_of(t) == Seq::<u32>::empty(),
    decreases t.len(),
{
    if t.len() > 0 {
        let rest = t.drop_last();
        assert forall|i: int| 0 <= i < rest.len() implies !(#[trigger] rest[i] is Pause) by {
            assert(rest[i] == t[i]);
        }
        lemma_no_pause(rest);
        assert(!(t[t.len() - 1] is Pause));
        assert(frames_of(t) =~= t);
        assert(pauses_of(t) =~= Seq::<u32>::empty());
    }
}

pub proof fn lemma_one_pause(us: u32)
    ensures
        frames_of(seq![Exchange::Pause { us }]) == Seq::<Exchange>::empty(),
        pauses_of(seq![Exchange::Pause { us }]) == seq![us],
{
    let t = seq![Exchange::Pause { us }];
    assert(t.drop_last() =~= Seq::<Exchange>::empty());
    assert(frames_of(t.drop_last()) == Seq::<Exchange>::empty());
    assert(pauses_of(t.drop_last()) == Seq::<u32>::empty());
    assert(t.last() == Exchange::Pause { us });
    assert(frames_of(t) =~= Seq::<Exchange>::empty());
    assert(pauses_of(t) =~= seq![us]);
}

/// Select the register `pointer`, then read it.
pub open spec fn register_read(addr: u8, pointer: u8, p: Poll) -> Seq<Exchange> {
    let select = Exchange::Write { addr, bytes: seq![COMMAND_SRP, pointer], ok: p.0 };
    if p.0 {
        seq![select, Exchange::Read { addr, got: p.1 }]
    } else {
        seq![select]
    }
}

pub open spec fn register_value(p: Poll) -> Result<u8, Error> {
    if p.0 {
        read_value(p.1)
    } else {
        Err(Error::I2CCommunicationError)
    }
}

/// The poll read a status byte whose busy flag is set.
pub open spec fn is_busy(p: Poll) -> bool {
    match register_value(p) {
        Ok(s) => has_bit(s, STATUS_1WB),
        Err(_) => false,
    }
}

/// One status poll, followed by a sleep when the chip was still busy.
pub open spec fn poll_exchanges(addr: u8, p: Poll) -> Seq<Exchange> {
    register_read(addr, POINTER_STATUS, p) + if is_busy(p) {
        seq![Exchange::Pause { us: POLL_DELAY_US }]
    } else {
        Seq::empty()
    }
}

pub open spec fn wait_exchanges(addr: u8, polls: Seq<Poll>) -> Seq<Exchange>
    decreases polls.len(),
{
    if polls.len() == 0 {
        Seq::empty()
    } else {
        wait_exchanges(addr, polls.drop_last()) + poll_exchanges(addr, polls.last())
    }
}

pub proof fn lemma_wait_push(addr: u8, polls: Seq<Poll>, p: Poll)
    ensures
        wait_exchanges(addr, polls.push(p)) == wait_exchanges(addr, polls) + poll_exchanges(addr, p),
        frames_of(wait_exchanges(addr, polls.push(p))) == frames_of(wait_exchanges(addr, polls))
            + register_read(addr, POINTER_STATUS, p),
        pauses_of(wait_exchanges(addr, polls.push(p))) == pauses_of(wait_exchanges(addr, polls))
            + if is_busy(p) {
            seq![POLL_DELAY_US]
        } else {
            Seq::empty()
        },
{
    assert(polls.push(p).drop_last() =~= polls);
    let w = wait_exchanges(addr, polls);
    let r = register_read(addr, POINTER_STATUS, p);
    lemma_no_pause(r);
    if is_busy(p) {
        let z = seq![Exchange::Pause { us: POLL_DELAY_US }];
        lemma_one_pause(POLL_DELAY_US);
        lemma_split_add(r, z);
        assert(r + Seq::<Exchange>::empty() =~= r);
        assert(Seq::<u32>::empty() + seq![POLL_DELAY_US] =~= seq![POLL_DELAY_US]);
    } else {
        assert(r + Seq::<Exchange>::empty() =~= r);
    }
    lemma_split_add(w, poll_exchanges(addr, p));
    assert(pauses_of(w) + Seq::<u32>::empty() =~= pauses_of(w));
}

/// The replies of a busy wait: every poll but the last saw a busy chip, and
/// the last one ends the wait, by an idle status, a failure, or the bound.
pub open spec fn wait_polls(polls: Seq<Poll>) -> bool {
    &&& 1 <= polls.len() <= MAX_POLLS
    &&& forall|i: int| 0 <= i < polls.len() - 1 ==> is_busy(#[trigger] polls[i])
    &&& polls.len() < MAX_POLLS ==> !is_busy(polls.last())
}

/// A busy wait yields the last status it read, busy or not.
pub open spec fn wait_value(polls: Seq<Poll>) -> Result<u8, Error> {
    register_value(polls.last())
}

/// Wait for the chip to be idle, then send `bytes`.
pub open spec fn issue_exchanges(addr: u8, w: Seq<Poll>, bytes: Seq<u8>, ok: bool) -> Seq<Exchange> {
    wait_exchanges(addr, w) + if wait_value(w) is Ok {
        seq![Exchange::Write { addr, bytes, ok }]
    } else {
        Seq::empty()
    }
}

pub open spec fn issue_value(w: Seq<Poll>, ok: bool) -> Result<(), Error> {
    match wait_value(w) {
        Ok(_) => write_value(ok),
        Err(e) => Err(e),
    }
}

/// Issue a bus command, then wait for the chip to finish it.
pub open spec fn command_exchanges(
    addr: u8,
    w1: Seq<Poll>,
    bytes: Seq<u8>,
    ok: bool,
    w2: Seq<Poll>,
) -> Seq<Exchange> {
    issue_exchanges(addr, w1, bytes, ok) + if issue_value(w1, ok) is Ok {
        wait_exchanges(addr, w2)
    } else {
        Seq::empty()
    }
}

/// The status seen once the command has finished.
pub open spec fn command_value(w1: Seq<Poll>, ok: bool, w2: Seq<Poll>) -> Result<u8, Error> {
    match issue_value(w1, ok) {
        Ok(_) => wait_value(w2),
        Err(e) => Err(e),
    }
}

/// Issue a bus command, wait for it, then read the register `pointer`.
pub open spec fn fetch_exchanges(
    addr: u8,
    w1: Seq<Poll>,
    bytes: Seq<u8>,
    ok: bool,
    w2: Seq<Poll>,
    pointer: u8,
    p: Poll,
) -> Seq<Exchange> {
    command_exchanges(addr, w1, bytes, ok, w2) + if command_value(w1, ok, w2) is Ok {
        register_read(addr, pointer, p)
    } else {
        Seq::empty()
    }
}

pub open spec fn fetch_value(w1: Seq<Poll>, ok: bool, w2: Seq<Poll>, p: Poll) -> Result<u8, Error> {
    match command_value(w1, ok, w2) {
        Ok(_) => register_value(p),
        Err(e) => Err(e),
    }
}

pub open spec fn write_config_exchanges(
    addr: u8,
    config: u8,
    got: Option<u8>,
    reset_got: Option<u8>,
) -> Seq<Exchange> {
    let write = Exchange::WriteRead { addr, bytes: seq![COMMAND_WCFG, config_byte(config)], got };
    if got is Some && got != Some(config) {
        seq![write] + device_reset_exchanges(addr, reset_got)
    } else {
        seq![write]
    }
}

/// A configuration write succeeds exactly when the chip reads back the
/// options written.
pub open spec fn write_config_value(config: u8, got: Option<u8>) -> Result<(), Error> {
    match got {
        Some(b) => if b == config {
            Ok(())
        } else {
            Err(Error::WriteConfigError)
        },
        None => Err(Error::I2CCommunicationError),
    }
}

/// The byte written to the configuration register: the options in the low
/// nibble, their complement in the high nibble.
pub open spec fn config_byte(config: u8) -> u8 {
    config | ((!config) << 4u8)
}

pub open spec fn device_reset_exchanges(addr: u8, got: Option<u8>) -> Seq<Exchange> {
    seq![Exchange::WriteRead { addr, bytes: seq![COMMAND_DRST], got }]
}

pub open spec fn device_reset_value(got: Option<u8>) -> Result<(), Error> {
    match got {
        Some(s) => if has_bit(s, STATUS_RST) {
            Ok(())
        } else {
            Err(Error::DeviceResetError)
        },
        None => Err(Error::I2CCommunicationError),
    }
}

/// What a bus reset reports, given the status once the chip was idle again.
pub open spec fn reset_value(status: Result<u8, Error>) -> Result<bool, Error> {
    match status {
        Ok(s) => if has_bit(s, STATUS_SD) {
            Err(Error::ShortDetected)
        } else {
            Ok(has_bit(s, STATUS_PPD))
        },
        Err(e) => Err(e),
    }
}

/// A command with no result succeeds once the chip has carried it out.
pub open spec fn done_value(status: Result<u8, Error>) -> Result<(), Error> {
    match status {
        Ok(_) => Ok(()),
        Err(e) => Err(e),
    }
}

/// The single-bit result that a status read reports.
pub open spec fn bit_value(status: Result<u8, Error>) -> Result<bool, Error> {
    match status {
        Ok(s) => Ok(has_bit(s, STATUS_SBR)),
        Err(e) => Err(e),
    }
}

/// The payload byte of a single-bit or triplet command.
pub open spec fn bit_byte(bit: bool) -> u8 {
    if bit {
        0xFF
    } else {
        0x00
    }
}

/// The single-bit command: a read slot when `bit` is set.
pub open spec fn single_bit_command(bit: bool) -> Seq<u8> {
    seq![COMMAND_1WSB, bit_byte(bit)]
}

pub open spec fn write_byte_command(value: u8) -> Seq<u8> {
    seq![COMMAND_1WWB, value]
}

pub open spec fn triplet_command(dir_bit: bool) -> Seq<u8> {
    seq![COMMAND_TRIPLET, bit_byte(dir_bit)]
}

} // verus!
