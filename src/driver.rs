use vstd::prelude::*;

use crate::bus::{got_of, Delay, Exchange, I2cBus};
use crate::error::Error;
use crate::protocol::{
    bit_value, command_exchanges, command_value, config_byte, device_reset_exchanges, done_value,
    device_reset_value, fetch_exchanges, fetch_value, frames_of, has_bit, is_busy, issue_exchanges,
    issue_value, lemma_no_pause, lemma_split_add, lemma_wait_push, pauses_of, read_value, register_read, register_value, reset_value,
    single_bit_command, triplet_command, wait_exchanges, wait_polls, wait_value,
    write_byte_command, write_config_exchanges, write_config_value, write_value, COMMAND_1WRB,
    COMMAND_1WRS, COMMAND_1WSB, COMMAND_1WWB, COMMAND_DRST, COMMAND_SRP, COMMAND_TRIPLET,
    COMMAND_WCFG, MAX_POLLS, POINTER_DATA, POINTER_STATUS, POLL_DELAY_US, Poll, STATUS_1WB,
    STATUS_DIR, STATUS_PPD, STATUS_RST, STATUS_SBR, STATUS_SD, STATUS_TSB,
};

verus! {

/// The outcome of a triplet: the bit read, its complement, and the branch
/// direction the chip took.
#[derive(Debug, Copy, Clone, PartialEq, Eq, Structural)]
pub struct Triplet {
    pub bit: bool,
    pub complement_bit: bool,
    pub direction: bool,
}

impl Triplet {
    pub fn new(bit: bool, complement_bit: bool, direction: bool) -> (r: Triplet)
        ensures
            r == (Triplet { bit, complement_bit, direction }),
    {
        Triplet { bit, complement_bit, direction }
    }
}

/// The triplet that a status byte reports.
pub open spec fn triplet_of(status: u8) -> Triplet {
    Triplet {
        bit: has_bit(status, STATUS_SBR),
        complement_bit: has_bit(status, STATUS_TSB),
        direction: has_bit(status, STATUS_DIR),
    }
}

/// The triplet that a bus command reports, given the status once the chip
/// was idle again.
pub open spec fn triplet_value(status: Result<u8, Error>) -> Result<Triplet, Error> {
    match status {
        Ok(s) => Ok(triplet_of(s)),
        Err(e) => Err(e),
    }
}

/// A One-Wire bus master on a DS2482 bridge at a fixed I2C address.
pub struct OneWireDS2482<I2C> {
    i2c: I2C,
    addr: u8,
}

impl<I2C: I2cBus> OneWireDS2482<I2C> {
    /// The I2C address of the bridge.
    pub closed spec fn address(&self) -> u8 {
        self.addr
    }

    /// The transport the driver owns.
    pub closed spec fn bus(&self) -> I2C {
        self.i2c
    }

    pub fn new(i2c: I2C, addr: u8) -> (r: Self)
        ensures
            r.address() == addr,
            r.bus() == i2c,
    {
        OneWireDS2482 { i2c, addr }
    }

    /// Reset the bridge; to be done after power-up or a communication error.
    pub fn ds2482_device_reset(&mut self) -> (r: Result<(), Error>)
        ensures
            final(self).address() == old(self).address(),
            exists|got: Option<u8>|
                final(self).bus().frames() == old(self).bus().frames()
                    + #[trigger] device_reset_exchanges(old(self).address(), got) && r
                    == device_reset_value(got),
    {
        let cmd: [u8; 1] = [COMMAND_DRST];
        let res = self.i2c.write_read(self.addr, &cmd);
        let ghost got = got_of(res);
        assert(cmd@ =~= seq![COMMAND_DRST]);
        let r = match res {
            Ok(status) => {
                if status & STATUS_RST == 0 {
                    Err(Error::DeviceResetError)
                } else {
                    Ok(())
                }
            },
            Err(_) => Err(Error::I2CCommunicationError),
        };
        assert(r == device_reset_value(got));
        assert(self.bus().frames() =~= old(self).bus().frames() + device_reset_exchanges(
            old(self).address(),
            got,
        ));
        r
    }

    /// Write the configuration register and check that it reads back.
    ///
    /// The options are, from bit 3 down: 1-Wire speed (overdrive when set),
    /// strong pullup, a reserved bit that must be 0, active pullup. On a
    /// mismatch the bridge is reset, whatever that reset reports.
    pub fn ds2482_write_config(&mut self, config: u8) -> (r: Result<(), Error>)
        ensures
            final(self).address() == old(self).address(),
            exists|got: Option<u8>, reset_got: Option<u8>|
                final(self).bus().frames() == old(self).bus().frames()
                    + #[trigger] write_config_exchanges(old(self).address(), config, got, reset_got)
                    && r == write_config_value(config, got),
    {
        let packed: u8 = config | (!config << 4u8);
        let cmd: [u8; 2] = [COMMAND_WCFG, packed];
        let res = self.i2c.write_read(self.addr, &cmd);
        let ghost got = got_of(res);
        assert(cmd@ =~= seq![COMMAND_WCFG, config_byte(config)]);
        let ghost mid = self.i2c.frames();
        match res {
            Ok(read_config) => {
                if read_config != config {
                    let _ = self.ds2482_device_reset();
                    let ghost reset_got = choose|reset_got: Option<u8>|
                        self.i2c.frames() == mid + #[trigger] device_reset_exchanges(
                            self.addr,
                            reset_got,
                        );
                    assert(self.bus().frames() =~= old(self).bus().frames() + write_config_exchanges(
                        old(self).address(),
                        config,
                        got,
                        reset_got,
                    ));
                    Err(Error::WriteConfigError)
                } else {
                    assert(self.bus().frames() =~= old(self).bus().frames() + write_config_exchanges(
                        old(self).address(),
                        config,
                        got,
                        None,
                    ));
                    Ok(())
                }
            },
            Err(_) => {
                assert(self.bus().frames() =~= old(self).bus().frames() + write_config_exchanges(
                    old(self).address(),
                    config,
                    got,
                    None,
                ));
                Err(Error::I2CCommunicationError)
            },
        }
    }

    /// Select the register that the next plain read returns.
    fn ds2482_set_read_pointer(&mut self, pointer: u8) -> (r: Result<(), Error>)
        ensures
            final(self).address() == old(self).address(),
            exists|ok: bool|
                final(self).bus().frames() == old(self).bus().frames() + seq![
                    Exchange::Write { addr: old(self).address(), bytes: seq![COMMAND_SRP, pointer], ok },
                ] && r == #[trigger] write_value(ok),
    {
        let cmd: [u8; 2] = [COMMAND_SRP, pointer];
        let r = self.ds2482_write_bytes(&cmd);
        assert(cmd@ =~= seq![COMMAND_SRP, pointer]);
        r
    }

    /// Read one byte from whichever register the read pointer selects.
    pub fn ds2482_read_byte(&mut self) -> (r: Result<u8, Error>)
        ensures
            final(self).address() == old(self).address(),
            exists|got: Option<u8>|
                final(self).bus().frames() == old(self).bus().frames() + seq![
                    Exchange::Read { addr: old(self).address(), got },
                ] && r == #[trigger] read_value(got),
    {
        let res = self.i2c.read(self.addr);
        let ghost got = got_of(res);
        assert(self.bus().frames() =~= old(self).bus().frames() + seq![
            Exchange::Read { addr: old(self).address(), got },
        ]);
        let r = match res {
            Ok(b) => Ok(b),
            Err(_) => Err(Error::I2CCommunicationError),
        };
        assert(r == read_value(got));
        r
    }

    /// Send `bytes` to the bridge as they are.
    pub fn ds2482_write_bytes(&mut self, bytes: &[u8]) -> (r: Result<(), Error>)
        ensures
            final(self).address() == old(self).address(),
            exists|ok: bool|
                final(self).bus().frames() == old(self).bus().frames() + seq![
                    Exchange::Write { addr: old(self).address(), bytes: bytes@, ok },
                ] && r == #[trigger] write_value(ok),
    {
        let res = self.i2c.write(self.addr, bytes);
        let ghost ok = res is Ok;
        assert(self.bus().frames() =~= old(self).bus().frames() + seq![
            Exchange::Write { addr: old(self).address(), bytes: bytes@, ok },
        ]);
        let r = match res {
            Ok(_) => Ok(()),
            Err(_) => Err(Error::I2CCommunicationError),
        };
        assert(r == write_value(ok));
        r
    }

    /// Select the register `pointer`, then read it.
    fn read_register(&mut self, pointer: u8) -> (r: Result<u8, Error>)
        ensures
            final(self).address() == old(self).address(),
            exists|p: Poll|
                final(self).bus().frames() == old(self).bus().frames() + #[trigger] register_read(
                    old(self).address(),
                    pointer,
                    p,
                ) && r == register_value(p),
    {
        match self.ds2482_set_read_pointer(pointer) {
            Ok(_) => {
                let ghost mid = self.i2c.frames();
                let r = self.ds2482_read_byte();
                let ghost got = choose|got: Option<u8>|
                    self.i2c.frames() == mid + seq![Exchange::Read { addr: self.addr, got }] && r
                        == #[trigger] read_value(got);
                assert(self.bus().frames() =~= old(self).bus().frames() + register_read(
                    old(self).address(),
                    pointer,
                    (true, got),
                ));
                r
            },
            Err(e) => {
                assert(self.bus().frames() =~= old(self).bus().frames() + register_read(
                    old(self).address(),
                    pointer,
                    (false, None),
                ));
                Err(e)
            },
        }
    }

    /// Read the status register: DIR TSB SBR RST LL SD PPD 1WB, from bit 7
    /// down.
    pub fn ds2482_read_status(&mut self) -> (r: Result<u8, Error>)
        ensures
            final(self).address() == old(self).address(),
            exists|p: Poll|
                final(self).bus().frames() == old(self).bus().frames() + #[trigger] register_read(
                    old(self).address(),
                    POINTER_STATUS,
                    p,
                ) && r == register_value(p),
    {
        self.read_register(POINTER_STATUS)
    }

    /// Read the data register.
    pub fn ds2482_read_data_register(&mut self) -> (r: Result<u8, Error>)
        ensures
            final(self).address() == old(self).address(),
            exists|p: Poll|
                final(self).bus().frames() == old(self).bus().frames() + #[trigger] register_read(
                    old(self).address(),
                    POINTER_DATA,
                    p,
                ) && r == register_value(p),
    {
        self.read_register(POINTER_DATA)
    }

    /// Poll the status register until the busy flag clears, sleeping between
    /// polls, and return the last status read. After the most polls allowed
    /// the status is returned even though the chip is still busy.
    fn ds2482_wait_on_busy<D: Delay>(&mut self, delay: &mut D) -> (r: Result<u8, Error>)
        ensures
            final(self).address() == old(self).address(),
            exists|w: Seq<Poll>|
                wait_polls(w) && final(self).bus().frames() == old(self).bus().frames() + frames_of(
                    #[trigger] wait_exchanges(old(self).address(), w),
                ) && final(delay).slept() == old(delay).slept() + pauses_of(
                    wait_exchanges(old(self).address(), w),
                ) && r == wait_value(w),
    {
        let ghost polls: Seq<Poll> = Seq::empty();
        let mut status: u8 = 0;
        let mut poll_count: u32 = 0;
        assert(frames_of(wait_exchanges(self.addr, polls)) =~= Seq::<Exchange>::empty());
        assert(pauses_of(wait_exchanges(self.addr, polls)) =~= Seq::<u32>::empty());
        assert(self.i2c.frames() =~= old(self).i2c.frames() + Seq::<Exchange>::empty());
        assert(delay.slept() =~= old(delay).slept() + Seq::<u32>::empty());
        while poll_count < MAX_POLLS
            invariant
                poll_count <= MAX_POLLS,
                polls.len() == poll_count,
                self.addr == old(self).addr,
                self.i2c.frames() == old(self).i2c.frames() + frames_of(
                    wait_exchanges(self.addr, polls),
                ),
                delay.slept() == old(delay).slept() + pauses_of(wait_exchanges(self.addr, polls)),
                forall|i: int| 0 <= i < polls.len() ==> is_busy(#[trigger] polls[i]),
                poll_count > 0 ==> register_value(polls.last()) == Ok::<u8, Error>(status),
            decreases MAX_POLLS - poll_count,
        {
            let ghost before = self.i2c.frames();
            let res = self.ds2482_read_status();
            let ghost p = choose|p: Poll|
                self.i2c.frames() == before + #[trigger] register_read(self.addr, POINTER_STATUS, p)
                    && res == register_value(p);
            proof {
                lemma_wait_push(self.addr, polls, p);
                polls = polls.push(p);
            }
            assert(self.i2c.frames() =~= old(self).i2c.frames() + frames_of(
                wait_exchanges(self.addr, polls),
            ));
            match res {
                Ok(s) => {
                    status = s;
                    if s & STATUS_1WB == 0 {
                        assert(delay.slept() =~= old(delay).slept() + pauses_of(
                            wait_exchanges(self.addr, polls),
                        ));
                        assert(wait_polls(polls));
                        assert(self.bus().frames() == old(self).bus().frames() + frames_of(
                            wait_exchanges(old(self).address(), polls),
                        ));
                        return Ok(s);
                    }
                    poll_count = poll_count + 1;
                    delay.delay_us(POLL_DELAY_US);
                    assert(delay.slept() =~= old(delay).slept() + pauses_of(
                        wait_exchanges(self.addr, polls),
                    ));
                },
                Err(e) => {
                    assert(delay.slept() =~= old(delay).slept() + pauses_of(
                        wait_exchanges(self.addr, polls),
                    ));
                    assert(wait_polls(polls));
                    assert(self.bus().frames() == old(self).bus().frames() + frames_of(
                        wait_exchanges(old(self).address(), polls),
                    ));
                    return Err(e);
                },
            }
        }
        assert(wait_polls(polls));
        assert(self.bus().frames() == old(self).bus().frames() + frames_of(
            wait_exchanges(old(self).address(), polls),
        ));
        Ok(status)
    }

    /// Wait until the chip is idle, then send `bytes`.
    fn issue<D: Delay>(&mut self, delay: &mut D, bytes: &[u8]) -> (r: Result<(), Error>)
        ensures
            final(self).address() == old(self).address(),
            exists|w: Seq<Poll>, ok: bool|
                wait_polls(w) && final(self).bus().frames() == old(self).bus().frames() + frames_of(
                    #[trigger] issue_exchanges(old(self).address(), w, bytes@, ok),
                ) && final(delay).slept() == old(delay).slept() + pauses_of(
                    issue_exchanges(old(self).address(), w, bytes@, ok),
                ) && r == issue_value(w, ok),
    {
        let waited = self.ds2482_wait_on_busy(delay);
        let ghost w = choose|w: Seq<Poll>|
            wait_polls(w) && self.i2c.frames() == old(self).i2c.frames() + frames_of(
                #[trigger] wait_exchanges(self.addr, w),
            ) && delay.slept() == old(delay).slept() + pauses_of(wait_exchanges(self.addr, w))
                && waited == wait_value(w);
        let ghost we = wait_exchanges(self.addr, w);
        match waited {
            Ok(_) => {
                let ghost mid = self.i2c.frames();
                let r = self.ds2482_write_bytes(bytes);
                let ghost ok = choose|ok: bool|
                    self.i2c.frames() == mid + seq![
                        Exchange::Write { addr: self.addr, bytes: bytes@, ok },
                    ] && r == #[trigger] write_value(ok);
                let ghost sent = seq![Exchange::Write { addr: self.addr, bytes: bytes@, ok }];
                proof {
                    lemma_no_pause(sent);
                    lemma_split_add(we, sent);
                }
                assert(issue_exchanges(self.addr, w, bytes@, ok) == we + sent);
                assert(self.bus().frames() =~= old(self).bus().frames() + frames_of(
                    issue_exchanges(old(self).address(), w, bytes@, ok),
                ));
                assert(delay.slept() =~= old(delay).slept() + pauses_of(
                    issue_exchanges(old(self).address(), w, bytes@, ok),
                ));
                r
            },
            Err(e) => {
                assert(issue_exchanges(self.addr, w, bytes@, false) =~= we);
                Err(e)
            },
        }
    }

    /// Issue a bus command and wait until the chip has carried it out;
    /// returns the status read then.
    fn command<D: Delay>(&mut self, delay: &mut D, bytes: &[u8]) -> (r: Result<u8, Error>)
        ensures
            final(self).address() == old(self).address(),
            exists|w1: Seq<Poll>, ok: bool, w2: Seq<Poll>|
                wait_polls(w1) && wait_polls(w2) && final(self).bus().frames() == old(
                    self,
                ).bus().frames() + frames_of(
                    #[trigger] command_exchanges(old(self).address(), w1, bytes@, ok, w2),
                ) && final(delay).slept() == old(delay).slept() + pauses_of(
                    command_exchanges(old(self).address(), w1, bytes@, ok, w2),
                ) && r == command_value(w1, ok, w2),
    {
        let issued = self.issue(delay, bytes);
        let ghost (w1, ok) = choose|w1: Seq<Poll>, ok: bool|
            wait_polls(w1) && self.i2c.frames() == old(self).i2c.frames() + frames_of(
                #[trigger] issue_exchanges(self.addr, w1, bytes@, ok),
            ) && delay.slept() == old(delay).slept() + pauses_of(
                issue_exchanges(self.addr, w1, bytes@, ok),
            ) && issued == issue_value(w1, ok);
        let ghost ie = issue_exchanges(self.addr, w1, bytes@, ok);
        let ghost idle: Seq<Poll> = seq![(false, None)];
        match issued {
            Ok(_) => {
                let ghost mid = self.i2c.frames();
                let ghost mid_slept = delay.slept();
                let r = self.ds2482_wait_on_busy(delay);
                let ghost w2 = choose|w2: Seq<Poll>|
                    wait_polls(w2) && self.i2c.frames() == mid + frames_of(
                        #[trigger] wait_exchanges(self.addr, w2),
                    ) && delay.slept() == mid_slept + pauses_of(wait_exchanges(self.addr, w2)) && r
                        == wait_value(w2);
                proof {
                    lemma_split_add(ie, wait_exchanges(self.addr, w2));
                }
                assert(command_exchanges(self.addr, w1, bytes@, ok, w2) == ie + wait_exchanges(
                    self.addr,
                    w2,
                ));
                assert(self.bus().frames() =~= old(self).bus().frames() + frames_of(
                    command_exchanges(old(self).address(), w1, bytes@, ok, w2),
                ));
                assert(delay.slept() =~= old(delay).slept() + pauses_of(
                    command_exchanges(old(self).address(), w1, bytes@, ok, w2),
                ));
                r
            },
            Err(e) => {
                assert(wait_polls(idle));
                assert(command_exchanges(self.addr, w1, bytes@, ok, idle) =~= ie);
                Err(e)
            },
        }
    }

    /// Issue a bus command, wait until the chip has carried it out, then
    /// read the register `pointer`.
    fn fetch<D: Delay>(&mut self, delay: &mut D, bytes: &[u8], pointer: u8) -> (r: Result<
        u8,
        Error,
    >)
        ensures
            final(self).address() == old(self).address(),
            exists|w1: Seq<Poll>, ok: bool, w2: Seq<Poll>, p: Poll|
                wait_polls(w1) && wait_polls(w2) && final(self).bus().frames() == old(
                    self,
                ).bus().frames() + frames_of(
                    #[trigger] fetch_exchanges(old(self).address(), w1, bytes@, ok, w2, pointer, p),
                ) && final(delay).slept() == old(delay).slept() + pauses_of(
                    fetch_exchanges(old(self).address(), w1, bytes@, ok, w2, pointer, p),
                ) && r == fetch_value(w1, ok, w2, p),
    {
        let done = self.command(delay, bytes);
        let ghost (w1, ok, w2) = choose|w1: Seq<Poll>, ok: bool, w2: Seq<Poll>|
            wait_polls(w1) && wait_polls(w2) && self.i2c.frames() == old(self).i2c.frames()
                + frames_of(#[trigger] command_exchanges(self.addr, w1, bytes@, ok, w2))
                && delay.slept() == old(delay).slept() + pauses_of(
                command_exchanges(self.addr, w1, bytes@, ok, w2),
            ) && done == command_value(w1, ok, w2);
        let ghost ce = command_exchanges(self.addr, w1, bytes@, ok, w2);
        match done {
            Ok(_) => {
                let ghost mid = self.i2c.frames();
                let r = self.read_register(pointer);
                let ghost p = choose|p: Poll|
                    self.i2c.frames() == mid + #[trigger] register_read(self.addr, pointer, p) && r
                        == register_value(p);
                let ghost rr = register_read(self.addr, pointer, p);
                proof {
                    lemma_no_pause(rr);
                    lemma_split_add(ce, rr);
                }
                assert(fetch_exchanges(self.addr, w1, bytes@, ok, w2, pointer, p) == ce + rr);
                assert(self.bus().frames() =~= old(self).bus().frames() + frames_of(
                    fetch_exchanges(old(self).address(), w1, bytes@, ok, w2, pointer, p),
                ));
                assert(delay.slept() =~= old(delay).slept() + pauses_of(
                    fetch_exchanges(old(self).address(), w1, bytes@, ok, w2, pointer, p),
                ));
                r
            },
            Err(e) => {
                assert(fetch_exchanges(self.addr, w1, bytes@, ok, w2, pointer, (false, None))
                    =~= ce);
                Err(e)
            },
        }
    }
}

/// The One-Wire bus primitives. Each waits for the chip to be idle, issues
/// its command, and waits again while the chip carries the command out on the
/// bus, before it reads any result.
impl<I2C: I2cBus> OneWireDS2482<I2C> {
    /// Reset the One-Wire bus. Returns whether any device answered with a
    /// presence pulse; a short on the bus is an error.
    pub fn reset<D: Delay>(&mut self, delay: &mut D) -> (r: Result<bool, Error>)
        ensures
            final(self).address() == old(self).address(),
            exists|w1: Seq<Poll>, ok: bool, w2: Seq<Poll>|
                wait_polls(w1) && wait_polls(w2) && final(self).bus().frames() == old(self).bus().frames()
                    + frames_of(#[trigger] command_exchanges(old(self).address(), w1, seq![COMMAND_1WRS], ok, w2)) && final(delay).slept() == old(
                    delay,
                ).slept() + pauses_of(command_exchanges(old(self).address(), w1, seq![COMMAND_1WRS], ok, w2)) && r == reset_value(command_value(w1, ok, w2)),
    {
        let cmd: [u8; 1] = [COMMAND_1WRS];
        assert(cmd@ =~= seq![COMMAND_1WRS]);
        let status = self.command(delay, &cmd);
        match status {
            Ok(s) => {
                if s & STATUS_SD != 0 {
                    Err(Error::ShortDetected)
                } else {
                    Ok(s & STATUS_PPD != 0)
                }
            },
            Err(e) => Err(e),
        }
    }

    /// Read one bit from the bus: a single-bit time slot driven high, whose
    /// outcome the status register reports.
    pub fn read_bit<D: Delay>(&mut self, delay: &mut D) -> (r: Result<bool, Error>)
        ensures
            final(self).address() == old(self).address(),
            exists|w1: Seq<Poll>, ok: bool, w2: Seq<Poll>, p: Poll|
                wait_polls(w1) && wait_polls(w2) && final(self).bus().frames() == old(self).bus().frames()
                    + frames_of(#[trigger] fetch_exchanges(old(self).address(), w1, single_bit_command(true), ok, w2, POINTER_STATUS, p)) && final(delay).slept() == old(
                    delay,
                ).slept() + pauses_of(fetch_exchanges(old(self).address(), w1, single_bit_command(true), ok, w2, POINTER_STATUS, p)) && r == bit_value(fetch_value(w1, ok, w2, p)),
    {
        let cmd: [u8; 2] = [COMMAND_1WSB, 0xFF];
        assert(cmd@ =~= single_bit_command(true));
        let status = self.fetch(delay, &cmd, POINTER_STATUS);
        match status {
            Ok(s) => Ok(s & STATUS_SBR != 0),
            Err(e) => Err(e),
        }
    }

    /// Read one byte from the bus, which the chip leaves in its data
    /// register.
    pub fn read_byte<D: Delay>(&mut self, delay: &mut D) -> (r: Result<u8, Error>)
        ensures
            final(self).address() == old(self).address(),
            exists|w1: Seq<Poll>, ok: bool, w2: Seq<Poll>, p: Poll|
                wait_polls(w1) && wait_polls(w2) && final(self).bus().frames() == old(self).bus().frames()
                    + frames_of(#[trigger] fetch_exchanges(old(self).address(), w1, seq![COMMAND_1WRB], ok, w2, POINTER_DATA, p)) && final(delay).slept() == old(
                    delay,
                ).slept() + pauses_of(fetch_exchanges(old(self).address(), w1, seq![COMMAND_1WRB], ok, w2, POINTER_DATA, p)) && r == fetch_value(w1, ok, w2, p),
    {
        let cmd: [u8; 1] = [COMMAND_1WRB];
        assert(cmd@ =~= seq![COMMAND_1WRB]);
        self.fetch(delay, &cmd, POINTER_DATA)
    }

    /// Write one bit to the bus.
    pub fn write_bit<D: Delay>(&mut self, bit: bool, delay: &mut D) -> (r: Result<(), Error>)
        ensures
            final(self).address() == old(self).address(),
            exists|w1: Seq<Poll>, ok: bool, w2: Seq<Poll>|
                wait_polls(w1) && wait_polls(w2) && final(self).bus().frames() == old(self).bus().frames()
                    + frames_of(#[trigger] command_exchanges(old(self).address(), w1, single_bit_command(bit), ok, w2)) && final(delay).slept() == old(
                    delay,
                ).slept() + pauses_of(command_exchanges(old(self).address(), w1, single_bit_command(bit), ok, w2)) && r == done_value(command_value(w1, ok, w2)),
    {
        let payload: u8 = if bit {
            0xFF
        } else {
            0x00
        };
        let cmd: [u8; 2] = [COMMAND_1WSB, payload];
        assert(cmd@ =~= single_bit_command(bit));
        match self.command(delay, &cmd) {
            Ok(_) => Ok(()),
            Err(e) => Err(e),
        }
    }

    /// Write one byte to the bus.
    pub fn write_byte<D: Delay>(&mut self, value: u8, delay: &mut D) -> (r: Result<(), Error>)
        ensures
            final(self).address() == old(self).address(),
            exists|w1: Seq<Poll>, ok: bool, w2: Seq<Poll>|
                wait_polls(w1) && wait_polls(w2) && final(self).bus().frames() == old(self).bus().frames()
                    + frames_of(#[trigger] command_exchanges(old(self).address(), w1, write_byte_command(value), ok, w2)) && final(delay).slept() == old(
                    delay,
                ).slept() + pauses_of(command_exchanges(old(self).address(), w1, write_byte_command(value), ok, w2)) && r == done_value(command_value(w1, ok, w2)),
    {
        let cmd: [u8; 2] = [COMMAND_1WWB, value];
        assert(cmd@ =~= write_byte_command(value));
        match self.command(delay, &cmd) {
            Ok(_) => Ok(()),
            Err(e) => Err(e),
        }
    }

    /// The search primitive: read a bit and its complement, and write the
    /// branch direction, in one bus operation. `dir_bit` is the direction
    /// taken when both branches have devices; the result reports the bits
    /// read and the direction the chip actually took.
    pub fn triplet<D: Delay>(&mut self, dir_bit: bool, delay: &mut D) -> (r: Result<Triplet, Error>)
        ensures
            final(self).address() == old(self).address(),
            exists|w1: Seq<Poll>, ok: bool, w2: Seq<Poll>|
                wait_polls(w1) && wait_polls(w2) && final(self).bus().frames() == old(self).bus().frames()
                    + frames_of(#[trigger] command_exchanges(old(self).address(), w1, triplet_command(dir_bit), ok, w2)) && final(delay).slept() == old(
                    delay,
                ).slept() + pauses_of(command_exchanges(old(self).address(), w1, triplet_command(dir_bit), ok, w2)) && r == triplet_value(command_value(w1, ok, w2)),
    {
        let payload: u8 = if dir_bit {
            0xFF
        } else {
            0x00
        };
        let cmd: [u8; 2] = [COMMAND_TRIPLET, payload];
        assert(cmd@ =~= triplet_command(dir_bit));
        let status = self.command(delay, &cmd);
        match status {
            Ok(s) => {
                let bit = s & STATUS_SBR != 0;
                let complement_bit = s & STATUS_TSB != 0;
                let direction = s & STATUS_DIR != 0;
                Ok(Triplet::new(bit, complement_bit, direction))
            },
            Err(e) => Err(e),
        }
    }
}

} // verus!
