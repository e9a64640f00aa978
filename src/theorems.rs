use vstd::prelude::*;

use crate::bus::Exchange;
use crate::driver::{triplet_value, Triplet};
use crate::error::Error;
use crate::protocol::{
    config_byte, device_reset_exchanges, device_reset_value, has_bit, is_busy, poll_exchanges,
    reset_value, triplet_command, wait_exchanges, wait_polls, wait_value, write_config_exchanges,
    write_config_value, COMMAND_SRP, COMMAND_TRIPLET, COMMAND_WCFG, MAX_POLLS, POINTER_STATUS,
    POLL_DELAY_US, Poll, STATUS_1WB, STATUS_DIR, STATUS_PPD, STATUS_RST, STATUS_SBR, STATUS_SD,
    STATUS_TSB,
};

verus! {

/// A configuration of four bits is sent with the options in the low nibble
/// and their complement in the high nibble. A read-back equal to the options
/// is a success after the one exchange; any other byte read back fails with
/// `WriteConfigError`, after exactly one device reset.
pub proof fn config_read_back(addr: u8, config: u8, got: Option<u8>, reset_got: Option<u8>)
    requires
        config < 16,
    ensures
        config_byte(config) & 0x0F == config,
        config_byte(config) >> 4u8 == 15 - config,
        write_config_value(config, Some(config)) == Ok::<(), Error>(()),
        write_config_exchanges(addr, config, Some(config), reset_got) == seq![
            Exchange::WriteRead { addr, bytes: seq![COMMAND_WCFG, config_byte(config)], got: Some(config) },
        ],
        got is Some && got != Some(config) ==> write_config_value(config, got) == Err::<(), Error>(
            Error::WriteConfigError,
        ) && write_config_exchanges(addr, config, got, reset_got) == seq![
            Exchange::WriteRead { addr, bytes: seq![COMMAND_WCFG, config_byte(config)], got },
        ] + device_reset_exchanges(addr, reset_got),
{
    assert((config | ((!config) << 4u8)) & 0x0F == config) by (bit_vector)
        requires
            config < 16,
    ;
    assert((config | ((!config) << 4u8)) >> 4u8 == 15 - config) by (bit_vector)
        requires
            config < 16,
    ;
}

/// A device reset succeeds exactly when the status byte read back has the
/// reset indicator set; otherwise it fails with `DeviceResetError`. Either
/// way the chip sees one exchange and nothing more.
pub proof fn device_reset_indicator(addr: u8, status: u8)
    ensures
        device_reset_value(Some(status)) is Ok <==> has_bit(status, STATUS_RST),
        !has_bit(status, STATUS_RST) ==> device_reset_value(Some(status)) == Err::<(), Error>(
            Error::DeviceResetError,
        ),
        device_reset_exchanges(addr, Some(status)).len() == 1,
{
}

/// A short on the bus is reported whatever the presence bit says; without a
/// short, the reset reports exactly the presence bit.
pub proof fn reset_short_and_presence(status: u8)
    ensures
        has_bit(status, STATUS_SD) ==> reset_value(Ok(status)) == Err::<bool, Error>(
            Error::ShortDetected,
        ),
        reset_value(Ok(status)) == Ok::<bool, Error>(true) <==> has_bit(status, STATUS_PPD)
            && !has_bit(status, STATUS_SD),
        reset_value(Ok(status)) == Ok::<bool, Error>(false) <==> !has_bit(status, STATUS_PPD)
            && !has_bit(status, STATUS_SD),
{
}

/// The requested direction changes only the payload byte sent. The triplet
/// reported depends on the final status alone, so both directions report the
/// same triplet on the same status: the bit, its complement and the direction
/// the chip took, read as they stand.
pub proof fn triplet_reads_status(status: u8)
    ensures
        triplet_command(true) == seq![COMMAND_TRIPLET, 0xFFu8],
        triplet_command(false) == seq![COMMAND_TRIPLET, 0x00u8],
        triplet_value(Ok(status)) == Ok::<Triplet, Error>(
            Triplet {
                bit: has_bit(status, STATUS_SBR),
                complement_bit: has_bit(status, STATUS_TSB),
                direction: has_bit(status, STATUS_DIR),
            },
        ),
{
}

proof fn busy_wait_shape(addr: u8, polls: Seq<Poll>)
    requires
        forall|i: int| 0 <= i < polls.len() ==> is_busy(#[trigger] polls[i]),
    ensures
        wait_exchanges(addr, polls).len() == 3 * polls.len(),
        forall|i: int|
            0 <= i < polls.len() ==> {
                &&& wait_exchanges(addr, polls)[3 * i] == Exchange::Write {
                    addr,
                    bytes: seq![COMMAND_SRP, POINTER_STATUS],
                    ok: true,
                }
                &&& wait_exchanges(addr, polls)[3 * i + 1] == Exchange::Read {
                    addr,
                    got: (#[trigger] polls[i]).1,
                }
                &&& wait_exchanges(addr, polls)[3 * i + 2] == Exchange::Pause { us: POLL_DELAY_US }
            },
    decreases polls.len(),
{
    if polls.len() > 0 {
        let n = polls.len() - 1;
        let rest = polls.drop_last();
        assert forall|i: int| 0 <= i < rest.len() implies is_busy(#[trigger] rest[i]) by {
            assert(rest[i] == polls[i]);
        }
        busy_wait_shape(addr, rest);
        let last = polls.last();
        assert(is_busy(polls[n]));
        let a = wait_exchanges(addr, rest);
        let b = poll_exchanges(addr, last);
        assert(b =~= seq![
            Exchange::Write { addr, bytes: seq![COMMAND_SRP, POINTER_STATUS], ok: true },
            Exchange::Read { addr, got: last.1 },
            Exchange::Pause { us: POLL_DELAY_US },
        ]);
        assert(wait_exchanges(addr, polls) == a + b);
        assert forall|i: int| 0 <= i < polls.len() implies {
            &&& wait_exchanges(addr, polls)[3 * i] == Exchange::Write {
                addr,
                bytes: seq![COMMAND_SRP, POINTER_STATUS],
                ok: true,
            }
            &&& wait_exchanges(addr, polls)[3 * i + 1] == Exchange::Read {
                addr,
                got: (#[trigger] polls[i]).1,
            }
            &&& wait_exchanges(addr, polls)[3 * i + 2] == Exchange::Pause { us: POLL_DELAY_US }
        } by {
            if i < n {
                assert(rest[i] == polls[i]);
            }
        }
    }
}

/// A chip that stays busy is polled exactly the most times allowed, and the
/// wait then hands back the last status, not an error. Each poll is a write
/// selecting the status register and a read of it, followed by a sleep
/// before the next poll.
pub proof fn busy_wait_bound(addr: u8, polls: Seq<Poll>)
    requires
        wait_polls(polls),
        forall|i: int| 0 <= i < polls.len() ==> is_busy(#[trigger] polls[i]),
    ensures
        polls.len() == MAX_POLLS,
        wait_value(polls) is Ok,
        has_bit(wait_value(polls)->Ok_0, STATUS_1WB),
        wait_exchanges(addr, polls).len() == 3 * MAX_POLLS,
        forall|i: int|
            0 <= i < MAX_POLLS ==> {
                &&& wait_exchanges(addr, polls)[3 * i] == Exchange::Write {
                    addr,
                    bytes: seq![COMMAND_SRP, POINTER_STATUS],
                    ok: true,
                }
                &&& wait_exchanges(addr, polls)[3 * i + 1] == Exchange::Read {
                    addr,
                    got: (#[trigger] polls[i]).1,
                }
                &&& wait_exchanges(addr, polls)[3 * i + 2] == Exchange::Pause { us: POLL_DELAY_US }
            },
{
    assert(is_busy(polls[polls.len() - 1]));
    busy_wait_shape(addr, polls);
}

} // verus!
