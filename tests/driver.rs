use std::cell::RefCell;
use std::rc::Rc;

use one_wire_ds2482::protocol::{
    COMMAND_1WRB, COMMAND_1WRS, COMMAND_1WSB, COMMAND_1WWB, COMMAND_DRST, COMMAND_SRP,
    COMMAND_TRIPLET, COMMAND_WCFG, POINTER_DATA, POINTER_STATUS,
};
use one_wire_ds2482::{BusFault, Delay, Error, FrameLog, I2cBus, OneWireDS2482, SleepLog, Triplet};

const ADDR: u8 = 0x18;

#[derive(Debug, Clone, PartialEq)]
enum Frame {
    Write(Vec<u8>),
    Read,
    WriteRead(Vec<u8>),
}

/// A simulated bridge: fixed register contents, and a log of the frames it saw.
struct Chip {
    status: u8,
    data: u8,
    reset_status: u8,
    config_echo: Option<u8>,
    pointer: u8,
    fail: bool,
    frames: Rc<RefCell<Vec<Frame>>>,
}

impl Chip {
    fn new(status: u8) -> Chip {
        Chip {
            status,
            data: 0,
            reset_status: 0x18,
            config_echo: None,
            pointer: POINTER_STATUS,
            fail: false,
            frames: Rc::new(RefCell::new(Vec::new())),
        }
    }
}

impl I2cBus for Chip {
    // A ghost view for the verifier; this simulation keeps its own log.
    fn frames(&self) -> FrameLog {
        unreachable!()
    }

    fn write(&mut self, addr: u8, bytes: &[u8]) -> Result<(), BusFault> {
        assert_eq!(addr, ADDR);
        self.frames.borrow_mut().push(Frame::Write(bytes.to_vec()));
        if self.fail {
            return Err(BusFault);
        }
        if bytes.len() == 2 && bytes[0] == COMMAND_SRP {
            self.pointer = bytes[1];
        }
        Ok(())
    }

    fn read(&mut self, addr: u8) -> Result<u8, BusFault> {
        assert_eq!(addr, ADDR);
        self.frames.borrow_mut().push(Frame::Read);
        if self.fail {
            return Err(BusFault);
        }
        if self.pointer == POINTER_DATA {
            Ok(self.data)
        } else {
            Ok(self.status)
        }
    }

    fn write_read(&mut self, addr: u8, bytes: &[u8]) -> Result<u8, BusFault> {
        assert_eq!(addr, ADDR);
        self.frames.borrow_mut().push(Frame::WriteRead(bytes.to_vec()));
        if self.fail {
            return Err(BusFault);
        }
        if bytes[0] == COMMAND_WCFG {
            Ok(self.config_echo.unwrap_or(bytes[1] & 0x0F))
        } else {
            Ok(self.reset_status)
        }
    }
}

#[derive(Default)]
struct Sleeps(Vec<u32>);

impl Delay for Sleeps {
    fn slept(&self) -> SleepLog {
        unreachable!()
    }

    fn delay_us(&mut self, us: u32) {
        self.0.push(us);
    }
}

fn status_polls(frames: &[Frame]) -> usize {
    frames.iter().filter(|f| **f == Frame::Write(vec![COMMAND_SRP, POINTER_STATUS])).count()
}

type Log = Rc<RefCell<Vec<Frame>>>;

fn driver(chip: Chip) -> (OneWireDS2482<Chip>, Log) {
    let log = chip.frames.clone();
    (OneWireDS2482::new(chip, ADDR), log)
}

#[test]
fn write_config_reads_back_every_option_set() {
    for c in 0u8..16 {
        let (mut d, log_d) = driver(Chip::new(0));
        assert_eq!(d.ds2482_write_config(c), Ok(()));
        let frames = log_d.borrow().clone();
        let packed = c | ((!c) << 4);
        assert_eq!(packed & 0x0F, c);
        assert_eq!(packed >> 4, 15 - c);
        assert_eq!(frames, vec![Frame::WriteRead(vec![COMMAND_WCFG, packed])]);
    }
}

#[test]
fn write_config_mismatch_resets_once() {
    let mut chip = Chip::new(0);
    chip.config_echo = Some(0x03);
    let (mut d, log_d) = driver(chip);
    assert_eq!(d.ds2482_write_config(0x01), Err(Error::WriteConfigError));
    let frames = log_d.borrow().clone();
    assert_eq!(
        frames,
        vec![
            Frame::WriteRead(vec![COMMAND_WCFG, 0xE1]),
            Frame::WriteRead(vec![COMMAND_DRST]),
        ]
    );
}

#[test]
fn write_config_mismatch_ignores_failed_reset() {
    let mut chip = Chip::new(0);
    chip.config_echo = Some(0x00);
    chip.reset_status = 0x00;
    let (mut d, log_d) = driver(chip);
    assert_eq!(d.ds2482_write_config(0x01), Err(Error::WriteConfigError));
}

#[test]
fn device_reset_follows_reset_indicator() {
    let mut chip = Chip::new(0);
    chip.reset_status = 0x10;
    let (mut d, log_d) = driver(chip);
    assert_eq!(d.ds2482_device_reset(), Ok(()));
    assert_eq!(*log_d.borrow(), vec![Frame::WriteRead(vec![COMMAND_DRST])]);

    let mut chip = Chip::new(0);
    chip.reset_status = 0xEF;
    let (mut d, log_d) = driver(chip);
    assert_eq!(d.ds2482_device_reset(), Err(Error::DeviceResetError));
    assert_eq!(*log_d.borrow(), vec![Frame::WriteRead(vec![COMMAND_DRST])]);
}

#[test]
fn transport_failure_is_communication_error() {
    let mut chip = Chip::new(0);
    chip.fail = true;
    let (mut d, log_d) = driver(chip);
    let mut sleeps = Sleeps::default();
    assert_eq!(d.ds2482_device_reset(), Err(Error::I2CCommunicationError));
    assert_eq!(d.ds2482_write_config(1), Err(Error::I2CCommunicationError));
    assert_eq!(d.ds2482_read_status(), Err(Error::I2CCommunicationError));
    assert_eq!(d.ds2482_read_byte(), Err(Error::I2CCommunicationError));
    assert_eq!(d.ds2482_write_bytes(&[1, 2]), Err(Error::I2CCommunicationError));
    assert_eq!(d.reset(&mut sleeps), Err(Error::I2CCommunicationError));
    assert_eq!(d.triplet(true, &mut sleeps), Err(Error::I2CCommunicationError));
    assert!(sleeps.0.is_empty());
}

#[test]
fn reset_short_wins_over_presence() {
    for status in [0x04u8, 0x06] {
        let (mut d, log_d) = driver(Chip::new(status));
        let mut sleeps = Sleeps::default();
        assert_eq!(d.reset(&mut sleeps), Err(Error::ShortDetected));
    }
}

#[test]
fn reset_reports_presence() {
    let (mut d, log_d) = driver(Chip::new(0x02));
    let mut sleeps = Sleeps::default();
    assert_eq!(d.reset(&mut sleeps), Ok(true));
    let frames = log_d.borrow().clone();
    assert_eq!(
        frames,
        vec![
            Frame::Write(vec![COMMAND_SRP, POINTER_STATUS]),
            Frame::Read,
            Frame::Write(vec![COMMAND_1WRS]),
            Frame::Write(vec![COMMAND_SRP, POINTER_STATUS]),
            Frame::Read,
        ]
    );

    let (mut d, log_d) = driver(Chip::new(0x00));
    assert_eq!(d.reset(&mut sleeps), Ok(false));
    assert!(sleeps.0.is_empty());
}

#[test]
fn triplet_reports_status_bits_for_either_direction() {
    for status in [0x00u8, 0x20, 0x40, 0x80, 0xA0, 0xE0, 0x60] {
        let (mut a, log_a) = driver(Chip::new(status));
        let (mut b, log_b) = driver(Chip::new(status));
        let mut sleeps = Sleeps::default();
        let ta = a.triplet(true, &mut sleeps).unwrap();
        let tb = b.triplet(false, &mut sleeps).unwrap();
        assert_eq!(ta, tb);
        assert_eq!(ta, Triplet::new(status & 0x20 != 0, status & 0x40 != 0, status & 0x80 != 0));
        assert!(log_a.borrow().contains(&Frame::Write(vec![COMMAND_TRIPLET, 0xFF])));
        assert!(log_b.borrow().contains(&Frame::Write(vec![COMMAND_TRIPLET, 0x00])));
    }
}

#[test]
fn busy_chip_is_polled_a_thousand_times() {
    let (mut d, log_d) = driver(Chip::new(0x01));
    let mut sleeps = Sleeps::default();
    assert_eq!(d.write_byte(0x55, &mut sleeps), Ok(()));
    let frames = log_d.borrow().clone();
    // A thousand polls before the command and a thousand after it.
    assert_eq!(status_polls(&frames), 2000);
    assert_eq!(sleeps.0.len(), 2000);
    assert!(sleeps.0.iter().all(|us| *us == 20));
    assert_eq!(frames.len(), 4001);
    assert_eq!(frames[2000], Frame::Write(vec![COMMAND_1WWB, 0x55]));
    for i in 0..1000 {
        assert_eq!(frames[2 * i], Frame::Write(vec![COMMAND_SRP, POINTER_STATUS]));
        assert_eq!(frames[2 * i + 1], Frame::Read);
    }
}

#[test]
fn write_byte_then_read_byte() {
    let mut chip = Chip::new(0x00);
    chip.data = 0x3C;
    let (mut d, log_d) = driver(chip);
    let mut sleeps = Sleeps::default();
    assert_eq!(d.write_byte(0xA5, &mut sleeps), Ok(()));
    assert_eq!(d.read_byte(&mut sleeps), Ok(0x3C));
    let frames = log_d.borrow().clone();
    assert_eq!(
        frames,
        vec![
            Frame::Write(vec![COMMAND_SRP, POINTER_STATUS]),
            Frame::Read,
            Frame::Write(vec![COMMAND_1WWB, 0xA5]),
            Frame::Write(vec![COMMAND_SRP, POINTER_STATUS]),
            Frame::Read,
            Frame::Write(vec![COMMAND_SRP, POINTER_STATUS]),
            Frame::Read,
            Frame::Write(vec![COMMAND_1WRB]),
            Frame::Write(vec![COMMAND_SRP, POINTER_STATUS]),
            Frame::Read,
            Frame::Write(vec![COMMAND_SRP, POINTER_DATA]),
            Frame::Read,
        ]
    );
}

#[test]
fn read_and_write_bits() {
    let (mut d, log_d) = driver(Chip::new(0x20));
    let mut sleeps = Sleeps::default();
    assert_eq!(d.read_bit(&mut sleeps), Ok(true));
    assert_eq!(d.write_bit(false, &mut sleeps), Ok(()));
    assert_eq!(d.write_bit(true, &mut sleeps), Ok(()));
    let frames = log_d.borrow().clone();
    assert_eq!(frames[2], Frame::Write(vec![COMMAND_1WSB, 0xFF]));
    assert_eq!(frames[9], Frame::Write(vec![COMMAND_1WSB, 0x00]));
    assert_eq!(frames[14], Frame::Write(vec![COMMAND_1WSB, 0xFF]));
    // Each write waits for the chip again after its command.
    assert_eq!(frames.len(), 17);
    assert_eq!(frames[15], Frame::Write(vec![COMMAND_SRP, POINTER_STATUS]));
    assert_eq!(frames[16], Frame::Read);

    let (mut d, _) = driver(Chip::new(0x00));
    assert_eq!(d.read_bit(&mut sleeps), Ok(false));
}

#[test]
fn register_reads_select_their_pointer() {
    let mut chip = Chip::new(0x9A);
    chip.data = 0x77;
    let (mut d, log_d) = driver(chip);
    assert_eq!(d.ds2482_read_status(), Ok(0x9A));
    assert_eq!(d.ds2482_read_data_register(), Ok(0x77));
    assert_eq!(d.ds2482_write_bytes(&[0x01, 0x02, 0x03]), Ok(()));
    let frames = log_d.borrow().clone();
    assert_eq!(
        frames,
        vec![
            Frame::Write(vec![COMMAND_SRP, POINTER_STATUS]),
            Frame::Read,
            Frame::Write(vec![COMMAND_SRP, POINTER_DATA]),
            Frame::Read,
            Frame::Write(vec![0x01, 0x02, 0x03]),
        ]
    );
}
