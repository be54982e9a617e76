use std::cell::RefCell;
use std::rc::Rc;

use ov5640::regs::{
    OV5640_ADDR, OV5640_FMT_MUX_RAW_DPC, OV5640_ID, OV5640_REG_FORMAT_00,
    OV5640_REG_ISP_FORMAT_MUX_CTRL, OV5640_REG_ID,
};
use ov5640::tables::{initial_settings, resolution_settings};
use ov5640::bus::{DrivenLog, SentLog};
use ov5640::{Format, I2cBus, Ov5640, OutputLine, RawOrder, Resolution, SccbError, Yuv422Order};

#[derive(Debug, Clone, PartialEq)]
enum Op {
    Write(u8, Vec<u8>),
    Read(u8, usize),
    High(&'static str),
    Low(&'static str),
}

type Log = Rc<RefCell<Vec<Op>>>;

struct MockBus {
    log: Log,
    id: u8,
    writes: usize,
    fail_write: Option<usize>,
    fail_read: bool,
}

impl I2cBus for MockBus {
    type Error = u32;

    // A model for proofs only; nothing calls it when the tests run.
    fn sent(&self) -> SentLog<u32> {
        unreachable!()
    }

    fn write(&mut self, address: u8, bytes: &[u8]) -> Result<(), u32> {
        self.log.borrow_mut().push(Op::Write(address, bytes.to_vec()));
        let n = self.writes;
        self.writes += 1;
        if self.fail_write == Some(n) {
            Err(7)
        } else {
            Ok(())
        }
    }

    fn read(&mut self, address: u8, buffer: &mut [u8]) -> Result<(), u32> {
        self.log.borrow_mut().push(Op::Read(address, buffer.len()));
        if self.fail_read {
            return Err(9);
        }
        for b in buffer.iter_mut() {
            *b = self.id;
        }
        Ok(())
    }
}

struct MockLine {
    log: Log,
    name: &'static str,
    fail: bool,
}

impl OutputLine for MockLine {
    type Error = ();

    // A model for proofs only; nothing calls it when the tests run.
    fn driven(&self) -> DrivenLog {
        unreachable!()
    }

    fn set_low(&mut self) -> Result<(), ()> {
        self.log.borrow_mut().push(Op::Low(self.name));
        if self.fail { Err(()) } else { Ok(()) }
    }

    fn set_high(&mut self) -> Result<(), ()> {
        self.log.borrow_mut().push(Op::High(self.name));
        if self.fail { Err(()) } else { Ok(()) }
    }
}

fn driver(id: u8, fail_write: Option<usize>, fail_read: bool) -> (Ov5640<MockBus, MockLine, MockLine>, Log) {
    let log: Log = Rc::new(RefCell::new(Vec::new()));
    let bus = MockBus { log: log.clone(), id, writes: 0, fail_write, fail_read };
    let pwdn = MockLine { log: log.clone(), name: "pwdn", fail: false };
    let rst = MockLine { log: log.clone(), name: "rst", fail: false };
    (Ov5640::new(bus, pwdn, rst), log)
}

fn reg_write(reg: u16, val: u8) -> Op {
    Op::Write(OV5640_ADDR, vec![(reg >> 8) as u8, (reg & 0xff) as u8, val])
}

fn id_read() -> Vec<Op> {
    vec![
        Op::Write(OV5640_ADDR, vec![(OV5640_REG_ID >> 8) as u8, (OV5640_REG_ID & 0xff) as u8]),
        Op::Read(OV5640_ADDR, 1),
    ]
}

#[test]
fn wrong_identity_stops_before_any_write() {
    let (mut d, log) = driver(0x00, None, false);
    let r = d.init(Format::Raw(RawOrder::SBGGR8), Resolution::Vga640_480);
    assert!(matches!(r, Err(SccbError::InvalidId(0x00))));
    assert_eq!(*log.borrow(), id_read());
}

#[test]
fn failed_baseline_write_stops_the_sequence() {
    let k: usize = 3;
    // The identity read's address write is the bus's first write.
    let (mut d, log) = driver(OV5640_ID, Some(1 + k), false);
    let r = d.init(Format::Raw(RawOrder::SBGGR8), Resolution::Vga640_480);
    assert!(matches!(r, Err(SccbError::I2c(7))));
    let mut expected = id_read();
    for &(reg, val) in initial_settings().iter().take(k + 1) {
        expected.push(reg_write(reg, val));
    }
    assert_eq!(*log.borrow(), expected);
}

#[test]
fn happy_path_writes_tables_then_format() {
    let (mut d, log) = driver(OV5640_ID, None, false);
    let r = d.init(Format::Raw(RawOrder::SBGGR8), Resolution::Vga640_480);
    assert!(r.is_ok());
    let mut expected = id_read();
    for (reg, val) in initial_settings() {
        expected.push(reg_write(reg, val));
    }
    for (reg, val) in resolution_settings(&Resolution::Vga640_480) {
        expected.push(reg_write(reg, val));
    }
    expected.push(reg_write(OV5640_REG_FORMAT_00, 0x00));
    expected.push(reg_write(OV5640_REG_ISP_FORMAT_MUX_CTRL, OV5640_FMT_MUX_RAW_DPC));
    assert_eq!(*log.borrow(), expected);
    assert_eq!(expected[expected.len() - 1], Op::Write(0x3c, vec![0x50, 0x1f, 0x03]));
    assert_eq!(expected[expected.len() - 2], Op::Write(0x3c, vec![0x43, 0x00, 0x00]));
}

#[test]
fn yuv_format_registers_written_last() {
    let (mut d, log) = driver(OV5640_ID, None, false);
    assert!(d.init(Format::Yuv422(Yuv422Order::Uyvy), Resolution::Qvga320_240).is_ok());
    let ops = log.borrow();
    let n = ops.len();
    assert_eq!(ops[n - 2], Op::Write(0x3c, vec![0x43, 0x00, 0x32]));
    assert_eq!(ops[n - 1], Op::Write(0x3c, vec![0x50, 0x1f, 0x00]));
    assert_eq!(n, 2 + initial_settings().len() + 4 + 2);
}

#[test]
fn failed_identity_address_write_is_a_bus_error() {
    let (mut d, log) = driver(OV5640_ID, Some(0), false);
    let r = d.init(Format::Raw(RawOrder::SBGGR8), Resolution::Vga640_480);
    assert!(matches!(r, Err(SccbError::I2c(7))));
    assert_eq!(log.borrow().len(), 1);
}

#[test]
fn failed_identity_read_is_a_bus_error() {
    let (mut d, log) = driver(OV5640_ID, None, true);
    let r = d.init(Format::Raw(RawOrder::SBGGR8), Resolution::Vga640_480);
    assert!(matches!(r, Err(SccbError::I2c(9))));
    assert_eq!(*log.borrow(), id_read());
}

#[test]
fn failed_format_mux_write_is_the_last_operation() {
    let total = 1 + initial_settings().len() + 4 + 2;
    let (mut d, log) = driver(OV5640_ID, Some(total - 1), false);
    let r = d.init(Format::Raw(RawOrder::SBGGR8), Resolution::Vga640_480);
    assert!(matches!(r, Err(SccbError::I2c(7))));
    assert_eq!(log.borrow().len(), total + 1);
}

#[test]
fn reset_line_true_then_false() {
    let (mut d, log) = driver(0x00, None, false);
    let _ = d.init(Format::Raw(RawOrder::SBGGR8), Resolution::Vga640_480);
    let before = log.borrow().len();
    assert!(d.set_rst(true).is_ok());
    assert!(d.set_rst(false).is_ok());
    assert_eq!(log.borrow()[before..].to_vec(), vec![Op::High("rst"), Op::Low("rst")]);
}

#[test]
fn power_down_line_true_then_false() {
    let (mut d, log) = driver(OV5640_ID, None, false);
    assert!(d.set_pwdn(true).is_ok());
    assert!(d.set_pwdn(false).is_ok());
    assert_eq!(*log.borrow(), vec![Op::High("pwdn"), Op::Low("pwdn")]);
}

#[test]
fn failing_line_is_a_gpio_error() {
    let log: Log = Rc::new(RefCell::new(Vec::new()));
    let bus = MockBus { log: log.clone(), id: OV5640_ID, writes: 0, fail_write: None, fail_read: false };
    let pwdn = MockLine { log: log.clone(), name: "pwdn", fail: true };
    let rst = MockLine { log: log.clone(), name: "rst", fail: true };
    let mut d = Ov5640::new(bus, pwdn, rst);
    assert!(matches!(d.set_pwdn(true), Err(SccbError::Gpio)));
    assert!(matches!(d.set_rst(false), Err(SccbError::Gpio)));
    assert_eq!(*log.borrow(), vec![Op::High("pwdn"), Op::Low("rst")]);
}

#[test]
fn free_returns_the_resources() {
    let (d, _log) = driver(0x42, None, false);
    let (bus, pwdn, rst) = d.free();
    assert_eq!(bus.id, 0x42);
    assert_eq!(pwdn.name, "pwdn");
    assert_eq!(rst.name, "rst");
}
