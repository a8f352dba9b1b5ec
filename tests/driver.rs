use std::cell::RefCell;
use std::rc::Rc;

use xl9555::driver::{combine_ports, port_index, port_mask, read_pins, write_pins};
use xl9555::config::{P00, P01, P02, P03, P04, P05, P06, P07, P10, P11, P12, P13, P14, P15, P16, P17};
use xl9555::{I2cBus, Pin, XL9555};

#[derive(Debug, Clone, PartialEq)]
enum Op {
    WriteRead(u8, Vec<u8>),
    Write(u8, Vec<u8>),
}

#[derive(Default)]
struct Chip {
    regs: [u8; 8],
    loopback: bool,
    fail_reads: bool,
    fail_writes: bool,
    ops: Vec<Op>,
}

#[derive(Debug, PartialEq)]
struct BusFault;

#[derive(Clone)]
struct MockBus(Rc<RefCell<Chip>>);

impl I2cBus for MockBus {
    type Error = BusFault;

    fn write_read(&mut self, address: u8, write: &[u8], read: &mut [u8; 2]) -> Result<(), BusFault> {
        let mut chip = self.0.borrow_mut();
        chip.ops.push(Op::WriteRead(address, write.to_vec()));
        if chip.fail_reads {
            return Err(BusFault);
        }
        let mut reg = write[0] as usize;
        if chip.loopback && reg == 0 {
            reg = 2;
        }
        read[0] = chip.regs[reg];
        read[1] = chip.regs[reg + 1];
        Ok(())
    }

    fn write(&mut self, address: u8, write: &[u8]) -> Result<(), BusFault> {
        let mut chip = self.0.borrow_mut();
        chip.ops.push(Op::Write(address, write.to_vec()));
        if chip.fail_writes {
            return Err(BusFault);
        }
        let reg = write[0] as usize;
        chip.regs[reg] = write[1];
        chip.regs[reg + 1] = write[2];
        Ok(())
    }
}

const ALL_PINS: [Pin; 16] = [
    Pin { bits: P00 }, Pin { bits: P01 }, Pin { bits: P02 }, Pin { bits: P03 }, Pin { bits: P04 }, Pin { bits: P05 }, Pin { bits: P06 }, Pin { bits: P07 },
    Pin { bits: P10 }, Pin { bits: P11 }, Pin { bits: P12 }, Pin { bits: P13 }, Pin { bits: P14 }, Pin { bits: P15 }, Pin { bits: P16 }, Pin { bits: P17 },
];

fn chip() -> Rc<RefCell<Chip>> {
    Rc::new(RefCell::new(Chip::default()))
}

fn driver(chip: &Rc<RefCell<Chip>>) -> XL9555<MockBus> {
    let d = XL9555::init(MockBus(chip.clone()), (false, false, false)).unwrap();
    chip.borrow_mut().ops.clear();
    d
}

#[test]
fn pin_bits_are_distinct_single_bits() {
    for (i, p) in ALL_PINS.iter().enumerate() {
        assert_eq!(p.bits(), 1u16 << i);
    }
    assert_eq!(Pin { bits: P07 }.bits(), 0x0080);
    assert_eq!(Pin { bits: P10 }.bits(), 0x0100);
    assert_eq!(Pin { bits: P17 }.bits(), 0x8000);
}

#[test]
fn init_reads_input_pair_at_derived_address() {
    let c = chip();
    let _d = XL9555::init(MockBus(c.clone()), (true, false, true)).unwrap();
    assert_eq!(c.borrow().ops, vec![Op::WriteRead(0x23, vec![0])]);
}

#[test]
fn init_address_from_each_input() {
    for (pins, addr) in [
        ((false, false, false), 0x20u8),
        ((false, false, true), 0x21),
        ((true, false, false), 0x22),
        ((false, true, false), 0x24),
        ((true, true, true), 0x27),
    ] {
        let c = chip();
        let _d = XL9555::init(MockBus(c.clone()), pins).unwrap();
        assert_eq!(c.borrow().ops, vec![Op::WriteRead(addr, vec![0])]);
    }
}

#[test]
fn init_fails_when_presence_read_fails() {
    let c = chip();
    c.borrow_mut().fail_reads = true;
    let r = XL9555::init(MockBus(c.clone()), (false, false, false));
    assert!(matches!(r, Err(BusFault)));
    assert_eq!(c.borrow().ops.len(), 1);
}

#[test]
fn ioconfig_writes_config_pair_without_read() {
    for value in [0x0000u16, 0xFFFF, 0x1234, 0x00FF, 0xFF00, 0x8001] {
        let c = chip();
        let mut d = driver(&c);
        d.xl9555_ioconfig(value).unwrap();
        assert_eq!(
            c.borrow().ops,
            vec![Op::Write(0x20, vec![0x06, (value & 0xFF) as u8, (value >> 8) as u8])]
        );
    }
}

#[test]
fn ioconfig_reports_bus_error() {
    let c = chip();
    let mut d = driver(&c);
    c.borrow_mut().fail_writes = true;
    assert_eq!(d.xl9555_ioconfig(0xFFFF), Err(BusFault));
}

#[test]
fn set_then_read_each_pin() {
    for (i, p) in ALL_PINS.iter().enumerate() {
        let c = chip();
        c.borrow_mut().loopback = true;
        c.borrow_mut().regs[2] = 0b0101_0101;
        c.borrow_mut().regs[3] = 0b1010_1010;
        let mut d = driver(&c);
        d.set_value(*p, true).unwrap();
        assert_eq!(d.read_value(*p), Ok(true));
        let (lo, hi) = (c.borrow().regs[2], c.borrow().regs[3]);
        let expected = 0b1010_1010_0101_0101u16 | (1u16 << i);
        assert_eq!(((hi as u16) << 8) | lo as u16, expected);
        d.set_value(*p, false).unwrap();
        assert_eq!(d.read_value(*p), Ok(false));
        let (lo, hi) = (c.borrow().regs[2], c.borrow().regs[3]);
        let expected = 0b1010_1010_0101_0101u16 & !(1u16 << i);
        assert_eq!(((hi as u16) << 8) | lo as u16, expected);
    }
}

#[test]
fn set_value_reads_then_writes_output_pair() {
    let c = chip();
    c.borrow_mut().regs[2] = 0x0F;
    c.borrow_mut().regs[3] = 0xF0;
    let mut d = driver(&c);
    d.set_value(Pin { bits: P13 }, true).unwrap();
    assert_eq!(
        c.borrow().ops,
        vec![Op::WriteRead(0x20, vec![0x02]), Op::Write(0x20, vec![0x02, 0x0F, 0xF8])]
    );
}

#[test]
fn set_value_skips_write_when_read_fails() {
    let c = chip();
    let mut d = driver(&c);
    c.borrow_mut().fail_reads = true;
    assert_eq!(d.set_value(Pin { bits: P00 }, true), Err(BusFault));
    assert_eq!(c.borrow().ops, vec![Op::WriteRead(0x20, vec![0x02])]);
    assert_eq!(c.borrow().regs[2], 0);
}

#[test]
fn set_value_reports_write_error() {
    let c = chip();
    let mut d = driver(&c);
    c.borrow_mut().fail_writes = true;
    assert_eq!(d.set_value(Pin { bits: P00 }, true), Err(BusFault));
    assert_eq!(c.borrow().ops.len(), 2);
}

#[test]
fn byte_selection_threshold() {
    let c = chip();
    let mut d = driver(&c);
    d.set_value(Pin { bits: P07 }, true).unwrap();
    assert_eq!((c.borrow().regs[2], c.borrow().regs[3]), (0x80, 0x00));
    d.set_value(Pin { bits: P10 }, true).unwrap();
    assert_eq!((c.borrow().regs[2], c.borrow().regs[3]), (0x80, 0x01));

    c.borrow_mut().regs[0] = 0x80;
    c.borrow_mut().regs[1] = 0x00;
    assert_eq!(d.read_value(Pin { bits: P07 }), Ok(true));
    assert_eq!(d.read_value(Pin { bits: P10 }), Ok(false));
    c.borrow_mut().regs[0] = 0x00;
    c.borrow_mut().regs[1] = 0x01;
    assert_eq!(d.read_value(Pin { bits: P07 }), Ok(false));
    assert_eq!(d.read_value(Pin { bits: P10 }), Ok(true));

    assert_eq!(port_index(0x0080), 0);
    assert_eq!(port_index(0x0100), 1);
}

#[test]
fn read_value_reads_input_pair() {
    let c = chip();
    let mut d = driver(&c);
    c.borrow_mut().regs[0] = 0b0000_0100;
    c.borrow_mut().regs[1] = 0b1000_0000;
    assert_eq!(d.read_value(Pin { bits: P02 }), Ok(true));
    assert_eq!(d.read_value(Pin { bits: P03 }), Ok(false));
    assert_eq!(d.read_value(Pin { bits: P17 }), Ok(true));
    assert_eq!(d.read_value(Pin { bits: P16 }), Ok(false));
    assert!(c.borrow().ops.iter().all(|o| *o == Op::WriteRead(0x20, vec![0])));
    c.borrow_mut().fail_reads = true;
    assert_eq!(d.read_value(Pin { bits: P02 }), Err(BusFault));
}

#[test]
fn read_all_value_combines_ports() {
    let c = chip();
    let mut d = driver(&c);
    c.borrow_mut().regs[0] = 0x34;
    c.borrow_mut().regs[1] = 0x12;
    assert_eq!(d.read_all_value(), Ok(0x1234));
    c.borrow_mut().regs[0] = 0xFF;
    c.borrow_mut().regs[1] = 0x00;
    assert_eq!(d.read_all_value(), Ok(0x00FF));
    c.borrow_mut().fail_reads = true;
    assert_eq!(d.read_all_value(), Err(BusFault));
}

#[test]
fn configure_all_inputs_then_read_all() {
    let c = chip();
    let mut d = XL9555::init(MockBus(c.clone()), (false, false, false)).unwrap();
    assert_eq!(c.borrow().ops, vec![Op::WriteRead(0x20, vec![0])]);
    d.xl9555_ioconfig(0xFFFF).unwrap();
    assert_eq!(c.borrow().regs[6], 0xFF);
    assert_eq!(c.borrow().regs[7], 0xFF);
    c.borrow_mut().regs[0] = 0b1011_0000;
    c.borrow_mut().regs[1] = 0b0000_0001;
    // Port 1 holds 0x01 and port 0 holds 0xB0.
    assert_eq!(d.read_all_value(), Ok(0x01B0));
}

#[test]
fn register_pair_arithmetic() {
    assert_eq!(port_mask(0x0004), 0x04);
    assert_eq!(port_mask(0x0400), 0x04);
    assert_eq!(write_pins([0x00, 0xFF], 0x0001, true), [0x01, 0xFF]);
    assert_eq!(write_pins([0xFF, 0xFF], 0x0200, false), [0xFF, 0xFD]);
    assert_eq!(write_pins([0xAA, 0x55], 0x0080, true), [0xAA, 0x55]);
    assert!(read_pins([0x00, 0x02], 0x0200));
    assert!(!read_pins([0x02, 0x00], 0x0200));
    assert_eq!(combine_ports([0b1011_0000, 0b0000_0001]), 0x01B0);
    assert_eq!(combine_ports([0b0011_0000, 0b0000_0001]), 0x0130);
    assert_eq!(combine_ports([0xFF, 0xFF]), 0xFFFF);
}

#[test]
fn mixed_mask_follows_threshold() {
    // 0x0081 exceeds the threshold, so only byte 1 is touched, with (0x0081 >> 8) == 0.
    assert_eq!(port_index(0x0081), 1);
    assert_eq!(write_pins([0x00, 0x00], 0x0081, true), [0x00, 0x00]);
    assert_eq!(write_pins([0x00, 0x00], 0x0101, true), [0x00, 0x01]);
    assert_eq!(write_pins([0x00, 0x00], 0x0041, true), [0x41, 0x00]);
}

#[test]
fn combined_mask_follows_threshold() {
    let c = chip();
    let mut d = driver(&c);
    let both = Pin { bits: P00 } | Pin { bits: P10 };
    assert_eq!(both.bits(), 0x0101);
    assert_eq!(Pin { bits: P00 }.union(Pin { bits: P10 }), both);
    d.set_value(both, true).unwrap();
    assert_eq!(
        c.borrow().ops,
        vec![Op::WriteRead(0x20, vec![0x02]), Op::Write(0x20, vec![0x02, 0x00, 0x01])]
    );
    let low = Pin { bits: P00 } | Pin { bits: P03 };
    d.set_value(low, true).unwrap();
    assert_eq!((c.borrow().regs[2], c.borrow().regs[3]), (0x09, 0x01));
    assert_eq!(Pin::from_bits_retain(0x0101), both);
}

#[test]
fn named_pins_cover_all_bits() {
    let all = [P00, P01, P02, P03, P04, P05, P06, P07, P10, P11, P12, P13, P14, P15, P16, P17];
    let mut acc = 0u16;
    for m in all {
        assert_eq!(m.count_ones(), 1);
        assert_eq!(acc & m, 0);
        acc |= m;
    }
    assert_eq!(acc, 0xFFFF);
}
