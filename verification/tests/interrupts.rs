use can_driver::bus::RegisterBus;
use can_driver::nvic::Nvic;

const BASE: u32 = 0xE000_E100;

#[derive(Clone, Copy, PartialEq, Debug)]
enum Op {
    Read(u32, u32),
    Write(u32, u32),
    WriteByte(u32, u8),
}

/// Registers that all hold the same value, and a record of what was done to them.
struct Recorder {
    held: u32,
    log: Vec<Op>,
}

impl RegisterBus for Recorder {
    fn read(&mut self, addr: u32) -> u32 {
        self.log.push(Op::Read(addr, self.held));
        self.held
    }

    fn write(&mut self, addr: u32, value: u32) {
        self.log.push(Op::Write(addr, value));
    }

    fn write_byte(&mut self, addr: u32, value: u8) {
        self.log.push(Op::WriteByte(addr, value));
    }
}

fn nvic(held: u32) -> Nvic<Recorder> {
    Nvic::init(BASE, Recorder { held, log: Vec::new() })
}

#[test]
fn nvic_init_accesses_nothing() {
    assert!(nvic(0).bus().log.is_empty());
}

#[test]
fn set_interrupt_sets_the_bit_of_the_line() {
    let mut n = nvic(0x0000_0100);
    n.set_interrupt(0);
    assert_eq!(n.bus().log, vec![Op::Read(BASE, 0x100), Op::Write(BASE, 0x101)]);
    let mut n = nvic(0);
    n.set_interrupt(19);
    assert_eq!(n.bus().log, vec![Op::Read(BASE, 0), Op::Write(BASE, 0x0008_0000)]);
    let mut n = nvic(0);
    n.set_interrupt(31);
    assert_eq!(n.bus().log, vec![Op::Read(BASE, 0), Op::Write(BASE, 0x8000_0000)]);
}

#[test]
fn set_interrupt_finds_the_register_of_the_line() {
    let mut n = nvic(1);
    n.set_interrupt(32);
    assert_eq!(n.bus().log, vec![Op::Read(BASE + 4, 1), Op::Write(BASE + 4, 1)]);
    let mut n = nvic(0);
    n.set_interrupt(77);
    assert_eq!(n.bus().log, vec![Op::Read(BASE + 8, 0), Op::Write(BASE + 8, 0x2000)]);
    let mut n = nvic(0);
    n.set_interrupt(255);
    assert_eq!(n.bus().log, vec![Op::Read(BASE + 28, 0), Op::Write(BASE + 28, 0x8000_0000)]);
}

#[test]
fn set_interrupt_passes_over_a_line_without_register() {
    let mut n = nvic(0);
    n.set_interrupt(256);
    n.set_interrupt(0xFFFF_FFFF);
    assert!(n.bus().log.is_empty());
}

#[test]
fn set_priority_writes_one_byte() {
    let mut n = nvic(0);
    n.set_priority(0, 1, 2);
    assert_eq!(n.bus().log, vec![Op::WriteByte(BASE + 0x300, 0x60)]);
    let mut n = nvic(0);
    n.set_priority(19, 3, 3);
    assert_eq!(n.bus().log, vec![Op::WriteByte(BASE + 0x313, 0xF0)]);
    let mut n = nvic(0);
    n.set_priority(239, 0, 0);
    assert_eq!(n.bus().log, vec![Op::WriteByte(BASE + 0x300 + 239, 0)]);
}

#[test]
fn set_priority_takes_the_two_low_bits_of_each() {
    let mut n = nvic(0);
    n.set_priority(1, 0xFF, 0xFF);
    n.set_priority(2, 0x06, 0x05);
    n.set_priority(3, 0x04, 0x0C);
    assert_eq!(
        n.bus().log,
        vec![
            Op::WriteByte(BASE + 0x301, 0xF0),
            Op::WriteByte(BASE + 0x302, 0x90),
            Op::WriteByte(BASE + 0x303, 0x00),
        ]
    );
}

#[test]
fn set_priority_passes_over_a_line_without_register() {
    let mut n = nvic(0);
    n.set_priority(240, 1, 1);
    n.set_priority(0xFFFF_FFFF, 1, 1);
    assert!(n.bus().log.is_empty());
}
