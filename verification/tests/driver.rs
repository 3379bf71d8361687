use can_driver::bus::RegisterBus;
use can_driver::can::{Can, FifoReg};
use can_driver::config::CanInit;
use can_driver::frame::CanMsg;
use std::collections::HashMap;

const BASE: u32 = 0x4000_6400;

const MCR: u32 = 0x000;
const MSR: u32 = 0x004;
const TSR: u32 = 0x008;
const RF0R: u32 = 0x00C;
const RF1R: u32 = 0x010;
const ESR: u32 = 0x018;
const BTR: u32 = 0x01C;
const TI0R: u32 = 0x180;
const TI2R: u32 = 0x1A0;
const RI0R: u32 = 0x1B0;
const RI1R: u32 = 0x1C0;
const FMR: u32 = 0x200;
const FM1R: u32 = 0x204;
const FS1R: u32 = 0x20C;
const FFA1R: u32 = 0x214;
const FA1R: u32 = 0x21C;

const ALL_EMPTY: u32 = 0x1C00_0000;
const POLLS: usize = 0xFFFF;

#[derive(Clone, Copy, PartialEq, Debug)]
enum Op {
    Read(u32, u32),
    Write(u32, u32),
    WriteByte(u32, u8),
}

#[derive(Clone, Copy, PartialEq)]
enum Ack {
    /// The acknowledge bit follows the request bit at once.
    Follows,
    /// The acknowledge bit is never set.
    Never,
    /// The acknowledge bit is always set.
    Stuck,
}

/// A controller made of plain memory, with the little behaviour that the tests need.
struct Chip {
    regs: HashMap<u32, u32>,
    log: Vec<Op>,
    ack: Ack,
    echo: bool,
}

impl Chip {
    fn new() -> Chip {
        Chip { regs: HashMap::new(), log: Vec::new(), ack: Ack::Follows, echo: false }
    }

    fn with(mut self, offset: u32, value: u32) -> Chip {
        self.regs.insert(offset, value);
        self
    }

    fn acking(mut self, ack: Ack) -> Chip {
        self.ack = ack;
        self
    }

    fn echoing(mut self) -> Chip {
        self.echo = true;
        self
    }

    fn get(&self, offset: u32) -> u32 {
        *self.regs.get(&offset).unwrap_or(&0)
    }

    fn writes(&self) -> Vec<Op> {
        self.log.iter().copied().filter(|op| !matches!(op, Op::Read(..))).collect()
    }

    fn reads_of(&self, offset: u32) -> usize {
        self.log.iter().filter(|op| matches!(op, Op::Read(a, _) if *a == BASE + offset)).count()
    }
}

impl RegisterBus for Chip {
    fn read(&mut self, addr: u32) -> u32 {
        let offset = addr.wrapping_sub(BASE);
        let value = if offset == MSR {
            let inak = match self.ack {
                Ack::Follows => self.get(MCR) & 1,
                Ack::Never => 0,
                Ack::Stuck => 1,
            };
            (self.get(MSR) & !1) | inak
        } else {
            self.get(offset)
        };
        self.log.push(Op::Read(addr, value));
        value
    }

    fn write(&mut self, addr: u32, value: u32) {
        let offset = addr.wrapping_sub(BASE);
        self.log.push(Op::Write(addr, value));
        self.regs.insert(offset, value);
        if self.echo && (TI0R..=TI2R).contains(&offset) && offset % 0x10 == 0 && value & 1 != 0 {
            for k in 0..4 {
                let sent = self.get(offset + 4 * k);
                self.regs.insert(RI0R + 4 * k, sent);
            }
            self.regs.insert(RF0R, 1);
        }
        if self.echo && offset == RF0R && value & 0x20 != 0 {
            self.regs.insert(RF0R, 0);
        }
    }

    fn write_byte(&mut self, addr: u32, value: u8) {
        self.log.push(Op::WriteByte(addr, value));
    }
}

fn update(offset: u32, before: u32, after: u32) -> Vec<Op> {
    vec![Op::Read(BASE + offset, before), Op::Write(BASE + offset, after)]
}

fn frame(id: u32, ide: bool, rtr: bool, dlc: u32, data: [u8; 8]) -> CanMsg {
    let mut msg = CanMsg::init();
    msg.set_id(id, ide);
    if rtr {
        msg.set_rtr();
    }
    msg.set_dlc(dlc);
    msg.set_data(data);
    msg
}

#[test]
fn init_accesses_nothing() {
    let can = Can::init(BASE, Chip::new());
    assert!(can.bus().log.is_empty());
}

#[test]
fn open_acknowledged_at_once_returns_true() {
    let mut can = Can::init(BASE, Chip::new().with(MCR, 0x0001_0002));
    assert!(can.open(&CanInit::init()));
    let mut expected = Vec::new();
    expected.extend(update(MCR, 0x0001_0002, 0x0001_0000));
    expected.extend(update(MCR, 0x0001_0000, 0x0001_0001));
    expected.push(Op::Read(BASE + MSR, 1));
    expected.extend(update(MCR, 0x0001_0001, 0x0001_0001));
    expected.extend(update(MCR, 0x0001_0001, 0x0001_0001));
    expected.extend(update(MCR, 0x0001_0001, 0x0001_0001));
    expected.extend(update(MCR, 0x0001_0001, 0x0001_0001));
    expected.extend(update(MCR, 0x0001_0001, 0x0001_0041));
    expected.extend(update(MCR, 0x0001_0041, 0x0001_0041));
    expected.extend(update(BTR, 0, 0));
    expected.extend(update(BTR, 0, 0x000C_0000));
    expected.extend(update(BTR, 0x000C_0000, 0x001C_0000));
    expected.extend(update(BTR, 0x001C_0000, 0x001C_0000));
    expected.extend(update(MCR, 0x0001_0041, 0x0001_0040));
    expected.push(Op::Read(BASE + MSR, 0));
    assert_eq!(can.bus().log.len(), 28);
    assert_eq!(can.bus().log, expected);
}

#[test]
fn open_programs_every_flag_and_field() {
    let ci = CanInit {
        txfp: true,
        rflm: true,
        nart: true,
        awum: true,
        abom: true,
        ttcm: true,
        brp: 3,
        ts1: 5,
        ts2: 2,
        sjw: 1,
    };
    let mut can = Can::init(BASE, Chip::new());
    assert!(can.open(&ci));
    assert_eq!(can.bus().get(MCR), 0x0000_00FC);
    assert_eq!(can.bus().get(BTR), 0x0125_0003);
}

#[test]
fn open_clears_flags_that_are_off() {
    let ci = CanInit {
        txfp: false,
        rflm: false,
        nart: false,
        awum: false,
        abom: false,
        ttcm: false,
        brp: 0,
        ts1: 0,
        ts2: 0,
        sjw: 0,
    };
    let chip = Chip::new().with(MCR, 0x0001_00FE).with(BTR, 0xC3FF_03FF);
    let mut can = Can::init(BASE, chip);
    assert!(can.open(&ci));
    assert_eq!(can.bus().get(MCR), 0x0001_0000);
    assert_eq!(can.bus().get(BTR), 0xC080_0200);
}

#[test]
fn open_cuts_timing_fields_to_their_width() {
    let mut ci = CanInit::init();
    ci.brp = 0xFFFF_FFFF;
    ci.ts1 = 0x1C;
    ci.ts2 = 0x9;
    ci.sjw = 0x6;
    let mut can = Can::init(BASE, Chip::new());
    assert!(can.open(&ci));
    assert_eq!(can.bus().get(BTR), 0x021C_01FF);
}

#[test]
fn open_entry_never_acknowledged_gives_up_after_the_bound() {
    let mut can = Can::init(BASE, Chip::new().acking(Ack::Never));
    assert!(!can.open(&CanInit::init()));
    assert_eq!(can.bus().reads_of(MSR), POLLS);
    assert_eq!(can.bus().log.len(), 4 + POLLS);
    assert_eq!(can.bus().reads_of(BTR), 0);
    assert_eq!(can.bus().writes().len(), 2);
    assert_eq!(can.bus().get(MCR), 1);
}

#[test]
fn open_exit_never_acknowledged_gives_up_after_the_same_bound() {
    let mut can = Can::init(BASE, Chip::new().acking(Ack::Stuck));
    assert!(!can.open(&CanInit::init()));
    assert_eq!(can.bus().reads_of(MSR), 1 + POLLS);
    assert_eq!(can.bus().log.len(), 4 + 1 + 22 + POLLS);
    assert_eq!(can.bus().get(MCR), 0x40);
    assert_eq!(can.bus().get(BTR), 0x001C_0000);
}

#[test]
fn read_with_both_fifos_empty_writes_nothing() {
    let chip = Chip::new().with(RI0R, 0xFFFF_FFFF).with(RI1R, 0xFFFF_FFFF);
    let mut can = Can::init(BASE, chip);
    let msg = can.read();
    assert!(!msg.get_read());
    assert_eq!(msg.get_id(), 0);
    assert_eq!(msg.get_dlc(), 0);
    assert_eq!(msg.get_data(), [0u8; 8]);
    assert_eq!(can.bus().log, vec![Op::Read(BASE + RF0R, 0), Op::Read(BASE + RF1R, 0)]);
    assert!(can.bus().writes().is_empty());
}

fn two_fifos(count0: u32, count1: u32) -> Chip {
    Chip::new()
        .with(RF0R, count0)
        .with(RF1R, count1)
        .with(RI0R, 0x100 << 21)
        .with(RI0R + 4, 1)
        .with(RI1R, 0x200 << 21)
        .with(RI1R + 4, 2)
}

#[test]
fn read_selects_fifo_0_when_it_holds_more() {
    let mut can = Can::init(BASE, two_fifos(3, 1));
    let msg = can.read();
    assert!(msg.get_read());
    assert_eq!(msg.get_id(), 0x100);
    assert_eq!(can.bus().writes(), vec![Op::Write(BASE + RF0R, 0x23)]);
}

#[test]
fn read_selects_fifo_0_on_a_tie() {
    let mut can = Can::init(BASE, two_fifos(1, 1));
    let msg = can.read();
    assert!(msg.get_read());
    assert_eq!(msg.get_id(), 0x100);
    assert_eq!(can.bus().writes(), vec![Op::Write(BASE + RF0R, 0x21)]);
}

#[test]
fn read_selects_fifo_1_when_it_holds_more() {
    let mut can = Can::init(BASE, two_fifos(1, 2));
    let msg = can.read();
    assert!(msg.get_read());
    assert_eq!(msg.get_id(), 0x200);
    assert_eq!(msg.get_dlc(), 2);
    assert_eq!(can.bus().writes(), vec![Op::Write(BASE + RF1R, 0x22)]);
}

#[test]
fn read_selects_fifo_1_when_fifo_0_is_empty() {
    let mut can = Can::init(BASE, two_fifos(0, 1));
    let msg = can.read();
    assert!(msg.get_read());
    assert_eq!(msg.get_id(), 0x200);
}

#[test]
fn read_looks_at_the_count_field_only() {
    let mut can = Can::init(BASE, two_fifos(0x18, 0x10));
    let msg = can.read();
    assert!(!msg.get_read());
    assert!(can.bus().writes().is_empty());
}

#[test]
fn read_decodes_a_standard_data_frame() {
    let chip = Chip::new()
        .with(RF0R, 1)
        .with(RI0R, (0x7FF << 21) | (0x3_FFFF << 3))
        .with(RI0R + 4, 0xABCD_1208)
        .with(RI0R + 8, 0x4433_2211)
        .with(RI0R + 12, 0x8877_6655);
    let mut can = Can::init(BASE, chip);
    let msg = can.read();
    assert!(msg.get_read());
    assert!(!msg.get_ide());
    assert!(!msg.get_rtr());
    assert_eq!(msg.get_id(), 0x7FF);
    assert_eq!(msg.get_dlc(), 8);
    assert_eq!(msg.get_fmi(), 0x12);
    assert_eq!(msg.get_data(), [0x11, 0x22, 0x33, 0x44, 0x55, 0x66, 0x77, 0x88]);
    let ri = (0x7FF << 21) | (0x3_FFFF << 3);
    assert_eq!(
        can.bus().log,
        vec![
            Op::Read(BASE + RF0R, 1),
            Op::Read(BASE + RF1R, 0),
            Op::Read(BASE + RI0R, ri),
            Op::Read(BASE + RI0R, ri),
            Op::Read(BASE + RI0R, ri),
            Op::Read(BASE + RI0R + 4, 0xABCD_1208),
            Op::Read(BASE + RI0R + 4, 0xABCD_1208),
            Op::Read(BASE + RI0R + 8, 0x4433_2211),
            Op::Read(BASE + RI0R + 12, 0x8877_6655),
            Op::Read(BASE + RF0R, 1),
            Op::Write(BASE + RF0R, 0x21),
        ]
    );
}

#[test]
fn read_decodes_an_extended_remote_frame() {
    let chip = Chip::new()
        .with(RF1R, 2)
        .with(RI1R, (0x1ABC_DEF0 << 3) | 0x4 | 0x2 | 0x1)
        .with(RI1R + 4, 0x0000_FF0F);
    let mut can = Can::init(BASE, chip);
    let msg = can.read();
    assert!(msg.get_read());
    assert!(msg.get_ide());
    assert!(msg.get_rtr());
    assert_eq!(msg.get_id(), 0x1ABC_DEF0);
    assert_eq!(msg.get_dlc(), 15);
    assert_eq!(msg.get_fmi(), 0xFF);
    assert_eq!(msg.get_data(), [0u8; 8]);
}

#[test]
fn write_uses_the_first_empty_mailbox() {
    let mut can = Can::init(BASE, Chip::new().with(TSR, ALL_EMPTY));
    assert!(can.write(frame(0x123, false, false, 8, [0x11, 0x22, 0x33, 0x44, 0x55, 0x66, 0x77, 0x88])));
    let mut expected = vec![Op::Read(BASE + TSR, ALL_EMPTY)];
    expected.extend(update(TI0R, 0, 0));
    expected.extend(update(TI0R, 0, 0));
    expected.extend(update(TI0R, 0, 0x2460_0000));
    expected.extend(update(TI0R + 4, 0, 8));
    expected.push(Op::Write(BASE + TI0R + 8, 0x4433_2211));
    expected.push(Op::Write(BASE + TI0R + 12, 0x8877_6655));
    expected.extend(update(TI0R, 0x2460_0000, 0x2460_0001));
    assert_eq!(can.bus().log, expected);
}

#[test]
fn write_uses_mailbox_1_when_mailbox_0_is_busy() {
    let mut can = Can::init(BASE, Chip::new().with(TSR, 0x1800_0000));
    assert!(can.write(frame(1, false, false, 0, [0; 8])));
    assert_eq!(can.bus().reads_of(TSR), 2);
    assert_eq!(can.bus().get(TI0R + 0x10), (1 << 21) | 1);
    assert_eq!(can.bus().get(TI0R), 0);
    assert_eq!(can.bus().get(TI2R), 0);
}

#[test]
fn write_uses_mailbox_2_when_the_others_are_busy() {
    let mut can = Can::init(BASE, Chip::new().with(TSR, 0x1000_0000));
    assert!(can.write(frame(0x55, false, false, 2, [9, 8, 7, 6, 5, 4, 3, 2])));
    assert_eq!(can.bus().reads_of(TSR), 3);
    assert_eq!(can.bus().get(TI2R), (0x55 << 21) | 1);
    assert_eq!(can.bus().get(TI2R + 4), 2);
    assert_eq!(can.bus().get(TI2R + 8), 0x0607_0809);
    assert_eq!(can.bus().get(TI2R + 12), 0x0203_0405);
    for op in can.bus().writes() {
        match op {
            Op::Write(addr, _) => assert!((BASE + TI2R..BASE + TI2R + 16).contains(&addr)),
            _ => panic!("a byte write"),
        }
    }
}

#[test]
fn write_with_all_mailboxes_busy_changes_nothing() {
    let mut can = Can::init(BASE, Chip::new().with(TSR, 0x03FF_FFFF));
    assert!(!can.write(frame(0x55, false, false, 2, [9, 8, 7, 6, 5, 4, 3, 2])));
    assert_eq!(
        can.bus().log,
        vec![
            Op::Read(BASE + TSR, 0x03FF_FFFF),
            Op::Read(BASE + TSR, 0x03FF_FFFF),
            Op::Read(BASE + TSR, 0x03FF_FFFF),
        ]
    );
    assert!(can.bus().writes().is_empty());
}

#[test]
fn write_encodes_an_extended_remote_frame() {
    let chip = Chip::new().with(TSR, ALL_EMPTY).with(TI0R + 4, 0xFFFF_0100);
    let mut can = Can::init(BASE, chip);
    assert!(can.write(frame(0x1ABC_DEF0, true, true, 3, [0; 8])));
    assert_eq!(can.bus().get(TI0R), (0x1ABC_DEF0 << 3) | 0x4 | 0x2 | 0x1);
    assert_eq!(can.bus().get(TI0R + 4), 0xFFFF_0103);
}

#[test]
fn write_of_a_standard_identifier_leaves_the_extended_bits() {
    let chip = Chip::new().with(TSR, ALL_EMPTY).with(TI0R, 0xFFFF_FFFE);
    let mut can = Can::init(BASE, chip);
    assert!(can.write(frame(0, false, false, 0, [0; 8])));
    assert_eq!(can.bus().get(TI0R), 0x001F_FFF9);
}

#[test]
fn write_cuts_identifier_and_length_to_their_fields() {
    let mut can = Can::init(BASE, Chip::new().with(TSR, ALL_EMPTY));
    assert!(can.write(frame(0xFFFF_F923, false, false, 0x1F, [0; 8])));
    assert_eq!(can.bus().get(TI0R), (0x123 << 21) | 1);
    assert_eq!(can.bus().get(TI0R + 4), 0xF);
}

#[test]
fn write_sets_the_transmit_request_last() {
    let mut can = Can::init(BASE, Chip::new().with(TSR, ALL_EMPTY));
    assert!(can.write(frame(0x7, false, true, 1, [1; 8])));
    let writes = can.bus().writes();
    let last = writes.len() - 1;
    for (i, op) in writes.iter().enumerate() {
        match op {
            Op::Write(addr, value) if *addr == BASE + TI0R => assert_eq!(value & 1 != 0, i == last),
            _ => assert!(i != last),
        }
    }
}

fn round_trip(id: u32, ide: bool, rtr: bool, dlc: u32, data: [u8; 8]) {
    let chip = Chip::new()
        .with(TSR, ALL_EMPTY)
        .with(TI0R, 0xDEAD_BEEE)
        .with(TI0R + 4, 0x5A5A_005A)
        .echoing();
    let mut can = Can::init(BASE, chip);
    assert!(can.write(frame(id, ide, rtr, dlc, data)));
    assert!(can.read_pend());
    let back = can.read();
    assert!(back.get_read());
    assert_eq!(back.get_id(), id);
    assert_eq!(back.get_ide(), ide);
    assert_eq!(back.get_rtr(), rtr);
    assert_eq!(back.get_dlc(), dlc);
    assert_eq!(back.get_data(), data);
    assert!(!can.read_pend());
    assert!(!can.read().get_read());
}

#[test]
fn written_frames_are_read_back_with_every_length() {
    let data = [0x11, 0x22, 0x33, 0x44, 0x55, 0x66, 0x77, 0x88];
    for dlc in 0..=8 {
        round_trip(0x123, false, false, dlc, data);
        round_trip(0x1234_5678, true, false, dlc, data);
    }
}

#[test]
fn written_frames_are_read_back_with_either_identifier_width() {
    let data = [0xFF, 0, 0x80, 1, 0x7F, 0xFE, 0x55, 0xAA];
    for id in [0, 1, 0x400, 0x555, 0x7FF] {
        round_trip(id, false, false, 8, data);
        round_trip(id, false, true, 0, data);
    }
    for id in [0, 1, 0x7FF, 0x800, 0x1000_0000, 0x0AAA_AAAA, 0x1FFF_FFFF] {
        round_trip(id, true, false, 8, data);
        round_trip(id, true, true, 4, data);
    }
}

#[test]
fn filter_init_above_the_last_filter_does_nothing() {
    let mut can = Can::init(BASE, Chip::new());
    can.filter_init(14, true, true, true, 0xFFFF_FFFF);
    assert!(can.bus().log.is_empty());
    can.filter_init(0xFFFF_FFFF, true, true, true, 0xFFFF_FFFF);
    assert!(can.bus().log.is_empty());
}

#[test]
fn filter_init_of_the_last_filter_runs_the_whole_sequence() {
    let mut can = Can::init(BASE, Chip::new().with(FMR, 0x2A1C_0E00));
    can.filter_init(13, true, true, true, 0x1234_5678);
    let mut expected = Vec::new();
    expected.extend(update(FMR, 0x2A1C_0E00, 0x2A1C_0E01));
    expected.extend(update(FM1R, 0, 0x2000));
    expected.extend(update(FFA1R, 0, 0x2000));
    expected.extend(update(FA1R, 0, 0x2000));
    expected.push(Op::Write(BASE + 0x2A8, 0x1234_5678));
    expected.push(Op::Write(BASE + 0x2AC, 0x1234_5678));
    expected.extend(update(FMR, 0x2A1C_0E01, 0x2A1C_0E00));
    assert_eq!(can.bus().log, expected);
    assert_eq!(can.bus().get(FS1R), 0);
}

#[test]
fn filter_init_clears_the_bits_of_its_filter_only() {
    let chip =
        Chip::new().with(FM1R, 0x0FFF_FFFF).with(FFA1R, 0x0FFF_FFFF).with(FA1R, 0x0FFF_FFFF);
    let mut can = Can::init(BASE, chip);
    can.filter_init(0, false, false, false, 7);
    assert_eq!(can.bus().get(FM1R), 0x0FFF_FFFE);
    assert_eq!(can.bus().get(FFA1R), 0x0FFF_FFFE);
    assert_eq!(can.bus().get(FA1R), 0x0FFF_FFFE);
    assert_eq!(can.bus().get(0x240), 7);
    assert_eq!(can.bus().get(0x244), 7);
    assert_eq!(can.bus().get(FMR), 0);
}

#[test]
fn filter_init_puts_each_choice_in_its_register() {
    let mut can = Can::init(BASE, Chip::new());
    can.filter_init(5, true, false, true, 0);
    assert_eq!(can.bus().get(FM1R), 0x20);
    assert_eq!(can.bus().get(FFA1R), 0);
    assert_eq!(can.bus().get(FA1R), 0x20);
    let mut can = Can::init(BASE, Chip::new());
    can.filter_init(5, false, true, false, 0);
    assert_eq!(can.bus().get(FM1R), 0);
    assert_eq!(can.bus().get(FFA1R), 0x20);
    assert_eq!(can.bus().get(FA1R), 0);
    assert_eq!(can.bus().get(0x240 + 5 * 8), 0);
}

#[test]
fn fifo_release_sets_the_release_bit() {
    let mut can = Can::init(BASE, Chip::new().with(RF0R, 3).with(RF1R, 1));
    can.fifo_release(FifoReg::Fifo0);
    assert_eq!(can.bus().log, update(RF0R, 3, 0x23));
    let mut can = Can::init(BASE, Chip::new().with(RF0R, 3).with(RF1R, 1));
    can.fifo_release(FifoReg::Fifo1);
    assert_eq!(can.bus().log, update(RF1R, 1, 0x21));
}

#[test]
fn read_pend_asks_fifo_1_only_if_fifo_0_is_empty() {
    let mut can = Can::init(BASE, Chip::new().with(RF0R, 2).with(RF1R, 1));
    assert!(can.read_pend());
    assert_eq!(can.bus().log, vec![Op::Read(BASE + RF0R, 2)]);
    let mut can = Can::init(BASE, Chip::new().with(RF1R, 1));
    assert!(can.read_pend());
    assert_eq!(can.bus().log, vec![Op::Read(BASE + RF0R, 0), Op::Read(BASE + RF1R, 1)]);
    let mut can = Can::init(BASE, Chip::new().with(RF0R, 0x38).with(RF1R, 0x38));
    assert!(!can.read_pend());
    assert_eq!(can.bus().log.len(), 2);
}

#[test]
fn write_free_stops_at_the_first_empty_mailbox() {
    for (tsr, free, reads) in [
        (ALL_EMPTY, true, 1),
        (0x0400_0000, true, 1),
        (0x0800_0000, true, 2),
        (0x1000_0000, true, 3),
        (0x0000_0000, false, 3),
        (0xE3FF_FFFF, false, 3),
    ] {
        let mut can = Can::init(BASE, Chip::new().with(TSR, tsr));
        assert_eq!(can.write_free(), free);
        assert_eq!(can.bus().log.len(), reads);
        assert!(can.bus().writes().is_empty());
    }
}

#[test]
fn status_registers_are_returned_whole() {
    let mut can = Can::init(BASE, Chip::new().with(ESR, 0x1234_5678).with(MSR, 0x0000_0C02));
    assert_eq!(can.read_esr(), 0x1234_5678);
    assert_eq!(can.read_msr(), 0x0000_0C02);
    assert_eq!(
        can.bus().log,
        vec![Op::Read(BASE + ESR, 0x1234_5678), Op::Read(BASE + MSR, 0x0000_0C02)]
    );
}

#[test]
fn registers_are_addressed_from_the_base() {
    struct Probe {
        seen: Vec<u32>,
    }
    impl RegisterBus for Probe {
        fn read(&mut self, addr: u32) -> u32 {
            self.seen.push(addr);
            0
        }

        fn write(&mut self, _addr: u32, _value: u32) {
        }

        fn write_byte(&mut self, _addr: u32, _value: u8) {
        }
    }
    let mut can = Can::init(0, Probe { seen: Vec::new() });
    can.read_esr();
    let mut top = Can::init(0xFFFF_FD53, Probe { seen: Vec::new() });
    top.read_msr();
    assert_eq!(can.bus().seen, vec![0x18]);
    assert_eq!(top.bus().seen, vec![0xFFFF_FD57]);
}
