//! What each operation of the CAN driver does to the registers: for every operation, the
//! exact sequence of accesses it makes, given the values that its reads return.

use vstd::prelude::*;
use crate::bus::{Access, clears_bit, is_read, is_wait, no_writes, seen, sets_bit, update};
use crate::can::FifoReg;
use crate::common::{bit_is_set, field_of, with_bit, with_bit_clear, with_bit_set, with_field};
use crate::config::CanInit;
use crate::frame::{Frame, bytes_of, word_of};
use crate::layout::{ABOM_BIT, AWUM_BIT, BRP_MASK, BRP_OFFSET, BTR, DLC_MASK, DLC_OFFSET};
use crate::layout::{EXID_MASK, EXID_OFFSET, FA1R, FFA1R, FINIT, FM1R, FMI_MASK, FMI_OFFSET};
use crate::layout::{FMP_MASK, FMP_OFFSET, FMR, FRB, FR_BASE, FXR1, FXR2, IDE_BIT, INAK_BIT};
use crate::layout::{INRQ_BIT, LAST_FILTER, MCR, MSR, NART_BIT, RDH0R, RDH1R, RDL0R, RDL1R};
use crate::layout::{RDT0R, RDT1R, RF0R, RF1R, RFLM_BIT, RFOM_BIT, RI0R, RI1R, RTR_BIT};
use crate::layout::{SJW_MASK, SJW_OFFSET, SLRQ_BIT, STID_MASK, STID_OFFSET, TDH0R, TDH1R};
use crate::layout::{TDH2R, TDL0R, TDL1R, TDL2R, TDT0R, TDT1R, TDT2R, TI0R, TI1R, TI2R, TIMEOUT};
use crate::layout::{TME0_BIT, TME1_BIT, TME2_BIT, TS1_MASK, TS1_OFFSET, TS2_MASK, TS2_OFFSET};
use crate::layout::{TSR, TTCM_BIT, TXFP_BIT, TXRQ_BIT, reg};

verus! {

/// The number of messages pending in a receive FIFO whose status register shows `status`.
pub open spec fn pending(status: u32) -> u32 {
    field_of(status, FMP_OFFSET, FMP_MASK)
}

/// The address of the status register of `fifo`.
pub open spec fn fifo_status(base: u32, fifo: FifoReg) -> u32 {
    match fifo {
        FifoReg::Fifo0 => reg(base, RF0R),
        FifoReg::Fifo1 => reg(base, RF1R),
    }
}

/// `t` reads the register at `offset` and `value` is what the read returned.
pub open spec fn reads_register(base: u32, offset: u32, t: Seq<Access>, value: u32) -> bool {
    is_read(t, reg(base, offset)) && value == seen(t, 0)
}

/// `t` asks the status of FIFO 0 and, only if that shows nothing pending, the status of
/// FIFO 1; `found` tells whether the last status read shows a pending message.
pub open spec fn polls_pending(base: u32, t: Seq<Access>, found: bool) -> bool {
    &&& no_writes(t)
    &&& t.len() >= 1
    &&& t[0] is Read
    &&& t[0].addr() == reg(base, RF0R)
    &&& if pending(seen(t, 0)) > 0 {
        t.len() == 1 && found
    } else {
        &&& t.len() == 2
        &&& t[1] is Read
        &&& t[1].addr() == reg(base, RF1R)
        &&& found == (pending(seen(t, 1)) > 0)
    }
}

/// `t` releases the output mailbox of `fifo`: it sets the release bit of its status register.
pub open spec fn releases(base: u32, fifo: FifoReg, t: Seq<Access>) -> bool {
    sets_bit(t, fifo_status(base, fifo), RFOM_BIT)
}

/// The bit of the transmit status register that tells that mailbox `n` is empty.
pub open spec fn empty_bit(n: int) -> u32 {
    if n == 0 {
        TME0_BIT
    } else if n == 1 {
        TME1_BIT
    } else {
        TME2_BIT
    }
}

/// The transmit mailbox that the scan at the start of `t` finds empty: the scan reads the
/// transmit status once for each mailbox it asks about, in the order 0, 1, 2, and stops
/// at the first that the status shows empty.
pub open spec fn free_mailbox(t: Seq<Access>) -> Option<int> {
    if bit_is_set(seen(t, 0), empty_bit(0)) {
        Some(0int)
    } else if bit_is_set(seen(t, 1), empty_bit(1)) {
        Some(1int)
    } else if bit_is_set(seen(t, 2), empty_bit(2)) {
        Some(2int)
    } else {
        None
    }
}

/// The number of status reads that the scan at the start of `t` makes.
pub open spec fn scan_len(t: Seq<Access>) -> int {
    match free_mailbox(t) {
        Some(n) => n + 1,
        None => 3,
    }
}

/// `t` starts with a scan of the transmit mailboxes.
pub open spec fn starts_with_scan(base: u32, t: Seq<Access>) -> bool {
    &&& t.len() >= scan_len(t)
    &&& forall|i: int|
        0 <= i < scan_len(t) ==> (#[trigger] t[i]) is Read && t[i].addr() == reg(base, TSR)
}

/// `t` is a scan of the transmit mailboxes and nothing else; `free` tells whether it found
/// an empty one.
pub open spec fn probes_mailboxes(base: u32, t: Seq<Access>, free: bool) -> bool {
    &&& starts_with_scan(base, t)
    &&& t.len() == scan_len(t)
    &&& free == (free_mailbox(t) is Some)
}

/// `t` programs the four bit-timing fields of `ci`, each with an update of its own: the
/// prescaler, time segment 1, time segment 2, the resynchronization jump width.
pub open spec fn programs_timing(base: u32, ci: CanInit, t: Seq<Access>) -> bool {
    let btr = reg(base, BTR);
    t == update(btr, seen(t, 0), with_field(seen(t, 0), BRP_OFFSET, BRP_MASK, ci.brp)) + update(
        btr,
        seen(t, 2),
        with_field(seen(t, 2), TS1_OFFSET, TS1_MASK, ci.ts1),
    ) + update(btr, seen(t, 4), with_field(seen(t, 4), TS2_OFFSET, TS2_MASK, ci.ts2)) + update(
        btr,
        seen(t, 6),
        with_field(seen(t, 6), SJW_OFFSET, SJW_MASK, ci.sjw),
    )
}

/// The bit that stands for filter `filter` in the registers that hold one bit per filter.
pub open spec fn filter_bit(filter: u32) -> u32 {
    1u32 << filter
}

/// The address of the first match register of filter `filter`.
pub open spec fn filter_match_1(base: u32, filter: u32) -> u32 {
    (base + FRB + filter * FR_BASE + FXR1) as u32
}

/// The address of the second match register of filter `filter`.
pub open spec fn filter_match_2(base: u32, filter: u32) -> u32 {
    (base + FRB + filter * FR_BASE + FXR2) as u32
}

/// The accesses that program filter `filter`, given the values that the reads of `t`
/// returned: filter initialization mode is entered, which stops the matching of all
/// filters; the bit of the filter is put to `list` in the mode register, to `fifo` in the
/// FIFO assignment register and to `active` in the activation register; `mask` is
/// written to both match registers of the filter; filter initialization mode is left.
pub open spec fn filter_script(
    base: u32,
    filter: u32,
    list: bool,
    fifo: bool,
    active: bool,
    mask: u32,
    t: Seq<Access>,
) -> Seq<Access> {
    let bit = filter_bit(filter);
    update(reg(base, FMR), seen(t, 0), with_bit_set(seen(t, 0), FINIT)) + update(
        reg(base, FM1R),
        seen(t, 2),
        with_bit(seen(t, 2), bit, list),
    ) + update(reg(base, FFA1R), seen(t, 4), with_bit(seen(t, 4), bit, fifo)) + update(
        reg(base, FA1R),
        seen(t, 6),
        with_bit(seen(t, 6), bit, active),
    ) + seq![
        Access::Write { addr: filter_match_1(base, filter), value: mask },
        Access::Write { addr: filter_match_2(base, filter), value: mask },
    ] + update(reg(base, FMR), seen(t, 10), with_bit_clear(seen(t, 10), FINIT))
}

/// `t` programs filter `filter` if there is such a filter, and is empty if there is not.
pub open spec fn programs_filter(
    base: u32,
    filter: u32,
    list: bool,
    fifo: bool,
    active: bool,
    mask: u32,
    t: Seq<Access>,
) -> bool {
    if filter > LAST_FILTER {
        t.len() == 0
    } else {
        t == filter_script(base, filter, list, fifo, active, mask, t)
    }
}

/// The addresses of the four registers of one transmit mailbox.
pub ghost struct Mailbox {
    /// Identifier register.
    pub ti: u32,
    /// Data length and time stamp register.
    pub tdt: u32,
    /// Data low register.
    pub tdl: u32,
    /// Data high register.
    pub tdh: u32,
}

/// The registers of transmit mailbox `n` (0, 1 or 2).
pub open spec fn mailbox(base: u32, n: int) -> Mailbox {
    if n == 0 {
        Mailbox {
            ti: reg(base, TI0R),
            tdt: reg(base, TDT0R),
            tdl: reg(base, TDL0R),
            tdh: reg(base, TDH0R),
        }
    } else if n == 1 {
        Mailbox {
            ti: reg(base, TI1R),
            tdt: reg(base, TDT1R),
            tdl: reg(base, TDL1R),
            tdh: reg(base, TDH1R),
        }
    } else {
        Mailbox {
            ti: reg(base, TI2R),
            tdt: reg(base, TDT2R),
            tdl: reg(base, TDL2R),
            tdh: reg(base, TDH2R),
        }
    }
}

/// The identifier register value `word` with the identifier of `frame` in the field of
/// its width: the extended field for an extended identifier, the standard field for a
/// standard one. The other field keeps what it held.
pub open spec fn with_identifier(word: u32, frame: Frame) -> u32 {
    if frame.ide {
        with_field(word, EXID_OFFSET, EXID_MASK, frame.id)
    } else {
        with_field(word, STID_OFFSET, STID_MASK, frame.id)
    }
}

/// The accesses that hand `frame` to the mailbox `m`, given the values that the reads of
/// `t` returned. In the identifier register the remote-request bit, the identifier-type
/// bit and the identifier are put, each with an update of its own; the length is put in
/// the length field; the payload is written to the two data registers; and last of all
/// the transmit request is set in the identifier register, which gives the mailbox to the
/// hardware.
pub open spec fn mailbox_script(m: Mailbox, frame: Frame, t: Seq<Access>) -> Seq<Access> {
    update(m.ti, seen(t, 0), with_bit(seen(t, 0), RTR_BIT, frame.rtr)) + update(
        m.ti,
        seen(t, 2),
        with_bit(seen(t, 2), IDE_BIT, frame.ide),
    ) + update(m.ti, seen(t, 4), with_identifier(seen(t, 4), frame)) + update(
        m.tdt,
        seen(t, 6),
        with_field(seen(t, 6), DLC_OFFSET, DLC_MASK, frame.dlc),
    ) + seq![
        Access::Write { addr: m.tdl, value: word_of(frame.data, 0) },
        Access::Write { addr: m.tdh, value: word_of(frame.data, 4) },
    ] + update(m.ti, seen(t, 10), with_bit_set(seen(t, 10), TXRQ_BIT))
}

/// `t` scans the transmit mailboxes and hands `frame` to the one it finds empty; the frame
/// is `accepted` if there is one. If there is none, the scan is all that `t` holds.
pub open spec fn transmits(base: u32, frame: Frame, t: Seq<Access>, accepted: bool) -> bool {
    &&& starts_with_scan(base, t)
    &&& accepted == (free_mailbox(t) is Some)
    &&& match free_mailbox(t) {
        Some(n) => t.skip(scan_len(t)) == mailbox_script(
            mailbox(base, n),
            frame,
            t.skip(scan_len(t)),
        ),
        None => t.len() == scan_len(t),
    }
}

/// The addresses of the five registers of one receive FIFO.
pub ghost struct Fifo {
    /// Status register.
    pub rf: u32,
    /// Identifier register of the output mailbox.
    pub ri: u32,
    /// Data length and time stamp register of the output mailbox.
    pub rdt: u32,
    /// Data low register of the output mailbox.
    pub rdl: u32,
    /// Data high register of the output mailbox.
    pub rdh: u32,
}

/// The registers of the receive FIFO `fifo`.
pub open spec fn fifo_registers(base: u32, fifo: FifoReg) -> Fifo {
    match fifo {
        FifoReg::Fifo0 => Fifo {
            rf: reg(base, RF0R),
            ri: reg(base, RI0R),
            rdt: reg(base, RDT0R),
            rdl: reg(base, RDL0R),
            rdh: reg(base, RDH0R),
        },
        FifoReg::Fifo1 => Fifo {
            rf: reg(base, RF1R),
            ri: reg(base, RI1R),
            rdt: reg(base, RDT1R),
            rdl: reg(base, RDL1R),
            rdh: reg(base, RDH1R),
        },
    }
}

/// The FIFO to read from, when FIFO 0 holds `count0` messages and FIFO 1 holds `count1`:
/// the one that holds more, FIFO 0 if they hold as many, none if both are empty.
pub open spec fn fuller_fifo(count0: u32, count1: u32) -> Option<FifoReg> {
    if count0 >= count1 && count0 > 0 {
        Some(FifoReg::Fifo0)
    } else if count1 > count0 {
        Some(FifoReg::Fifo1)
    } else {
        None
    }
}

/// The identifier that the identifier register value `word` holds in the field of the
/// width that `ide` tells.
pub open spec fn identifier_of(word: u32, ide: bool) -> u32 {
    if ide {
        field_of(word, EXID_OFFSET, EXID_MASK)
    } else {
        field_of(word, STID_OFFSET, STID_MASK)
    }
}

/// The frame that a receive makes of the seven values it reads: the identifier register
/// read three times, for the identifier type, the identifier and the remote request; the
/// length register read twice, for the length and the filter match index; the data low
/// and data high registers.
pub open spec fn frame_read(
    ide_word: u32,
    id_word: u32,
    rtr_word: u32,
    dlc_word: u32,
    fmi_word: u32,
    low: u32,
    high: u32,
) -> Frame {
    Frame {
        read: true,
        id: identifier_of(id_word, bit_is_set(ide_word, IDE_BIT)),
        ide: bit_is_set(ide_word, IDE_BIT),
        rtr: bit_is_set(rtr_word, RTR_BIT),
        dlc: field_of(dlc_word, DLC_OFFSET, DLC_MASK),
        fmi: field_of(fmi_word, FMI_OFFSET, FMI_MASK),
        data: bytes_of(low, high),
    }
}

/// The frame held by the output mailbox of a FIFO whose identifier, length, data low and
/// data high registers hold `ri`, `rdt`, `rdl` and `rdh`.
pub open spec fn decode(ri: u32, rdt: u32, rdl: u32, rdh: u32) -> Frame {
    frame_read(ri, ri, ri, rdt, rdt, rdl, rdh)
}

/// The accesses that take the message at the output of the FIFO `f`, given the values
/// that the reads of `t` returned: seven reads, and then the release of the output mailbox.
pub open spec fn fifo_script(f: Fifo, t: Seq<Access>) -> Seq<Access> {
    seq![
        Access::Read { addr: f.ri, value: seen(t, 0) },
        Access::Read { addr: f.ri, value: seen(t, 1) },
        Access::Read { addr: f.ri, value: seen(t, 2) },
        Access::Read { addr: f.rdt, value: seen(t, 3) },
        Access::Read { addr: f.rdt, value: seen(t, 4) },
        Access::Read { addr: f.rdl, value: seen(t, 5) },
        Access::Read { addr: f.rdh, value: seen(t, 6) },
    ] + update(f.rf, seen(t, 7), with_bit_set(seen(t, 7), RFOM_BIT))
}

/// `t` asks both FIFOs how many messages they hold and takes a message from the fuller
/// one; `frame` is that message. If both are empty, the two status reads are all that `t`
/// holds, and `frame` is blank.
pub open spec fn receives(base: u32, t: Seq<Access>, frame: Frame) -> bool {
    &&& t.len() >= 2
    &&& t[0] == Access::Read { addr: reg(base, RF0R), value: seen(t, 0) }
    &&& t[1] == Access::Read { addr: reg(base, RF1R), value: seen(t, 1) }
    &&& match fuller_fifo(pending(seen(t, 0)), pending(seen(t, 1))) {
        Some(fifo) => {
            &&& t.skip(2) == fifo_script(fifo_registers(base, fifo), t.skip(2))
            &&& frame == frame_read(
                seen(t, 2),
                seen(t, 3),
                seen(t, 4),
                seen(t, 5),
                seen(t, 6),
                seen(t, 7),
                seen(t, 8),
            )
        },
        None => t.len() == 2 && frame == Frame::blank(),
    }
}

/// The accesses that ask for initialization mode, given the values that the reads of `t`
/// returned: the sleep request is cleared, then the initialization request is set.
pub open spec fn request_script(base: u32, t: Seq<Access>) -> Seq<Access> {
    update(reg(base, MCR), seen(t, 0), with_bit_clear(seen(t, 0), SLRQ_BIT)) + update(
        reg(base, MCR),
        seen(t, 2),
        with_bit_set(seen(t, 2), INRQ_BIT),
    )
}

/// The accesses that put the six mode flags of `ci` in the master control register, each
/// with an update of its own, given the values that the reads of `t` returned.
pub open spec fn modes_script(base: u32, ci: CanInit, t: Seq<Access>) -> Seq<Access> {
    let mcr = reg(base, MCR);
    update(mcr, seen(t, 0), with_bit(seen(t, 0), TXFP_BIT, ci.txfp)) + update(
        mcr,
        seen(t, 2),
        with_bit(seen(t, 2), RFLM_BIT, ci.rflm),
    ) + update(mcr, seen(t, 4), with_bit(seen(t, 4), NART_BIT, ci.nart)) + update(
        mcr,
        seen(t, 6),
        with_bit(seen(t, 6), AWUM_BIT, ci.awum),
    ) + update(mcr, seen(t, 8), with_bit(seen(t, 8), ABOM_BIT, ci.abom)) + update(
        mcr,
        seen(t, 10),
        with_bit(seen(t, 10), TTCM_BIT, ci.ttcm),
    )
}

/// The number of accesses that configure a controller held in initialization mode.
pub open spec fn configure_len() -> int {
    22
}

/// `t` configures a controller held in initialization mode: it puts the six mode flags
/// of `ci`, programs the bit timing of `ci`, and clears the initialization request.
pub open spec fn configures(base: u32, ci: CanInit, t: Seq<Access>) -> bool {
    &&& t.len() == configure_len()
    &&& t.subrange(0, 12) == modes_script(base, ci, t.subrange(0, 12))
    &&& programs_timing(base, ci, t.subrange(12, 20))
    &&& clears_bit(t.subrange(20, 22), reg(base, MCR), INRQ_BIT)
}

/// `t` opens the controller with `ci`, waiting with `n` reads for initialization mode to
/// be entered and, if it was, with `m` reads for it to be left.
///
/// Initialization mode is asked for; the master status is read until it acknowledges, and
/// if it never does, that is all and the controller is not `ok`. Else the controller is
/// configured, which ends the request, and the master status is read until the
/// acknowledgment is gone; the controller is `ok` if it went. Both waits are bounded by
/// `TIMEOUT`. Nothing that was written before a wait gave up is taken back.
pub open spec fn opens_with(base: u32, ci: CanInit, t: Seq<Access>, ok: bool, n: int, m: int) -> bool {
    let entered = bit_is_set(seen(t, 4 + n - 1), INAK_BIT);
    &&& n >= 1
    &&& t.len() >= 4 + n
    &&& t.subrange(0, 4) == request_script(base, t.subrange(0, 4))
    &&& is_wait(t.subrange(4, 4 + n), reg(base, MSR), INAK_BIT, true, TIMEOUT, entered)
    &&& if entered {
        &&& m >= 1
        &&& t.len() == 4 + n + configure_len() + m
        &&& configures(base, ci, t.subrange(4 + n, 4 + n + configure_len()))
        &&& is_wait(
            t.subrange(4 + n + configure_len(), t.len() as int),
            reg(base, MSR),
            INAK_BIT,
            false,
            TIMEOUT,
            ok,
        )
    } else {
        t.len() == 4 + n && !ok
    }
}

/// `t` opens the controller with `ci`, and the controller is `ok` if both waits of the
/// handshake ended within their bound.
pub open spec fn opens(base: u32, ci: CanInit, t: Seq<Access>, ok: bool) -> bool {
    exists|n: int, m: int| #[trigger] opens_with(base, ci, t, ok, n, m)
}

} // verus!
