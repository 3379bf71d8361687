//! What follows, for every run of the driver, from the sequences that its operations are
//! proved to make.

use vstd::prelude::*;
use crate::bus::{Access, no_writes, seen};
use crate::can::FifoReg;
use crate::common::{bit_is_set, with_bit, with_bit_clear, with_bit_set, with_field};
use crate::config::CanInit;
use crate::frame::{Frame, lemma_unpack_packed, word_of};
use crate::layout::{DLC_MASK, DLC_OFFSET, EXID_MASK, FINIT, FMR, IDE_BIT, INAK_BIT};
use crate::layout::{LAST_FILTER, MSR, RTR_BIT, STID_MASK, TIMEOUT, TXRQ_BIT, reg};
use crate::sequence::{configure_len, decode, empty_bit, fifo_registers, free_mailbox};
use crate::sequence::{fuller_fifo, identifier_of, mailbox, opens, opens_with, pending};
use crate::sequence::{programs_filter, receives, scan_len, transmits, with_identifier};

verus! {

/// A receive that finds both FIFOs empty returns a blank message that is not flagged as
/// read, and writes to no register: the two status reads are all it does.
pub proof fn law_receive_from_empty_fifos(base: u32, t: Seq<Access>, frame: Frame)
    requires
        receives(base, t, frame),
        pending(seen(t, 0)) == 0,
        pending(seen(t, 1)) == 0,
    ensures
        !frame.read,
        frame == Frame::blank(),
        t.len() == 2,
        no_writes(t),
{
}

/// A receive returns a message flagged as read exactly when one of the FIFOs holds a
/// message, and then it takes the message from the fuller FIFO, from FIFO 0 if both hold
/// as many: it reads the registers of that FIFO and releases that FIFO.
pub proof fn law_receive_takes_from_fuller_fifo(base: u32, t: Seq<Access>, frame: Frame)
    requires
        receives(base, t, frame),
    ensures
        frame.read == (pending(seen(t, 0)) > 0 || pending(seen(t, 1)) > 0),
        frame.read ==> ({
            let fifo = if pending(seen(t, 0)) >= pending(seen(t, 1)) {
                FifoReg::Fifo0
            } else {
                FifoReg::Fifo1
            };
            let f = fifo_registers(base, fifo);
            &&& t.len() == 11
            &&& t[2].addr() == f.ri
            &&& t[5].addr() == f.rdt
            &&& t[7].addr() == f.rdl
            &&& t[8].addr() == f.rdh
            &&& t[10] is Write
            &&& t[10].addr() == f.rf
        }),
{
    match fuller_fifo(pending(seen(t, 0)), pending(seen(t, 1))) {
        Some(fifo) => {
            let u = t.skip(2);
            assert(u.len() == 9);
            assert(t[2] == u[0] && t[5] == u[3] && t[7] == u[5] && t[8] == u[6] && t[10] == u[8]);
        },
        None => {},
    }
}

/// A transmit that finds all three mailboxes busy is refused and writes to no register.
pub proof fn law_transmit_with_all_mailboxes_busy(
    base: u32,
    frame: Frame,
    t: Seq<Access>,
    accepted: bool,
)
    requires
        transmits(base, frame, t, accepted),
        !bit_is_set(seen(t, 0), empty_bit(0)),
        !bit_is_set(seen(t, 1), empty_bit(1)),
        !bit_is_set(seen(t, 2), empty_bit(2)),
    ensures
        !accepted,
        t.len() == 3,
        no_writes(t),
{
}

/// A transmit is accepted exactly when the scan finds an empty mailbox, and it then
/// writes to the registers of the first mailbox that the scan found empty, and to no
/// other register.
pub proof fn law_transmit_uses_first_empty_mailbox(
    base: u32,
    frame: Frame,
    t: Seq<Access>,
    accepted: bool,
)
    requires
        transmits(base, frame, t, accepted),
    ensures
        accepted == (free_mailbox(t) is Some),
        free_mailbox(t) matches Some(n) ==> ({
            let m = mailbox(base, n);
            &&& (forall|k: int| 0 <= k < n ==> !bit_is_set(seen(t, k), empty_bit(k)))
            &&& bit_is_set(seen(t, n), empty_bit(n))
            &&& t.len() == n + 13
            &&& forall|i: int|
                0 <= i < t.len() && (#[trigger] t[i]).is_write() ==> t[i].addr() == m.ti
                    || t[i].addr() == m.tdt || t[i].addr() == m.tdl || t[i].addr() == m.tdh
        }),
{
    match free_mailbox(t) {
        Some(n) => {
            let u = t.skip(scan_len(t));
            assert(u.len() == 12);
            assert forall|i: int| 0 <= i < t.len() && (#[trigger] t[i]).is_write() implies {
                let m = mailbox(base, n);
                t[i].addr() == m.ti || t[i].addr() == m.tdt || t[i].addr() == m.tdl || t[i].addr()
                    == m.tdh
            } by {
                if i >= scan_len(t) {
                    assert(t[i] == u[i - scan_len(t)]);
                }
            }
        },
        None => {},
    }
}

/// Programming a filter that does not exist accesses no register. Programming one that
/// exists takes twelve accesses, of which the second asserts the filter initialization
/// bit and the last deasserts it, with every other write in between.
pub proof fn law_filter_programming(
    base: u32,
    filter: u32,
    list: bool,
    fifo: bool,
    active: bool,
    mask: u32,
    t: Seq<Access>,
)
    requires
        programs_filter(base, filter, list, fifo, active, mask, t),
    ensures
        filter > LAST_FILTER ==> t.len() == 0,
        filter <= LAST_FILTER ==> ({
            &&& t.len() == 12
            &&& t[1] == Access::Write { addr: reg(base, FMR), value: with_bit_set(seen(t, 0), FINIT) }
            &&& t[11] == Access::Write {
                addr: reg(base, FMR),
                value: with_bit_clear(seen(t, 10), FINIT),
            }
            &&& !t[0].is_write()
        }),
{
}

/// Opening a controller that acknowledges at once succeeds: if the first status read of
/// each wait shows what the wait is for, the controller is open after 28 accesses.
pub proof fn law_open_acknowledged_at_once(base: u32, ci: CanInit, t: Seq<Access>, ok: bool)
    requires
        opens(base, ci, t, ok),
        bit_is_set(seen(t, 4), INAK_BIT),
        !bit_is_set(seen(t, 5 + configure_len()), INAK_BIT),
    ensures
        ok,
        t.len() == 6 + configure_len(),
{
    let (n, m) = choose|n: int, m: int| #[trigger] opens_with(base, ci, t, ok, n, m);
    let w = t.subrange(4, 4 + n);
    assert(seen(w, 0) == seen(t, 4));
    let x = t.subrange(4 + n + configure_len(), t.len() as int);
    assert(seen(x, 0) == seen(t, 5 + configure_len()));
}

/// Opening fails only when a wait has run its full length: the last `TIMEOUT` accesses
/// are then reads of the master status, and each of them shows the acknowledgment as it
/// was when the wait began. Both waits have that one bound.
pub proof fn law_open_fails_after_full_wait(base: u32, ci: CanInit, t: Seq<Access>, ok: bool)
    requires
        opens(base, ci, t, ok),
        !ok,
    ensures
        t.len() >= 4 + TIMEOUT,
        forall|i: int|
            t.len() - TIMEOUT <= i < t.len() ==> (#[trigger] t[i]) is Read
                && t[i].addr() == reg(base, MSR),
        forall|i: int, j: int|
            t.len() - TIMEOUT <= i < t.len() && t.len() - TIMEOUT <= j
                < t.len() ==> bit_is_set(seen(t, i), INAK_BIT) == bit_is_set(
                seen(t, j),
                INAK_BIT,
            ),
{
    let (n, m) = choose|n: int, m: int| #[trigger] opens_with(base, ci, t, ok, n, m);
    let start = t.len() - TIMEOUT;
    let w = if bit_is_set(seen(t, 4 + n - 1), INAK_BIT) {
        t.subrange(4 + n + configure_len(), t.len() as int)
    } else {
        t.subrange(4, 4 + n)
    };
    assert forall|i: int| start <= i < t.len() implies (#[trigger] t[i]) is Read && t[i].addr()
        == reg(base, MSR) by {
        assert(t[i] == w[i - start]);
    }
    assert forall|i: int, j: int| start <= i < t.len() && start <= j < t.len() implies bit_is_set(
        seen(t, i),
        INAK_BIT,
    ) == bit_is_set(seen(t, j), INAK_BIT) by {
        assert(seen(t, i) == seen(w, i - start));
        assert(seen(t, j) == seen(w, j - start));
    }
}

/// What the identifier register of a mailbox holds once a transmit has handed it
/// `frame`, if it held `ti` before and keeps what is written to it.
pub open spec fn identifier_handed(ti: u32, frame: Frame) -> u32 {
    with_bit_set(
        with_identifier(with_bit(with_bit(ti, RTR_BIT, frame.rtr), IDE_BIT, frame.ide), frame),
        TXRQ_BIT,
    )
}

/// What the length register of a mailbox holds once a transmit has handed it `frame`, if
/// it held `tdt` before.
pub open spec fn length_handed(tdt: u32, frame: Frame) -> u32 {
    with_field(tdt, DLC_OFFSET, DLC_MASK, frame.dlc)
}

/// The identifier, its width, the remote request, the length and the payload of a
/// well-formed frame come back unchanged from the registers that a transmit leaves in a
/// mailbox, whatever the mailbox held before.
pub proof fn law_frame_round_trip(frame: Frame, ti: u32, tdt: u32)
    requires
        frame.wf(),
    ensures
        ({
            let back = decode(
                identifier_handed(ti, frame),
                length_handed(tdt, frame),
                word_of(frame.data, 0),
                word_of(frame.data, 4),
            );
            &&& back.read
            &&& back.id == frame.id
            &&& back.ide == frame.ide
            &&& back.rtr == frame.rtr
            &&& back.dlc == frame.dlc
            &&& back.data == frame.data
        }),
{
    let id = frame.id;
    let dlc = frame.dlc;
    if frame.ide {
        if frame.rtr {
            lemma_identifier_register(ti, id, true, true);
        } else {
            lemma_identifier_register(ti, id, true, false);
        }
    } else {
        if frame.rtr {
            lemma_identifier_register(ti, id, false, true);
        } else {
            lemma_identifier_register(ti, id, false, false);
        }
    }
    assert(((tdt & !(0xFu32 << 0u32)) | ((dlc & 0xF) << 0u32)) >> 0u32 & 0xF == dlc) by (bit_vector)
        requires
            dlc <= 8,
    ;
    lemma_unpack_packed(frame.data);
}

/// The identifier register after the remote request `rtr`, the identifier type `ide` and
/// the identifier `id` were put in it and the transmit request was set, holds all three.
proof fn lemma_identifier_register(ti: u32, id: u32, ide: bool, rtr: bool)
    requires
        if ide {
            id <= EXID_MASK
        } else {
            id <= STID_MASK
        },
    ensures
        ({
            let frame = Frame { read: false, id, ide, rtr, dlc: 0, fmi: 0, data: Seq::empty() };
            let word = identifier_handed(ti, frame);
            &&& bit_is_set(word, IDE_BIT) == ide
            &&& bit_is_set(word, RTR_BIT) == rtr
            &&& identifier_of(word, ide) == id
        }),
{
    let a = with_bit(ti, RTR_BIT, rtr);
    let b = with_bit(a, IDE_BIT, ide);
    if ide {
        assert({
            let c = (b & !(0x1FFF_FFFFu32 << 3u32)) | ((id & 0x1FFF_FFFF) << 3u32);
            let d = c | 1;
            &&& (d & 4 != 0) == (b & 4 != 0)
            &&& (d & 2 != 0) == (b & 2 != 0)
            &&& (d >> 3u32) & 0x1FFF_FFFF == id
        }) by (bit_vector)
            requires
                id <= 0x1FFF_FFFF,
        ;
    } else {
        assert({
            let c = (b & !(0x7FFu32 << 21u32)) | ((id & 0x7FF) << 21u32);
            let d = c | 1;
            &&& (d & 4 != 0) == (b & 4 != 0)
            &&& (d & 2 != 0) == (b & 2 != 0)
            &&& (d >> 21u32) & 0x7FF == id
        }) by (bit_vector)
            requires
                id <= 0x7FF,
        ;
    }
    assert((a | 4) & 4 != 0 && ((a | 4) & 2 != 0) == (a & 2 != 0)) by (bit_vector);
    assert((a & !4u32) & 4 == 0 && ((a & !4u32) & 2 != 0) == (a & 2 != 0)) by (bit_vector);
    assert((ti | 2) & 2 != 0 && (ti & !2u32) & 2 == 0) by (bit_vector);
}

/// The reads that a transmit makes of the identifier register of its mailbox, in the part
/// `u` of its accesses that programs the mailbox, each return what the transmit wrote
/// there last: the register keeps what is written to it.
pub open spec fn mailbox_keeps(u: Seq<Access>) -> bool {
    &&& seen(u, 2) == seen(u, 1)
    &&& seen(u, 4) == seen(u, 3)
    &&& seen(u, 10) == seen(u, 5)
}

/// The reads that a receive makes of the registers of its FIFO, in the part `v` of its
/// accesses that follows the two status reads, return what the part `u` of a transmit
/// that programs a mailbox wrote last to the identifier, length, data low and data high
/// registers of the mailbox: the FIFO shows the frame that the mailbox sent.
pub open spec fn fifo_echoes(u: Seq<Access>, v: Seq<Access>) -> bool {
    &&& seen(v, 0) == seen(u, 11)
    &&& seen(v, 1) == seen(u, 11)
    &&& seen(v, 2) == seen(u, 11)
    &&& seen(v, 3) == seen(u, 7)
    &&& seen(v, 4) == seen(u, 7)
    &&& seen(v, 5) == seen(u, 8)
    &&& seen(v, 6) == seen(u, 9)
}

/// A well-formed frame that is written and, echoed by the hardware into a receive FIFO,
/// read again, comes back with the same identifier, identifier width, remote request,
/// length and payload.
pub proof fn law_write_then_read(
    base: u32,
    frame: Frame,
    tw: Seq<Access>,
    other: u32,
    tr: Seq<Access>,
    back: Frame,
)
    requires
        frame.wf(),
        transmits(base, frame, tw, true),
        receives(other, tr, back),
        back.read,
        mailbox_keeps(tw.skip(scan_len(tw))),
        fifo_echoes(tw.skip(scan_len(tw)), tr.skip(2)),
    ensures
        back.id == frame.id,
        back.ide == frame.ide,
        back.rtr == frame.rtr,
        back.dlc == frame.dlc,
        back.data == frame.data,
{
    let u = tw.skip(scan_len(tw));
    let v = tr.skip(2);
    // What the transmit left in the mailbox.
    assert(seen(u, 11) == identifier_handed(seen(u, 0), frame));
    assert(seen(u, 7) == length_handed(seen(u, 6), frame));
    // What the receive made of it.
    assert(v.len() == 9);
    assert(back == decode(
        seen(u, 11),
        seen(u, 7),
        word_of(frame.data, 0),
        word_of(frame.data, 4),
    ));
    law_frame_round_trip(frame, seen(u, 0), seen(u, 6));
}

} // verus!
