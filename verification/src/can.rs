//! The CAN controller driver.

use vstd::prelude::*;
use crate::bus::{Access, RegisterBus, Registers, after, seen};
use crate::config::CanInit;
use crate::frame::{CanMsg, pack_high, pack_low, unpack, word_of};
use crate::layout::{ABOM_BIT, AWUM_BIT, BRP_MASK, BRP_OFFSET, BTR, DLC_MASK, DLC_OFFSET, ESR};
use crate::layout::{EXID_MASK, EXID_OFFSET, FA1R, FFA1R, FINIT, FM1R, FMI_MASK, FMI_OFFSET};
use crate::layout::{FMP_MASK, FMP_OFFSET, FMR, FRB, FR_BASE, FS1R, FXR1, FXR2, IDE_BIT, IER};
use crate::layout::{INAK_BIT, INRQ_BIT, LAST_FILTER, MCR, MSR, NART_BIT, RDH0R, RDH1R, RDL0R};
use crate::layout::{RDL1R, RDT0R, RDT1R, RF0R, RF1R, RFLM_BIT, RFOM_BIT, RI0R, RI1R, RTR_BIT};
use crate::layout::{SJW_MASK, SJW_OFFSET, SLRQ_BIT, STID_MASK, STID_OFFSET, TDH0R, TDH1R};
use crate::layout::{TDH2R, TDL0R, TDL1R, TDL2R, TDT0R, TDT1R, TDT2R, TI0R, TI1R, TI2R, TIMEOUT};
use crate::layout::{TME0_BIT, TME1_BIT, TME2_BIT, TS1_MASK, TS1_OFFSET, TS2_MASK, TS2_OFFSET};
use crate::layout::{TSR, TTCM_BIT, TXFP_BIT, TXRQ_BIT, block_fits};
use crate::sequence::{Fifo, Mailbox, configure_len, configures, fifo_script, filter_script};
use crate::sequence::{frame_read, fuller_fifo, mailbox, mailbox_script, opens, opens_with};
use crate::sequence::{polls_pending, probes_mailboxes, programs_filter, programs_timing};
use crate::sequence::{reads_register, receives, releases, transmits};

verus! {

/// One of the two receive FIFOs.
pub enum FifoReg {
    Fifo0,
    Fifo1,
}

/// The addresses of the registers of one controller.
pub struct RegisterMap {
    base: u32,
    mcr: u32,
    msr: u32,
    tsr: u32,
    rf0r: u32,
    rf1r: u32,
    ier: u32,
    esr: u32,
    btr: u32,
    ti0r: u32,
    tdt0r: u32,
    tdl0r: u32,
    tdh0r: u32,
    ti1r: u32,
    tdt1r: u32,
    tdl1r: u32,
    tdh1r: u32,
    ti2r: u32,
    tdt2r: u32,
    tdl2r: u32,
    tdh2r: u32,
    ri0r: u32,
    rdt0r: u32,
    rdl0r: u32,
    rdh0r: u32,
    ri1r: u32,
    rdt1r: u32,
    rdl1r: u32,
    rdh1r: u32,
    fmr: u32,
    fm1r: u32,
    fs1r: u32,
    ffa1r: u32,
    fa1r: u32,
}

/// The handle of one CAN controller: the addresses of its registers, and the bus that
/// reaches them.
pub struct Can<B: RegisterBus> {
    map: RegisterMap,
    regs: Registers<B>,
}

impl RegisterMap {
    /// Every address in the map is the base address plus the offset of its register, and
    /// the whole block lies in the address space.
    #[verifier::type_invariant]
    closed spec fn inv(&self) -> bool {
        &&& block_fits(self.base)
        &&& self.mcr == self.base + MCR
        &&& self.msr == self.base + MSR
        &&& self.tsr == self.base + TSR
        &&& self.rf0r == self.base + RF0R
        &&& self.rf1r == self.base + RF1R
        &&& self.ier == self.base + IER
        &&& self.esr == self.base + ESR
        &&& self.btr == self.base + BTR
        &&& self.ti0r == self.base + TI0R
        &&& self.tdt0r == self.base + TDT0R
        &&& self.tdl0r == self.base + TDL0R
        &&& self.tdh0r == self.base + TDH0R
        &&& self.ti1r == self.base + TI1R
        &&& self.tdt1r == self.base + TDT1R
        &&& self.tdl1r == self.base + TDL1R
        &&& self.tdh1r == self.base + TDH1R
        &&& self.ti2r == self.base + TI2R
        &&& self.tdt2r == self.base + TDT2R
        &&& self.tdl2r == self.base + TDL2R
        &&& self.tdh2r == self.base + TDH2R
        &&& self.ri0r == self.base + RI0R
        &&& self.rdt0r == self.base + RDT0R
        &&& self.rdl0r == self.base + RDL0R
        &&& self.rdh0r == self.base + RDH0R
        &&& self.ri1r == self.base + RI1R
        &&& self.rdt1r == self.base + RDT1R
        &&& self.rdl1r == self.base + RDL1R
        &&& self.rdh1r == self.base + RDH1R
        &&& self.fmr == self.base + FMR
        &&& self.fm1r == self.base + FM1R
        &&& self.fs1r == self.base + FS1R
        &&& self.ffa1r == self.base + FFA1R
        &&& self.fa1r == self.base + FA1R
    }
}

impl<B: RegisterBus> Can<B> {
    /// The base address of the register block. A handle is made only for a block that
    /// lies within the address space; of a value that is no such handle, this is 0.
    pub closed spec fn base(&self) -> u32 {
        if block_fits(self.map.base) {
            self.map.base
        } else {
            0
        }
    }

    /// The bus as it is now.
    pub closed spec fn device(&self) -> B {
        self.regs.device()
    }

    /// Every access made on the bus so far, oldest first.
    pub closed spec fn trace(&self) -> Seq<Access> {
        self.regs.trace()
    }

    /// The accesses made after the state `earlier`.
    pub open spec fn since(&self, earlier: &Self) -> Seq<Access> {
        after(self.trace(), earlier.trace())
    }

    /// This is the handle `earlier` after further accesses: the same controller, and the
    /// record of `earlier` with those accesses behind it.
    pub open spec fn extends(&self, earlier: &Self) -> bool {
        self.base() == earlier.base() && earlier.trace().is_prefix_of(self.trace())
    }

    /// The register block of a handle lies within the address space.
    pub proof fn lemma_block_fits(&self)
        ensures
            block_fits(self.base()),
    {
    }

    /// Makes the handle of the controller whose register block starts at `base` and is
    /// reached through `bus`. Nothing is accessed.
    pub fn init(base: u32, bus: B) -> (can: Can<B>)
        requires
            block_fits(base),
        ensures
            can.base() == base,
            can.device() == bus,
            can.trace() == bus.accesses(),
    {
        let map = RegisterMap {
            base: base,
            msr: base + MSR,
            mcr: base + MCR,
            tsr: base + TSR,
            rf0r: base + RF0R,
            rf1r: base + RF1R,
            ier: base + IER,
            esr: base + ESR,
            btr: base + BTR,
            ti0r: base + TI0R,
            tdt0r: base + TDT0R,
            tdl0r: base + TDL0R,
            tdh0r: base + TDH0R,
            ti1r: base + TI1R,
            tdt1r: base + TDT1R,
            tdl1r: base + TDL1R,
            tdh1r: base + TDH1R,
            ti2r: base + TI2R,
            tdt2r: base + TDT2R,
            tdl2r: base + TDL2R,
            tdh2r: base + TDH2R,
            ri0r: base + RI0R,
            rdt0r: base + RDT0R,
            rdl0r: base + RDL0R,
            rdh0r: base + RDH0R,
            ri1r: base + RI1R,
            rdt1r: base + RDT1R,
            rdl1r: base + RDL1R,
            rdh1r: base + RDH1R,
            fmr: base + FMR,
            fm1r: base + FM1R,
            fs1r: base + FS1R,
            ffa1r: base + FFA1R,
            fa1r: base + FA1R,
        };
        Can { map, regs: Registers::new(bus) }
    }

    /// The bus, to look at.
    pub fn bus(&self) -> (bus: &B)
        ensures
            *bus == self.device(),
            bus.accesses() == self.trace(),
    {
        self.regs.bus()
    }

    /// Reads the error status register.
    pub fn read_esr(&mut self) -> (status: u32)
        ensures
            final(self).extends(old(self)),
            reads_register(old(self).base(), ESR, final(self).since(old(self)), status),
    {
        proof {
            use_type_invariant(&self.map);
        }
        self.regs.get_raw(self.map.esr)
    }

    /// Reads the master status register.
    pub fn read_msr(&mut self) -> (status: u32)
        ensures
            final(self).extends(old(self)),
            reads_register(old(self).base(), MSR, final(self).since(old(self)), status),
    {
        proof {
            use_type_invariant(&self.map);
        }
        self.regs.get_raw(self.map.msr)
    }

    /// Releases the output mailbox of `fifo`, so that the FIFO shows its next message.
    pub fn fifo_release(&mut self, fifo: FifoReg)
        ensures
            final(self).extends(old(self)),
            releases(old(self).base(), fifo, final(self).since(old(self))),
    {
        proof {
            use_type_invariant(&self.map);
        }
        match fifo {
            FifoReg::Fifo0 => self.regs.set_bit(self.map.rf0r, RFOM_BIT),
            FifoReg::Fifo1 => self.regs.set_bit(self.map.rf1r, RFOM_BIT),
        }
    }

    /// Whether either receive FIFO holds a message.
    pub fn read_pend(&mut self) -> (found: bool)
        ensures
            final(self).extends(old(self)),
            polls_pending(old(self).base(), final(self).since(old(self)), found),
    {
        proof {
            use_type_invariant(&self.map);
        }
        if self.regs.get_field(self.map.rf0r, FMP_OFFSET, FMP_MASK) > 0 {
            return true;
        } else if self.regs.get_field(self.map.rf1r, FMP_OFFSET, FMP_MASK) > 0 {
            return true;
        } else {
            return false;
        }
    }

    /// Whether a transmit mailbox is empty.
    pub fn write_free(&mut self) -> (free: bool)
        ensures
            final(self).extends(old(self)),
            probes_mailboxes(old(self).base(), final(self).since(old(self)), free),
    {
        proof {
            use_type_invariant(&self.map);
        }
        if self.regs.get_bit(self.map.tsr, TME0_BIT) {
            return true;
        } else if self.regs.get_bit(self.map.tsr, TME1_BIT) {
            return true;
        } else if self.regs.get_bit(self.map.tsr, TME2_BIT) {
            return true;
        } else {
            return false;
        }
    }

    /// Programs acceptance filter `filter`: list matching if `list` and mask matching if
    /// not, into FIFO 1 if `fifo` and FIFO 0 if not, switched on if `active`, with `mask`
    /// in both of its match registers. While it is programmed no filter matches. A
    /// `filter` above 13 names no filter, and nothing is done.
    pub fn filter_init(&mut self, filter: u32, list: bool, fifo: bool, active: bool, mask: u32)
        ensures
            final(self).extends(old(self)),
            programs_filter(
                old(self).base(),
                filter,
                list,
                fifo,
                active,
                mask,
                final(self).since(old(self)),
            ),
    {
        proof {
            use_type_invariant(&self.map);
        }
        if filter > LAST_FILTER {
            return ;
        }
        let bit: u32 = 1 << filter;
        let fxr1: u32 = self.map.base + FRB + (filter * FR_BASE) + FXR1;
        let fxr2: u32 = self.map.base + FRB + (filter * FR_BASE) + FXR2;

        self.regs.set_bit(self.map.fmr, FINIT);
        let ghost t1 = self.regs.trace();
        self.regs.put_bit(self.map.fm1r, bit, list);
        let ghost t2 = self.regs.trace();
        self.regs.put_bit(self.map.ffa1r, bit, fifo);
        let ghost t3 = self.regs.trace();
        self.regs.put_bit(self.map.fa1r, bit, active);
        let ghost t4 = self.regs.trace();
        self.regs.set_raw(fxr1, mask);
        let ghost t4a = self.regs.trace();
        self.regs.set_raw(fxr2, mask);
        let ghost t5 = self.regs.trace();
        self.regs.clr_bit(self.map.fmr, FINIT);
        proof {
            let t0 = old(self).regs.trace();
            let t = self.since(old(self));
            assert(t =~= after(t1, t0) + after(t2, t1) + after(t3, t2) + after(t4, t3) + after(
                t4a,
                t4,
            ) + after(t5, t4a) + after(self.regs.trace(), t5));
            assert(t =~= filter_script(self.map.base, filter, list, fifo, active, mask, t));
        }
    }

    /// Brings the controller into operation with the configuration `ci`: enters
    /// initialization mode, programs the mode flags and the bit timing, and leaves
    /// initialization mode. Returns `false` if the hardware did not acknowledge the entry
    /// or the exit within the bound on the number of status reads.
    pub fn open(&mut self, ci: &CanInit) -> (ok: bool)
        ensures
            final(self).extends(old(self)),
            opens(old(self).base(), *ci, final(self).since(old(self)), ok),
    {
        proof {
            use_type_invariant(&self.map);
        }
        self.regs.clr_bit(self.map.mcr, SLRQ_BIT);
        let ghost t1 = self.regs.trace();
        self.regs.set_bit(self.map.mcr, INRQ_BIT);
        let ghost t2 = self.regs.trace();
        let entered = self.regs.wait_for_bit(self.map.msr, INAK_BIT, true, TIMEOUT);
        let ghost t3 = self.regs.trace();
        let ghost t0 = old(self).regs.trace();
        let ghost n = after(t3, t2).len() as int;
        proof {
            assert(after(t2, t0) =~= after(t1, t0) + after(t2, t1));
            assert(after(t3, t0).subrange(0, 4) =~= after(t2, t0));
            assert(after(t3, t0).subrange(4, 4 + n) =~= after(t3, t2));
        }
        if !entered {
            proof {
                assert(opens_with(self.map.base, *ci, self.since(old(self)), false, n, 0));
            }
            return false;
        }
        self.configure(ci);
        proof {
            use_type_invariant(&self.map);
        }
        let ghost t4 = self.regs.trace();
        let ok = self.regs.wait_for_bit(self.map.msr, INAK_BIT, false, TIMEOUT);
        proof {
            let t5 = self.regs.trace();
            let t = self.since(old(self));
            let m = after(t5, t4).len() as int;
            assert(t.subrange(0, 4) =~= after(t2, t0));
            assert(t.subrange(4, 4 + n) =~= after(t3, t2));
            assert(t.subrange(4 + n, 4 + n + configure_len()) =~= after(t4, t3));
            assert(t.subrange(4 + n + configure_len(), t.len() as int) =~= after(t5, t4));
            assert(opens_with(self.map.base, *ci, t, ok, n, m));
        }
        ok
    }

    /// Configures the controller while it is held in initialization mode, and ends the
    /// request for that mode.
    fn configure(&mut self, ci: &CanInit)
        ensures
            final(self).extends(old(self)),
            configures(old(self).base(), *ci, final(self).since(old(self))),
    {
        proof {
            use_type_invariant(&self.map);
        }
        self.regs.put_bit(self.map.mcr, TXFP_BIT, ci.txfp);
        let ghost t1 = self.regs.trace();
        self.regs.put_bit(self.map.mcr, RFLM_BIT, ci.rflm);
        let ghost t2 = self.regs.trace();
        self.regs.put_bit(self.map.mcr, NART_BIT, ci.nart);
        let ghost t3 = self.regs.trace();
        self.regs.put_bit(self.map.mcr, AWUM_BIT, ci.awum);
        let ghost t4 = self.regs.trace();
        self.regs.put_bit(self.map.mcr, ABOM_BIT, ci.abom);
        let ghost t5 = self.regs.trace();
        self.regs.put_bit(self.map.mcr, TTCM_BIT, ci.ttcm);
        let ghost t6 = self.regs.trace();
        let ghost t0 = old(self).regs.trace();
        proof {
            assert(after(t6, t0) =~= after(t1, t0) + after(t2, t1) + after(t3, t2) + after(t4, t3)
                + after(t5, t4) + after(t6, t5));
        }
        self.clock_setup(ci);
        proof {
            use_type_invariant(&self.map);
        }
        let ghost t7 = self.regs.trace();
        self.regs.clr_bit(self.map.mcr, INRQ_BIT);
        proof {
            let t = self.since(old(self));
            let t8 = self.regs.trace();
            assert(after(t7, t6).len() == 8);
            assert(after(t8, t7).len() == 2);
            assert(t.subrange(0, 12) =~= after(t6, t0));
            assert(t.subrange(12, 20) =~= after(t7, t6));
            assert(t.subrange(20, 22) =~= after(t8, t7));
        }
    }

    /// Programs the bit timing of `ci`.
    fn clock_setup(&mut self, ci: &CanInit)
        ensures
            final(self).extends(old(self)),
            programs_timing(old(self).base(), *ci, final(self).since(old(self))),
    {
        proof {
            use_type_invariant(&self.map);
        }
        self.regs.set_field(self.map.btr, BRP_OFFSET, BRP_MASK, ci.brp);
        let ghost t1 = self.regs.trace();
        self.regs.set_field(self.map.btr, TS1_OFFSET, TS1_MASK, ci.ts1);
        let ghost t2 = self.regs.trace();
        self.regs.set_field(self.map.btr, TS2_OFFSET, TS2_MASK, ci.ts2);
        let ghost t3 = self.regs.trace();
        self.regs.set_field(self.map.btr, SJW_OFFSET, SJW_MASK, ci.sjw);
        proof {
            let t0 = old(self).regs.trace();
            let t = self.since(old(self));
            assert(t =~= after(t1, t0) + after(t2, t1) + after(t3, t2) + after(
                self.regs.trace(),
                t3,
            ));
        }
    }

    /// Hands `msg` to the first empty transmit mailbox, which sends it when the bus lets
    /// it. Returns `false`, with nothing written, if no mailbox is empty.
    pub fn write(&mut self, msg: CanMsg) -> (accepted: bool)
        ensures
            final(self).extends(old(self)),
            transmits(old(self).base(), msg@, final(self).since(old(self)), accepted),
    {
        proof {
            use_type_invariant(&self.map);
        }
        let data = msg.get_data();
        let regl = pack_low(&data);
        let regh = pack_high(&data);
        let ti;
        let tdt;
        let tdl;
        let tdh;
        let ghost n: int;

        if self.regs.get_bit(self.map.tsr, TME0_BIT) {
            ti = self.map.ti0r;
            tdt = self.map.tdt0r;
            tdl = self.map.tdl0r;
            tdh = self.map.tdh0r;
            proof {
                n = 0;
            }
        } else if self.regs.get_bit(self.map.tsr, TME1_BIT) {
            ti = self.map.ti1r;
            tdt = self.map.tdt1r;
            tdl = self.map.tdl1r;
            tdh = self.map.tdh1r;
            proof {
                n = 1;
            }
        } else if self.regs.get_bit(self.map.tsr, TME2_BIT) {
            ti = self.map.ti2r;
            tdt = self.map.tdt2r;
            tdl = self.map.tdl2r;
            tdh = self.map.tdh2r;
            proof {
                n = 2;
            }
        } else {
            return false;
        }
        let ghost s = self.regs.trace();
        self.program_mailbox(ti, tdt, tdl, tdh, regl, regh, &msg);
        proof {
            assert(self.since(old(self)).skip(n + 1) =~= after(self.regs.trace(), s));
        }
        true
    }

    /// Hands `msg`, whose payload is packed in `regl` and `regh`, to the mailbox with the
    /// registers at `ti`, `tdt`, `tdl` and `tdh`.
    fn program_mailbox(
        &mut self,
        ti: u32,
        tdt: u32,
        tdl: u32,
        tdh: u32,
        regl: u32,
        regh: u32,
        msg: &CanMsg,
    )
        requires
            regl == word_of(msg@.data, 0),
            regh == word_of(msg@.data, 4),
        ensures
            final(self).extends(old(self)),
            final(self).since(old(self)) == mailbox_script(
                Mailbox { ti, tdt, tdl, tdh },
                msg@,
                final(self).since(old(self)),
            ),
    {
        self.regs.put_bit(ti, RTR_BIT, msg.get_rtr());
        let ghost t1 = self.regs.trace();
        let ghost t2;
        if msg.get_ide() {
            self.regs.set_bit(ti, IDE_BIT);
            proof {
                t2 = self.regs.trace();
            }
            self.regs.set_field(ti, EXID_OFFSET, EXID_MASK, msg.get_id());
        } else {
            self.regs.clr_bit(ti, IDE_BIT);
            proof {
                t2 = self.regs.trace();
            }
            self.regs.set_field(ti, STID_OFFSET, STID_MASK, msg.get_id());
        }
        let ghost t3 = self.regs.trace();
        self.regs.set_field(tdt, DLC_OFFSET, DLC_MASK, msg.get_dlc());
        let ghost t4 = self.regs.trace();
        self.regs.set_raw(tdl, regl);
        let ghost t4a = self.regs.trace();
        self.regs.set_raw(tdh, regh);
        let ghost t5 = self.regs.trace();
        self.regs.set_bit(ti, TXRQ_BIT);
        proof {
            let t0 = old(self).regs.trace();
            let t = self.since(old(self));
            assert(t =~= after(t1, t0) + after(t2, t1) + after(t3, t2) + after(t4, t3) + after(
                t4a,
                t4,
            ) + after(t5, t4a) + after(self.regs.trace(), t5));
        }
    }

    /// Takes a message from the receive FIFO that holds more of them, FIFO 0 if both
    /// hold as many, and releases its place in the FIFO. If both are empty, the message
    /// returned is blank, its `read` flag is not set, and nothing is written.
    pub fn read(&mut self) -> (msg: CanMsg)
        ensures
            final(self).extends(old(self)),
            receives(old(self).base(), final(self).since(old(self)), msg@),
    {
        proof {
            use_type_invariant(&self.map);
        }
        let count0 = self.regs.get_field(self.map.rf0r, FMP_OFFSET, FMP_MASK);
        let count1 = self.regs.get_field(self.map.rf1r, FMP_OFFSET, FMP_MASK);
        let ghost s = self.regs.trace();
        let ri;
        let rdt;
        let rdl;
        let rdh;
        let rf;
        match select_fifo(count0, count1) {
            Some(FifoReg::Fifo0) => {
                ri = self.map.ri0r;
                rdt = self.map.rdt0r;
                rdl = self.map.rdl0r;
                rdh = self.map.rdh0r;
                rf = self.map.rf0r;
            },
            Some(FifoReg::Fifo1) => {
                ri = self.map.ri1r;
                rdt = self.map.rdt1r;
                rdl = self.map.rdl1r;
                rdh = self.map.rdh1r;
                rf = self.map.rf1r;
            },
            None => {
                return CanMsg::init();
            },
        }
        let msg = self.take_message(ri, rdt, rdl, rdh, rf);
        proof {
            assert(self.since(old(self)).skip(2) =~= after(self.regs.trace(), s));
        }
        msg
    }

    /// Reads the message at the output of the FIFO with the registers at `ri`, `rdt`,
    /// `rdl`, `rdh` and `rf`, and releases it.
    fn take_message(&mut self, ri: u32, rdt: u32, rdl: u32, rdh: u32, rf: u32) -> (msg: CanMsg)
        ensures
            final(self).extends(old(self)),
            ({
                let t = final(self).since(old(self));
                &&& t == fifo_script(Fifo { rf, ri, rdt, rdl, rdh }, t)
                &&& msg@ == frame_read(
                    seen(t, 0),
                    seen(t, 1),
                    seen(t, 2),
                    seen(t, 3),
                    seen(t, 4),
                    seen(t, 5),
                    seen(t, 6),
                )
            }),
    {
        let ide = self.regs.get_bit(ri, IDE_BIT);
        let ghost t1 = self.regs.trace();
        let id = if ide {
            self.regs.get_field(ri, EXID_OFFSET, EXID_MASK)
        } else {
            self.regs.get_field(ri, STID_OFFSET, STID_MASK)
        };
        let ghost t2 = self.regs.trace();
        let rtr = self.regs.get_bit(ri, RTR_BIT);
        let ghost t3 = self.regs.trace();
        let dlc = self.regs.get_field(rdt, DLC_OFFSET, DLC_MASK);
        let ghost t4 = self.regs.trace();
        let fmi = self.regs.get_field(rdt, FMI_OFFSET, FMI_MASK);
        let ghost t5 = self.regs.trace();
        let regl = self.regs.get_raw(rdl);
        let ghost t6 = self.regs.trace();
        let regh = self.regs.get_raw(rdh);
        let ghost t7 = self.regs.trace();
        let data = unpack(regl, regh);
        self.regs.set_bit(rf, RFOM_BIT);
        proof {
            let t0 = old(self).regs.trace();
            let t = self.since(old(self));
            assert(t5.is_prefix_of(t6) && t6.is_prefix_of(t7));
            assert(t =~= after(t1, t0) + after(t2, t1) + after(t3, t2) + after(t4, t3) + after(
                t5,
                t4,
            ) + after(t6, t5) + after(t7, t6) + after(self.regs.trace(), t7));
        }
        CanMsg::received(id, ide, rtr, dlc, fmi, data)
    }
}

/// Chooses the receive FIFO to read from, when FIFO 0 holds `count0` messages and FIFO 1
/// holds `count1`.
pub fn select_fifo(count0: u32, count1: u32) -> (fifo: Option<FifoReg>)
    ensures
        fifo == fuller_fifo(count0, count1),
{
    if count0 >= count1 && count0 > 0 {
        Some(FifoReg::Fifo0)
    } else if count1 > count0 {
        Some(FifoReg::Fifo1)
    } else {
        None
    }
}

} // verus!
