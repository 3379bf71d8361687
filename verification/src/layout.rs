//! The register map of the CAN controller: where each register lies from the base address,
//! and where each bit and field lies in its register.

use vstd::prelude::*;
use crate::common::{BIT_0, BIT_1, BIT_2, BIT_26, BIT_27, BIT_28, BIT_3, BIT_30, BIT_31, BIT_4};
use crate::common::{BIT_5, BIT_6, BIT_7, MASK_11_BIT, MASK_29_BIT, MASK_2_BIT, MASK_3_BIT};
use crate::common::{MASK_4_BIT, MASK_8_BIT, MASK_9_BIT};

verus! {

/* Register offsets */

/// Master control register.
pub const MCR: u32 = 0x0000;
/// Master status register.
pub const MSR: u32 = 0x0004;
/// Transmit status register.
pub const TSR: u32 = 0x0008;
/// Receive FIFO 0 register.
pub const RF0R: u32 = 0x000C;
/// Receive FIFO 1 register.
pub const RF1R: u32 = 0x0010;
/// Interrupt enable register.
pub const IER: u32 = 0x0014;
/// Error status register.
pub const ESR: u32 = 0x0018;
/// Bit timing register.
pub const BTR: u32 = 0x001C;
/// Transmit mailbox 0: identifier register.
pub const TI0R: u32 = 0x0180;
/// Transmit mailbox 0: data length and time stamp register.
pub const TDT0R: u32 = 0x0184;
/// Transmit mailbox 0: data low register.
pub const TDL0R: u32 = 0x0188;
/// Transmit mailbox 0: data high register.
pub const TDH0R: u32 = 0x018C;
pub const TI1R: u32 = 0x0190;
pub const TDT1R: u32 = 0x0194;
pub const TDL1R: u32 = 0x0198;
pub const TDH1R: u32 = 0x019C;
pub const TI2R: u32 = 0x01A0;
pub const TDT2R: u32 = 0x01A4;
pub const TDL2R: u32 = 0x01A8;
pub const TDH2R: u32 = 0x01AC;
/// Receive FIFO 0: identifier register.
pub const RI0R: u32 = 0x01B0;
/// Receive FIFO 0: data length and time stamp register.
pub const RDT0R: u32 = 0x01B4;
/// Receive FIFO 0: data low register.
pub const RDL0R: u32 = 0x01B8;
/// Receive FIFO 0: data high register.
pub const RDH0R: u32 = 0x01BC;
pub const RI1R: u32 = 0x01C0;
pub const RDT1R: u32 = 0x01C4;
pub const RDL1R: u32 = 0x01C8;
pub const RDH1R: u32 = 0x01CC;
/// Filter master register.
pub const FMR: u32 = 0x0200;
/// Filter mode register: list or mask matching, one bit to the filter.
pub const FM1R: u32 = 0x0204;
/// Filter scale register.
pub const FS1R: u32 = 0x020C;
/// Filter FIFO assignment register.
pub const FFA1R: u32 = 0x0214;
/// Filter activation register.
pub const FA1R: u32 = 0x021C;
/// First register of the filter banks.
pub const FRB: u32 = 0x0240;

/// First match register of a filter bank, from the start of the bank.
pub const FXR1: u32 = 0x00;
/// Second match register of a filter bank, from the start of the bank.
pub const FXR2: u32 = 0x04;
/// Distance from one filter bank to the next.
pub const FR_BASE: u32 = 0x08;

/// The highest filter index.
pub const LAST_FILTER: u32 = 13;

/// Offset of the last register of the block: the second match register of the last filter.
pub const LAST_REGISTER: u32 = 0x02AC;

/// The bound of the two waits of the initialization handshake: the number of status
/// reads after which a wait gives up.
pub const TIMEOUT: u32 = 0x0000_FFFF;

/* Field masks */

pub const BRP_MASK: u32 = MASK_9_BIT;
pub const TS1_MASK: u32 = MASK_4_BIT;
pub const TS2_MASK: u32 = MASK_3_BIT;
pub const SJW_MASK: u32 = MASK_2_BIT;
pub const FMP_MASK: u32 = MASK_2_BIT;
pub const STID_MASK: u32 = MASK_11_BIT;
pub const EXID_MASK: u32 = MASK_29_BIT;
pub const DLC_MASK: u32 = MASK_4_BIT;
pub const FMI_MASK: u32 = MASK_8_BIT;
pub const DATA_MASK: u32 = MASK_8_BIT;

/* Bits */

/// Master control: initialization request.
pub const INRQ_BIT: u32 = BIT_0;
/// Master control: sleep request.
pub const SLRQ_BIT: u32 = BIT_1;
/// Master control: transmit priority by request order.
pub const TXFP_BIT: u32 = BIT_2;
/// Master control: receive FIFO locked on overrun.
pub const RFLM_BIT: u32 = BIT_3;
/// Master control: no automatic retransmission.
pub const NART_BIT: u32 = BIT_4;
/// Master control: automatic wake-up.
pub const AWUM_BIT: u32 = BIT_5;
/// Master control: automatic bus-off recovery.
pub const ABOM_BIT: u32 = BIT_6;
/// Master control: time-triggered communication.
pub const TTCM_BIT: u32 = BIT_7;
/// Master status: initialization acknowledge.
pub const INAK_BIT: u32 = BIT_0;
/// Master status: sleep acknowledge.
pub const SLAK_BIT: u32 = BIT_1;
/// Bit timing: loop-back mode.
pub const LBKM_BIT: u32 = BIT_30;
/// Bit timing: silent mode.
pub const SILM_BIT: u32 = BIT_31;
/// Transmit status: mailbox 0 empty.
pub const TME0_BIT: u32 = BIT_26;
/// Transmit status: mailbox 1 empty.
pub const TME1_BIT: u32 = BIT_27;
/// Transmit status: mailbox 2 empty.
pub const TME2_BIT: u32 = BIT_28;
/// Receive FIFO: release the output mailbox.
pub const RFOM_BIT: u32 = BIT_5;
/// Mailbox identifier: transmit request.
pub const TXRQ_BIT: u32 = BIT_0;
/// Mailbox identifier: remote transmission request.
pub const RTR_BIT: u32 = BIT_1;
/// Mailbox identifier: extended identifier.
pub const IDE_BIT: u32 = BIT_2;
/// Filter master: filter initialization mode.
pub const FINIT: u32 = BIT_0;

/* Field positions */

pub const BRP_OFFSET: u32 = 0;
pub const TS1_OFFSET: u32 = 16;
pub const TS2_OFFSET: u32 = 20;
pub const SJW_OFFSET: u32 = 24;
pub const FMP_OFFSET: u32 = 0;
pub const STID_OFFSET: u32 = 21;
pub const EXID_OFFSET: u32 = 3;
pub const DLC_OFFSET: u32 = 0;
pub const FMI_OFFSET: u32 = 8;
pub const DATA_0_OFFSET: u32 = 0;
pub const DATA_1_OFFSET: u32 = 8;
pub const DATA_2_OFFSET: u32 = 16;
pub const DATA_3_OFFSET: u32 = 24;
pub const DATA_4_OFFSET: u32 = 0;
pub const DATA_5_OFFSET: u32 = 8;
pub const DATA_6_OFFSET: u32 = 16;
pub const DATA_7_OFFSET: u32 = 24;

/// The address of the register that lies `offset` bytes from `base`.
pub open spec fn reg(base: u32, offset: u32) -> u32 {
    (base + offset) as u32
}

/// Whether the whole register block fits in the address space from `base` on.
pub open spec fn block_fits(base: u32) -> bool {
    base + LAST_REGISTER <= u32::MAX
}

} // verus!
