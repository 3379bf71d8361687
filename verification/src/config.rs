//! What the controller is opened with: mode flags and bit timing.

use vstd::prelude::*;

verus! {

/// The mode flags and bit-timing fields that `open` programs. Each timing field holds the
/// value that the hardware takes: one less than the number of time quanta it stands for.
pub struct CanInit {
    /// Transmit priority by request order instead of by identifier.
    pub txfp: bool,
    /// Receive FIFO locked on overrun: a message that finds the FIFO full is dropped.
    pub rflm: bool,
    /// No automatic retransmission.
    pub nart: bool,
    /// Automatic wake-up on bus activity.
    pub awum: bool,
    /// Automatic recovery from bus-off.
    pub abom: bool,
    /// Time-triggered communication mode.
    pub ttcm: bool,
    /// Baud rate prescaler.
    pub brp: u32,
    /// Time segment 1.
    pub ts1: u32,
    /// Time segment 2.
    pub ts2: u32,
    /// Resynchronization jump width.
    pub sjw: u32,
}

impl CanInit {
    /// The usual configuration: automatic bus-off recovery and no other mode, 16 time
    /// quanta to the bit (1 + 13 + 2), and the prescaler left at its lowest.
    pub fn init() -> (ci: CanInit)
        ensures
            ci == (CanInit {
                txfp: false,
                rflm: false,
                nart: false,
                awum: false,
                abom: true,
                ttcm: false,
                brp: 0,
                ts1: 12,
                ts2: 1,
                sjw: 0,
            }),
    {
        CanInit {
            txfp: false,
            rflm: false,
            nart: false,
            awum: false,
            abom: true,
            ttcm: false,
            brp: 0,
            ts1: 12,
            ts2: 1,
            sjw: 0,
        }
    }
}

/// The bus speeds for which a prescaler is known.
pub enum BaudRate {
    Baud125kB,
    Baud250kB,
    Baud500kB,
    Baud1MB,
}

/// The bus speed of `br`, in kilobits per second.
pub open spec fn kilobits(br: BaudRate) -> int {
    match br {
        BaudRate::Baud125kB => 125,
        BaudRate::Baud250kB => 250,
        BaudRate::Baud500kB => 500,
        BaudRate::Baud1MB => 1000,
    }
}

/// The prescaler divisor for the bus speed `br`, with 16 time quanta to the bit and an
/// input clock of 32 MHz: the number of clock periods in one time quantum.
pub fn baud(br: BaudRate) -> (divisor: u32)
    ensures
        divisor * 16 * kilobits(br) == 32_000,
        divisor == match br {
            BaudRate::Baud125kB => 16u32,
            BaudRate::Baud250kB => 8u32,
            BaudRate::Baud500kB => 4u32,
            BaudRate::Baud1MB => 2u32,
        },
{
    match br {
        BaudRate::Baud125kB => 16,
        BaudRate::Baud250kB => 8,
        BaudRate::Baud500kB => 4,
        BaudRate::Baud1MB => 2,
    }
}

} // verus!
