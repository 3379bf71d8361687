//! The two services of the interrupt controller that a peripheral driver needs: enabling
//! an interrupt line and giving it a priority.

use vstd::prelude::*;
use crate::bus::{Access, RegisterBus, Registers, after, sets_bit};

verus! {

/// Offset of the first interrupt set-enable register, one bit to the line.
pub const ISER: u32 = 0x0000;

/// Offset of the first interrupt priority register, one byte to the line.
pub const IPR: u32 = 0x0300;

/// The number of interrupt set-enable registers.
pub const ISER_LEN: usize = 8;

/// The number of interrupt priority registers.
pub const IPR_LEN: u32 = 240;

/// The number of interrupt lines to a set-enable register.
pub const U32SIZE: u32 = 32;

/// Whether the registers of the interrupt controller fit in the address space from `base`
/// on.
pub open spec fn nvic_fits(base: u32) -> bool {
    base + IPR + IPR_LEN <= u32::MAX
}

/// The index of the set-enable register that holds the bit of line `irq_num`.
pub open spec fn enable_index(irq_num: u32) -> int {
    irq_num as int / 32
}

/// The bit of line `irq_num` in its set-enable register.
pub open spec fn enable_bit(irq_num: u32) -> u32 {
    1u32 << (irq_num % 32)
}

/// The address of the set-enable register that holds the bit of line `irq_num`.
pub open spec fn enable_register(base: u32, irq_num: u32) -> u32 {
    (base + ISER + 4 * enable_index(irq_num)) as u32
}

/// The address of the priority register of line `irq_num`.
pub open spec fn priority_register(base: u32, irq_num: u32) -> u32 {
    (base + IPR + irq_num) as u32
}

/// The priority byte of a line: the two low bits of `priority` in bits 7 and 6, the two
/// low bits of `sub_priority` in bits 5 and 4, and nothing in the low four bits.
pub open spec fn priority_byte(priority: u8, sub_priority: u8) -> u8 {
    ((priority % 4) * 64 + (sub_priority % 4) * 16) as u8
}

/// `t` enables line `irq_num`: it sets the bit of the line in its set-enable register. A
/// line that has no set-enable register is passed over, and `t` is empty.
pub open spec fn enables(base: u32, irq_num: u32, t: Seq<Access>) -> bool {
    if enable_index(irq_num) < ISER_LEN {
        sets_bit(t, enable_register(base, irq_num), enable_bit(irq_num))
    } else {
        t.len() == 0
    }
}

/// `t` gives line `irq_num` its priority: one write of the priority byte to the priority
/// register of the line. A line that has no priority register is passed over, and `t` is
/// empty.
pub open spec fn prioritizes(
    base: u32,
    irq_num: u32,
    priority: u8,
    sub_priority: u8,
    t: Seq<Access>,
) -> bool {
    if irq_num < IPR_LEN {
        t == seq![
            Access::WriteByte {
                addr: priority_register(base, irq_num),
                byte: priority_byte(priority, sub_priority),
            },
        ]
    } else {
        t.len() == 0
    }
}

/// Where the registers of the interrupt controller lie.
pub struct NvicMap {
    base: u32,
    iser: u32,
    ipr: u32,
}

impl NvicMap {
    #[verifier::type_invariant]
    closed spec fn inv(&self) -> bool {
        &&& nvic_fits(self.base)
        &&& self.iser == self.base + ISER
        &&& self.ipr == self.base + IPR
    }
}

/// The handle of the interrupt controller.
pub struct Nvic<B: RegisterBus> {
    map: NvicMap,
    registers: Registers<B>,
}

impl<B: RegisterBus> Nvic<B> {
    /// The address of the first set-enable register. A handle is made only for registers
    /// that lie within the address space; of a value that is no such handle, this is 0.
    pub closed spec fn base(&self) -> u32 {
        if nvic_fits(self.map.base) {
            self.map.base
        } else {
            0
        }
    }

    /// The registers of a handle lie within the address space.
    pub proof fn lemma_nvic_fits(&self)
        ensures
            nvic_fits(self.base()),
    {
    }

    /// The bus as it is now.
    pub closed spec fn device(&self) -> B {
        self.registers.device()
    }

    /// Every access made on the bus so far, oldest first.
    pub closed spec fn trace(&self) -> Seq<Access> {
        self.registers.trace()
    }

    /// The accesses made after the state `earlier`.
    pub open spec fn since(&self, earlier: &Self) -> Seq<Access> {
        after(self.trace(), earlier.trace())
    }

    /// This is the handle `earlier` after further accesses.
    pub open spec fn extends(&self, earlier: &Self) -> bool {
        self.base() == earlier.base() && earlier.trace().is_prefix_of(self.trace())
    }

    /// Makes the handle of the interrupt controller whose set-enable registers start at
    /// `base`. Nothing is accessed.
    pub fn init(base: u32, bus: B) -> (nvic: Nvic<B>)
        requires
            nvic_fits(base),
        ensures
            nvic.base() == base,
            nvic.device() == bus,
            nvic.trace() == bus.accesses(),
    {
        Nvic {
            map: NvicMap { base, iser: base + ISER, ipr: base + IPR },
            registers: Registers::new(bus),
        }
    }

    /// The bus, to look at.
    pub fn bus(&self) -> (bus: &B)
        ensures
            *bus == self.device(),
            bus.accesses() == self.trace(),
    {
        self.registers.bus()
    }

    /// Enables interrupt line `irq_num`.
    pub fn set_interrupt(&mut self, irq_num: u32)
        ensures
            final(self).extends(old(self)),
            enables(old(self).base(), irq_num, final(self).since(old(self))),
    {
        proof {
            use_type_invariant(&self.map);
        }
        let index = self.get_reg(irq_num);
        if index < ISER_LEN {
            let bit = self.get_bit(irq_num);
            let offset: u32 = 4 * (irq_num / U32SIZE);
            self.registers.set_bit(self.map.iser + offset, bit);
        }
    }

    /// Gives interrupt line `irq_num` the priority `priority` and, within it, the
    /// sub-priority `sub_priority`; of each, the two low bits count.
    pub fn set_priority(&mut self, irq_num: u32, priority: u8, sub_priority: u8)
        ensures
            final(self).extends(old(self)),
            prioritizes(
                old(self).base(),
                irq_num,
                priority,
                sub_priority,
                final(self).since(old(self)),
            ),
    {
        proof {
            use_type_invariant(&self.map);
        }
        if irq_num < IPR_LEN {
            let byte = self.get_priority(priority, sub_priority);
            self.registers.set_raw_byte(self.map.ipr + irq_num, byte);
            proof {
                assert(self.since(old(self)) =~= seq![
                    Access::WriteByte {
                        addr: priority_register(self.map.base, irq_num),
                        byte: priority_byte(priority, sub_priority),
                    },
                ]);
            }
        }
    }

    /// The index of the set-enable register that holds the bit of line `irq_num`.
    fn get_reg(&self, irq_num: u32) -> (index: usize)
        ensures
            index == enable_index(irq_num),
    {
        (irq_num / U32SIZE) as usize
    }

    /// The bit of line `irq_num` in its set-enable register.
    fn get_bit(&self, irq_num: u32) -> (bit: u32)
        ensures
            bit == enable_bit(irq_num),
    {
        1 << (irq_num % U32SIZE)
    }

    /// The priority byte for `priority` and `sub_priority`.
    fn get_priority(&self, priority: u8, sub_priority: u8) -> (byte: u8)
        ensures
            byte == priority_byte(priority, sub_priority),
    {
        assert(((priority << 6u8) | ((sub_priority & 0x3) << 4u8)) == ((priority % 4) * 64 + (
        sub_priority % 4) * 16) as u8) by (bit_vector);
        (priority << 6) | ((sub_priority & 0x3) << 4)
    }
}

} // verus!
