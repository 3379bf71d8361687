//! Register access through a bus, with a record of every access made.
//!
//! Hardware registers are not memory: a read may return something else each time, and a
//! write may set the device going. So what a driver operation does is not a change of
//! some state that the driver holds, but the sequence of reads and writes that it makes.
//! A [`RegisterBus`] has that sequence as its record, and every operation on registers
//! states what it adds to it, whatever the reads return.

use vstd::prelude::*;
use crate::common::{bit_is_set, extract_field, field_of, insert_field, test_bit, with_bit};
use crate::common::{with_bit_clear, with_bit_set, with_field};

verus! {

/// The way to the hardware: volatile accesses to registers, by absolute address.
///
/// A read may change the device and may return a different value every time, so nothing
/// is promised of the value read. What a bus does promise is its record: every call is
/// one access, entered behind those made before. That is all that the drivers are proved
/// from, and so what they are proved to do is what reaches the bus.
pub trait RegisterBus {
    /// Every access made on this bus so far, oldest first.
    ///
    /// A bus that is verified says what its record is, as
    /// [`RegisterBank`](crate::bank::RegisterBank) does. One that is not, such as the bus
    /// that reaches real registers, leaves this as it stands here, and the record is then
    /// taken to be the history of the calls made on it.
    closed spec fn accesses(&self) -> Seq<Access> {
        arbitrary()
    }

    /// Reads the 32-bit register at `addr`.
    fn read(&mut self, addr: u32) -> (value: u32)
        ensures
            final(self).accesses() == old(self).accesses().push(Access::Read { addr, value }),
    ;

    /// Writes `value` to the 32-bit register at `addr`.
    fn write(&mut self, addr: u32, value: u32)
        ensures
            final(self).accesses() == old(self).accesses().push(Access::Write { addr, value }),
    ;

    /// Writes `value` to the 8-bit register at `addr`.
    fn write_byte(&mut self, addr: u32, value: u8)
        ensures
            final(self).accesses() == old(self).accesses().push(
                Access::WriteByte { addr, byte: value },
            ),
    ;
}

/// One access to a register, with the value that was read or written.
pub enum Access {
    Read { addr: u32, value: u32 },
    Write { addr: u32, value: u32 },
    WriteByte { addr: u32, byte: u8 },
}

impl Access {
    /// The address of the register that was accessed.
    pub open spec fn addr(self) -> u32 {
        match self {
            Access::Read { addr, .. } => addr,
            Access::Write { addr, .. } => addr,
            Access::WriteByte { addr, .. } => addr,
        }
    }

    /// The value that was read or written, as a 32-bit word.
    pub open spec fn word(self) -> u32 {
        match self {
            Access::Read { value, .. } => value,
            Access::Write { value, .. } => value,
            Access::WriteByte { byte, .. } => byte as u32,
        }
    }

    /// Whether the access changed a register.
    pub open spec fn is_write(self) -> bool {
        !(self is Read)
    }
}

/// The value that the `i`-th access of `t` carried.
pub open spec fn seen(t: Seq<Access>, i: int) -> u32 {
    t[i].word()
}

/// No access of `t` changed a register.
pub open spec fn no_writes(t: Seq<Access>) -> bool {
    forall|i: int| 0 <= i < t.len() ==> !(#[trigger] t[i]).is_write()
}

/// A read of the register at `addr` that returned `before`, followed by a write of `after`
/// to the same register.
pub open spec fn update(addr: u32, before: u32, after: u32) -> Seq<Access> {
    seq![Access::Read { addr, value: before }, Access::Write { addr, value: after }]
}

/// `t` is one read of the register at `addr`.
pub open spec fn is_read(t: Seq<Access>, addr: u32) -> bool {
    t.len() == 1 && t[0] is Read && t[0].addr() == addr
}

/// `t` is a read of the register at `addr` and a write of what was read with `bit` set.
pub open spec fn sets_bit(t: Seq<Access>, addr: u32, bit: u32) -> bool {
    t == update(addr, seen(t, 0), with_bit_set(seen(t, 0), bit))
}

/// `t` is a read of the register at `addr` and a write of what was read with `bit` cleared.
pub open spec fn clears_bit(t: Seq<Access>, addr: u32, bit: u32) -> bool {
    t == update(addr, seen(t, 0), with_bit_clear(seen(t, 0), bit))
}

/// `t` is a read of the register at `addr` and a write of what was read with `bit` set if
/// `on`, cleared if not.
pub open spec fn puts_bit(t: Seq<Access>, addr: u32, bit: u32, on: bool) -> bool {
    t == update(addr, seen(t, 0), with_bit(seen(t, 0), bit, on))
}

/// `t` is a read of the register at `addr` and a write of what was read with the field of
/// width `mask` at bit `offset` replaced by the low bits of `field`.
pub open spec fn sets_field(t: Seq<Access>, addr: u32, offset: u32, mask: u32, field: u32) -> bool {
    t == update(addr, seen(t, 0), with_field(seen(t, 0), offset, mask, field))
}

/// `t` is a bounded wait for `bit` of the register at `addr` to reach `level`: at most
/// `timeout` reads of that register and nothing else, each read but the last showing the
/// other level. The wait has `reached` the level when the last read shows it, and has
/// given up only after exactly `timeout` reads.
pub open spec fn is_wait(
    t: Seq<Access>,
    addr: u32,
    bit: u32,
    level: bool,
    timeout: u32,
    reached: bool,
) -> bool {
    &&& t.len() <= timeout
    &&& forall|i: int| 0 <= i < t.len() ==> (#[trigger] t[i]) is Read && t[i].addr() == addr
    &&& forall|i: int| 0 <= i < t.len() - 1 ==> bit_is_set(#[trigger] seen(t, i), bit) != level
    &&& reached == (t.len() > 0 && bit_is_set(seen(t, t.len() - 1), bit) == level)
    &&& !reached ==> t.len() == timeout
}

/// What was accessed after `earlier`, when `now` is the record later on.
pub open spec fn after(now: Seq<Access>, earlier: Seq<Access>) -> Seq<Access> {
    now.skip(earlier.len() as int)
}

/// The registers behind a bus, with the operations that drivers are made of.
pub struct Registers<B> {
    bus: B,
}

impl<B: RegisterBus> Registers<B> {
    /// Every access made on the bus so far, oldest first.
    pub closed spec fn trace(&self) -> Seq<Access> {
        self.bus.accesses()
    }

    /// The accesses made after the state `earlier`.
    pub open spec fn since(&self, earlier: &Self) -> Seq<Access> {
        after(self.trace(), earlier.trace())
    }

    /// The record of `self` is the record of `earlier` with further accesses behind it.
    pub open spec fn extends(&self, earlier: &Self) -> bool {
        earlier.trace().is_prefix_of(self.trace())
    }

    /// The bus as it is now.
    pub closed spec fn device(&self) -> B {
        self.bus
    }

    /// Takes the bus, with the record it has.
    pub fn new(bus: B) -> (regs: Self)
        ensures
            regs.device() == bus,
            regs.trace() == bus.accesses(),
    {
        Registers { bus }
    }

    /// The bus, to look at.
    pub fn bus(&self) -> (bus: &B)
        ensures
            *bus == self.device(),
            bus.accesses() == self.trace(),
    {
        &self.bus
    }

    /// Reads the whole register at `addr`.
    pub fn get_raw(&mut self, addr: u32) -> (value: u32)
        ensures
            final(self).trace() == old(self).trace().push(Access::Read { addr, value }),
            final(self).extends(old(self)),
            final(self).since(old(self)) == seq![Access::Read { addr, value }],
    {
        let value = self.bus.read(addr);
        assert(self.since(old(self)) =~= seq![Access::Read { addr, value }]);
        value
    }

    /// Writes the whole register at `addr`.
    pub fn set_raw(&mut self, addr: u32, value: u32)
        ensures
            final(self).trace() == old(self).trace().push(Access::Write { addr, value }),
            final(self).extends(old(self)),
            final(self).since(old(self)) == seq![Access::Write { addr, value }],
    {
        self.bus.write(addr, value);
        assert(self.since(old(self)) =~= seq![Access::Write { addr, value }]);
    }

    /// Writes the 8-bit register at `addr`.
    pub fn set_raw_byte(&mut self, addr: u32, value: u8)
        ensures
            final(self).trace() == old(self).trace().push(Access::WriteByte { addr, byte: value }),
            final(self).extends(old(self)),
            final(self).since(old(self)) == seq![Access::WriteByte { addr, byte: value }],
    {
        self.bus.write_byte(addr, value);
        assert(self.since(old(self)) =~= seq![Access::WriteByte { addr, byte: value }]);
    }

    /// Reads the register at `addr` and tells whether `bit` is set in it.
    pub fn get_bit(&mut self, addr: u32, bit: u32) -> (set: bool)
        ensures
            final(self).extends(old(self)),
            is_read(final(self).since(old(self)), addr),
            set == bit_is_set(seen(final(self).since(old(self)), 0), bit),
    {
        let value = self.get_raw(addr);
        test_bit(value, bit)
    }

    /// Sets `bit` in the register at `addr`, leaving the other bits as they were read.
    pub fn set_bit(&mut self, addr: u32, bit: u32)
        ensures
            final(self).extends(old(self)),
            sets_bit(final(self).since(old(self)), addr, bit),
    {
        let value = self.get_raw(addr);
        self.set_raw(addr, value | bit);
        proof {
            let t = self.since(old(self));
            assert(t =~= update(addr, value, with_bit_set(value, bit)));
        }
    }

    /// Clears `bit` in the register at `addr`, leaving the other bits as they were read.
    pub fn clr_bit(&mut self, addr: u32, bit: u32)
        ensures
            final(self).extends(old(self)),
            clears_bit(final(self).since(old(self)), addr, bit),
    {
        let value = self.get_raw(addr);
        self.set_raw(addr, value & !bit);
        proof {
            let t = self.since(old(self));
            assert(t =~= update(addr, value, with_bit_clear(value, bit)));
        }
    }

    /// Sets `bit` in the register at `addr` if `on`, clears it if not.
    pub fn put_bit(&mut self, addr: u32, bit: u32, on: bool)
        ensures
            final(self).extends(old(self)),
            puts_bit(final(self).since(old(self)), addr, bit, on),
    {
        if on {
            self.set_bit(addr, bit);
        } else {
            self.clr_bit(addr, bit);
        }
    }

    /// Reads the register at `addr` and returns its field of width `mask` at bit `offset`.
    pub fn get_field(&mut self, addr: u32, offset: u32, mask: u32) -> (field: u32)
        requires
            offset < 32,
        ensures
            final(self).extends(old(self)),
            is_read(final(self).since(old(self)), addr),
            field == field_of(seen(final(self).since(old(self)), 0), offset, mask),
    {
        let value = self.get_raw(addr);
        extract_field(value, offset, mask)
    }

    /// Replaces the field of width `mask` at bit `offset` of the register at `addr` by the
    /// low bits of `field`, leaving the other bits as they were read.
    pub fn set_field(&mut self, addr: u32, offset: u32, mask: u32, field: u32)
        requires
            offset < 32,
        ensures
            final(self).extends(old(self)),
            sets_field(final(self).since(old(self)), addr, offset, mask, field),
    {
        let value = self.get_raw(addr);
        self.set_raw(addr, insert_field(value, offset, mask, field));
        proof {
            let t = self.since(old(self));
            assert(t =~= update(addr, value, with_field(value, offset, mask, field)));
        }
    }

    /// Reads the register at `addr` until `bit` shows `level`, at most `timeout` times,
    /// and tells whether it did.
    pub fn wait_for_bit(&mut self, addr: u32, bit: u32, level: bool, timeout: u32) -> (reached:
        bool)
        ensures
            final(self).extends(old(self)),
            is_wait(final(self).since(old(self)), addr, bit, level, timeout, reached),
    {
        let mut wait: u32 = 0;
        while wait < timeout
            invariant
                wait <= timeout,
                self.extends(old(self)),
                self.since(old(self)).len() == wait,
                forall|i: int|
                    0 <= i < wait ==> (#[trigger] self.since(old(self))[i]) is Read
                        && self.since(old(self))[i].addr() == addr,
                forall|i: int|
                    0 <= i < wait ==> bit_is_set(#[trigger] seen(self.since(old(self)), i), bit)
                        != level,
            decreases timeout - wait,
        {
            let ghost before = self.since(old(self));
            let set = self.get_bit(addr, bit);
            proof {
                let now = self.since(old(self));
                assert(forall|i: int| 0 <= i < wait ==> now[i] == before[i]);
                assert(forall|i: int| 0 <= i < wait ==> seen(now, i) == seen(before, i));
            }
            if set == level {
                return true;
            }
            wait += 1;
        }
        false
    }
}

} // verus!
