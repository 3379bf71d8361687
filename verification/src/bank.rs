//! A register bank made of plain memory: a bus for running the drivers without hardware.

use vstd::prelude::*;
use crate::bus::{Access, RegisterBus};
use crate::common::{MASK_8_BIT, insert_field, with_field};

verus! {

/// The index of the word that holds the byte at `addr`, in a bank of `len` words that
/// starts at `base`, if the bank has that byte.
pub open spec fn slot(base: u32, len: nat, addr: u32) -> Option<int> {
    if addr >= base && (addr - base) / 4 < len {
        Some((addr - base) / 4)
    } else {
        None
    }
}

/// The contents of a bank after `value` was stored in the word at `addr`: a word of the
/// bank changes only if `addr` is the address of its first byte.
pub open spec fn stored(words: Seq<u32>, base: u32, addr: u32, value: u32) -> Seq<u32> {
    match slot(base, words.len(), addr) {
        Some(i) if (addr - base) % 4 == 0 => words.update(i, value),
        _ => words,
    }
}

/// The contents of a bank after `byte` was stored at `addr`: the byte lane of the word
/// that holds the byte changes, and nothing else.
pub open spec fn stored_byte(words: Seq<u32>, base: u32, addr: u32, byte: u8) -> Seq<u32> {
    match slot(base, words.len(), addr) {
        Some(i) => words.update(
            i,
            with_field(words[i], (8 * ((addr - base) % 4)) as u32, MASK_8_BIT, byte as u32),
        ),
        None => words,
    }
}

/// A block of 32-bit registers that keep what is written to them, from a base address on.
/// A register outside the block reads as 0 and takes no write.
pub struct RegisterBank {
    base: u32,
    words: Vec<u32>,
    log: Ghost<Seq<Access>>,
}

impl RegisterBank {
    /// The address of the first register.
    pub closed spec fn base(&self) -> u32 {
        self.base
    }

    /// What the registers hold, the first register first.
    pub closed spec fn words(&self) -> Seq<u32> {
        self.words@
    }

    /// What the register at `addr` holds; 0 if `addr` is not the address of a register of
    /// the bank.
    pub open spec fn holds(&self, addr: u32) -> u32 {
        match slot(self.base(), self.words().len(), addr) {
            Some(i) if (addr - self.base()) % 4 == 0 => self.words()[i],
            _ => 0,
        }
    }

    /// A bank of `len` registers from `base` on, all holding 0, with nothing accessed.
    pub fn new(base: u32, len: usize) -> (bank: RegisterBank)
        ensures
            bank.base() == base,
            bank.words() == Seq::new(len as nat, |i: int| 0u32),
            bank.accesses() == Seq::<Access>::empty(),
    {
        let mut words: Vec<u32> = Vec::new();
        let mut i: usize = 0;
        while i < len
            invariant
                i <= len,
                words@ == Seq::new(i as nat, |k: int| 0u32),
            decreases len - i,
        {
            words.push(0);
            i += 1;
            assert(words@ =~= Seq::new(i as nat, |k: int| 0u32));
        }
        RegisterBank { base, words, log: Ghost(Seq::empty()) }
    }

    /// The place of the byte at `addr` in the bank: the index of its word and the number
    /// of its lane.
    fn locate(&self, addr: u32) -> (place: Option<(usize, u32)>)
        ensures
            match place {
                Some((i, lane)) => slot(self.base(), self.words().len(), addr) == Some(i as int)
                    && lane == (addr - self.base()) % 4,
                None => slot(self.base(), self.words().len(), addr) is None,
            },
    {
        if addr >= self.base {
            let offset = addr - self.base;
            let index = offset / 4;
            if (index as usize) < self.words.len() {
                return Some((index as usize, offset % 4));
            }
        }
        None
    }

    /// Looks at the register at `addr`, without a bus access.
    pub fn peek(&self, addr: u32) -> (value: u32)
        ensures
            value == self.holds(addr),
    {
        match self.locate(addr) {
            Some((i, lane)) => if lane == 0 {
                self.words[i]
            } else {
                0
            },
            None => 0,
        }
    }

    /// Puts `value` in the register at `addr`, without a bus access: what the hardware
    /// would do on its own.
    pub fn poke(&mut self, addr: u32, value: u32)
        ensures
            final(self).base() == old(self).base(),
            final(self).words() == stored(old(self).words(), old(self).base(), addr, value),
            final(self).accesses() == old(self).accesses(),
    {
        match self.locate(addr) {
            Some((i, lane)) => if lane == 0 {
                self.words.set(i, value);
            },
            None => {},
        }
    }
}

impl RegisterBus for RegisterBank {
    closed spec fn accesses(&self) -> Seq<Access> {
        self.log@
    }

    /// Returns what the register at `addr` holds, and changes no register.
    fn read(&mut self, addr: u32) -> (value: u32)
        ensures
            value == old(self).holds(addr),
            final(self).base() == old(self).base(),
            final(self).words() == old(self).words(),
    {
        let value = self.peek(addr);
        self.log = Ghost(self.log@.push(Access::Read { addr, value }));
        value
    }

    /// Stores `value` in the register at `addr`.
    fn write(&mut self, addr: u32, value: u32)
        ensures
            final(self).base() == old(self).base(),
            final(self).words() == stored(old(self).words(), old(self).base(), addr, value),
    {
        self.poke(addr, value);
        self.log = Ghost(self.log@.push(Access::Write { addr, value }));
    }

    /// Stores `value` in the byte at `addr`.
    fn write_byte(&mut self, addr: u32, value: u8)
        ensures
            final(self).base() == old(self).base(),
            final(self).words() == stored_byte(old(self).words(), old(self).base(), addr, value),
    {
        match self.locate(addr) {
            Some((i, lane)) => {
                let word = insert_field(self.words[i], 8 * lane, MASK_8_BIT, value as u32);
                self.words.set(i, word);
            },
            None => {},
        }
        self.log = Ghost(self.log@.push(Access::WriteByte { addr, byte: value }));
    }
}

} // verus!
