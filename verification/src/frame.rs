//! One CAN message, and the packing of its payload into two 32-bit data registers.

use vstd::prelude::*;
use crate::layout::{DATA_0_OFFSET, DATA_1_OFFSET, DATA_2_OFFSET, DATA_3_OFFSET, DATA_4_OFFSET};
use crate::layout::{DATA_5_OFFSET, DATA_6_OFFSET, DATA_7_OFFSET, DATA_MASK, EXID_MASK};
use crate::layout::STID_MASK;

verus! {

/// What a [`CanMsg`] holds.
pub struct Frame {
    /// Set by a receive that found a message; never looked at by a transmit.
    pub read: bool,
    /// Standard (11-bit) or extended (29-bit) identifier.
    pub id: u32,
    /// Whether the identifier is an extended one.
    pub ide: bool,
    /// Whether this is a remote frame.
    pub rtr: bool,
    /// Number of payload bytes.
    pub dlc: u32,
    /// Index of the filter that let a received message in.
    pub fmi: u32,
    /// The eight payload bytes.
    pub data: Seq<u8>,
}

impl Frame {
    /// The frame that a new message holds: nothing set, all bytes zero.
    pub open spec fn blank() -> Frame {
        Frame {
            read: false,
            id: 0,
            ide: false,
            rtr: false,
            dlc: 0,
            fmi: 0,
            data: Seq::new(8, |i: int| 0u8),
        }
    }

    /// A frame that the bus can carry as it is: at most eight payload bytes, and an
    /// identifier that fits the width it declares.
    pub open spec fn wf(self) -> bool {
        &&& self.data.len() == 8
        &&& self.dlc <= 8
        &&& if self.ide {
            self.id <= EXID_MASK
        } else {
            self.id <= STID_MASK
        }
    }
}

/// The 32-bit word whose four byte lanes, lowest first, are the bytes `first .. first + 4`
/// of `data`.
pub open spec fn word_of(data: Seq<u8>, first: int) -> u32 {
    (data[first] + 0x100 * data[first + 1] + 0x1_0000 * data[first + 2] + 0x100_0000 * data[first
        + 3]) as u32
}

/// Byte lane `n` (0 to 3, lowest first) of `word`.
pub open spec fn lane(word: u32, n: int) -> u8 {
    if n == 0 {
        (word % 0x100) as u8
    } else if n == 1 {
        (word / 0x100 % 0x100) as u8
    } else if n == 2 {
        (word / 0x1_0000 % 0x100) as u8
    } else {
        (word / 0x100_0000 % 0x100) as u8
    }
}

/// The eight bytes held by the byte lanes of `low` and then of `high`.
pub open spec fn bytes_of(low: u32, high: u32) -> Seq<u8> {
    Seq::new(
        8,
        |i: int|
            if i < 4 {
                lane(low, i)
            } else {
                lane(high, i - 4)
            },
    )
}

/// Packs bytes 0 to 3 of a payload into the lanes of the data low register.
pub fn pack_low(data: &[u8; 8]) -> (word: u32)
    ensures
        word == word_of(data@, 0),
{
    let b0: u8 = data[0];
    let b1: u8 = data[1];
    let b2: u8 = data[2];
    let b3: u8 = data[3];
    assert(((b3 as u32) << DATA_3_OFFSET) | ((b2 as u32) << DATA_2_OFFSET) | ((b1 as u32)
        << DATA_1_OFFSET) | ((b0 as u32) << DATA_0_OFFSET) == b0 + 0x100 * b1 + 0x1_0000 * b2
        + 0x100_0000 * b3) by (bit_vector);
    ((b3 as u32) << DATA_3_OFFSET) | ((b2 as u32) << DATA_2_OFFSET) | ((b1 as u32)
        << DATA_1_OFFSET) | ((b0 as u32) << DATA_0_OFFSET)
}

/// Packs bytes 4 to 7 of a payload into the lanes of the data high register.
pub fn pack_high(data: &[u8; 8]) -> (word: u32)
    ensures
        word == word_of(data@, 4),
{
    let b4: u8 = data[4];
    let b5: u8 = data[5];
    let b6: u8 = data[6];
    let b7: u8 = data[7];
    assert(((b7 as u32) << DATA_7_OFFSET) | ((b6 as u32) << DATA_6_OFFSET) | ((b5 as u32)
        << DATA_5_OFFSET) | ((b4 as u32) << DATA_4_OFFSET) == b4 + 0x100 * b5 + 0x1_0000 * b6
        + 0x100_0000 * b7) by (bit_vector);
    ((b7 as u32) << DATA_7_OFFSET) | ((b6 as u32) << DATA_6_OFFSET) | ((b5 as u32)
        << DATA_5_OFFSET) | ((b4 as u32) << DATA_4_OFFSET)
}

/// Unpacks the payload held by the data low and data high registers.
pub fn unpack(low: u32, high: u32) -> (data: [u8; 8])
    ensures
        data@ == bytes_of(low, high),
{
    assert(((low >> DATA_0_OFFSET) & DATA_MASK) == low % 0x100) by (bit_vector);
    assert(((low >> DATA_1_OFFSET) & DATA_MASK) == low / 0x100 % 0x100) by (bit_vector);
    assert(((low >> DATA_2_OFFSET) & DATA_MASK) == low / 0x1_0000 % 0x100) by (bit_vector);
    assert(((low >> DATA_3_OFFSET) & DATA_MASK) == low / 0x100_0000 % 0x100) by (bit_vector);
    assert(((high >> DATA_4_OFFSET) & DATA_MASK) == high % 0x100) by (bit_vector);
    assert(((high >> DATA_5_OFFSET) & DATA_MASK) == high / 0x100 % 0x100) by (bit_vector);
    assert(((high >> DATA_6_OFFSET) & DATA_MASK) == high / 0x1_0000 % 0x100) by (bit_vector);
    assert(((high >> DATA_7_OFFSET) & DATA_MASK) == high / 0x100_0000 % 0x100) by (bit_vector);
    let data: [u8; 8] = [
        ((low >> DATA_0_OFFSET) & DATA_MASK) as u8,
        ((low >> DATA_1_OFFSET) & DATA_MASK) as u8,
        ((low >> DATA_2_OFFSET) & DATA_MASK) as u8,
        ((low >> DATA_3_OFFSET) & DATA_MASK) as u8,
        ((high >> DATA_4_OFFSET) & DATA_MASK) as u8,
        ((high >> DATA_5_OFFSET) & DATA_MASK) as u8,
        ((high >> DATA_6_OFFSET) & DATA_MASK) as u8,
        ((high >> DATA_7_OFFSET) & DATA_MASK) as u8,
    ];
    data
}

/// Unpacking gives back the eight bytes that were packed.
pub proof fn lemma_unpack_packed(data: Seq<u8>)
    requires
        data.len() == 8,
    ensures
        bytes_of(word_of(data, 0), word_of(data, 4)) == data,
{
    lemma_lanes_of_word(data[0], data[1], data[2], data[3]);
    lemma_lanes_of_word(data[4], data[5], data[6], data[7]);
}

/// Each lane of a word made of four bytes holds its byte.
proof fn lemma_lanes_of_word(b0: u8, b1: u8, b2: u8, b3: u8)
    ensures
        ({
            let word = (b0 + 0x100 * b1 + 0x1_0000 * b2 + 0x100_0000 * b3) as u32;
            &&& lane(word, 0) == b0
            &&& lane(word, 1) == b1
            &&& lane(word, 2) == b2
            &&& lane(word, 3) == b3
        }),
{
    let sum = b0 + 0x100 * b1 + 0x1_0000 * b2 + 0x100_0000 * b3;
    let word = sum as u32;
    assert(word == sum);
    assert(word % 0x100 == b0);
    assert(word / 0x100 % 0x100 == b1);
    assert(word / 0x1_0000 % 0x100 == b2);
    assert(word / 0x100_0000 % 0x100 == b3);
}

/// One CAN message: what a transmit sends, or what a receive found.
///
/// A message holds whatever it is given. [`Frame::wf`] tells whether the bus can carry it
/// unchanged; of one that it cannot, a transmit sends what fits the fields of the mailbox.
pub struct CanMsg {
    read: bool,
    id: u32,
    ide: bool,
    rtr: bool,
    dlc: u32,
    fmi: u32,
    data: [u8; 8],
}

impl View for CanMsg {
    type V = Frame;

    closed spec fn view(&self) -> Frame {
        Frame {
            read: self.read,
            id: self.id,
            ide: self.ide,
            rtr: self.rtr,
            dlc: self.dlc,
            fmi: self.fmi,
            data: self.data@,
        }
    }
}

impl CanMsg {
    /// A blank message: a data frame with standard identifier 0 and no payload.
    pub fn init() -> (msg: CanMsg)
        ensures
            msg@ == Frame::blank(),
            msg@.wf(),
    {
        let msg = CanMsg {
            read: false,
            id: 0,
            ide: false,
            rtr: false,
            dlc: 0,
            fmi: 0,
            data: [0;8],
        };
        assert(msg@.data =~= Frame::blank().data);
        msg
    }

    /// The message that a receive found in a FIFO.
    pub(crate) fn received(id: u32, ide: bool, rtr: bool, dlc: u32, fmi: u32, data: [u8; 8]) -> (msg:
        CanMsg)
        ensures
            msg@ == (Frame { read: true, id, ide, rtr, dlc, fmi, data: data@ }),
    {
        CanMsg { read: true, id, ide, rtr, dlc, fmi, data }
    }

    /// A message always has eight payload bytes, whatever its length says.
    pub proof fn lemma_eight_bytes(&self)
        ensures
            self@.data.len() == 8,
    {
    }

    /// Whether a receive found this message.
    pub fn get_read(&self) -> (read: bool)
        ensures
            read == self@.read,
    {
        self.read
    }

    pub fn get_id(&self) -> (id: u32)
        ensures
            id == self@.id,
    {
        self.id
    }

    /// Whether the identifier is an extended one.
    pub fn get_ide(&self) -> (ide: bool)
        ensures
            ide == self@.ide,
    {
        self.ide
    }

    /// Sets the identifier and its width: extended if `ide`, standard if not.
    pub fn set_id(&mut self, id: u32, ide: bool)
        ensures
            final(self)@ == (Frame { id, ide, ..old(self)@ }),
            old(self)@.wf() && id <= (if ide {
                EXID_MASK
            } else {
                STID_MASK
            }) ==> final(self)@.wf(),
    {
        self.id = id;
        self.ide = ide;
    }

    pub fn get_rtr(&self) -> (rtr: bool)
        ensures
            rtr == self@.rtr,
    {
        self.rtr
    }

    /// Makes this a data frame.
    pub fn clr_rtr(&mut self)
        ensures
            final(self)@ == (Frame { rtr: false, ..old(self)@ }),
            old(self)@.wf() ==> final(self)@.wf(),
    {
        self.rtr = false;
    }

    /// Makes this a remote frame.
    pub fn set_rtr(&mut self)
        ensures
            final(self)@ == (Frame { rtr: true, ..old(self)@ }),
            old(self)@.wf() ==> final(self)@.wf(),
    {
        self.rtr = true;
    }

    pub fn get_dlc(&self) -> (dlc: u32)
        ensures
            dlc == self@.dlc,
    {
        self.dlc
    }

    pub fn set_dlc(&mut self, dlc: u32)
        ensures
            final(self)@ == (Frame { dlc, ..old(self)@ }),
            old(self)@.wf() && dlc <= 8 ==> final(self)@.wf(),
    {
        self.dlc = dlc;
    }

    /// Index of the filter that let a received message in.
    pub fn get_fmi(&self) -> (fmi: u32)
        ensures
            fmi == self@.fmi,
    {
        self.fmi
    }

    pub fn get_data(&self) -> (data: [u8; 8])
        ensures
            data@ == self@.data,
    {
        self.data
    }

    pub fn set_data(&mut self, data: [u8; 8])
        ensures
            final(self)@ == (Frame { data: data@, ..old(self)@ }),
            old(self)@.wf() ==> final(self)@.wf(),
    {
        self.data = data;
    }
}

} // verus!
