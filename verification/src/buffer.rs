//! A borrowed byte slice with a cursor, from which instructions are decoded
//! sequentially. Out-of-range reads are a programming error and are ruled
//! out by the preconditions.

use vstd::prelude::*;

use crate::decode::{spec_decode, spec_instr_len};
use crate::model::Instruction;

verus! {

/// The instruction decoded from `data` at position `c`: the opcode byte and
/// as many following bytes as that opcode calls for.
pub open spec fn spec_decode_at(data: Seq<u8>, c: int) -> Instruction {
    spec_decode(
        data[c],
        if c + 1 < data.len() { data[c + 1] } else { 0 },
        if c + 2 < data.len() { data[c + 2] } else { 0 },
    )
}

pub struct InstructionBuffer<'a> {
    data: &'a [u8],
    cursor: usize,
}

impl<'a> InstructionBuffer<'a> {
    pub closed spec fn spec_data(&self) -> Seq<u8> {
        self.data@
    }

    pub closed spec fn spec_cursor(&self) -> int {
        self.cursor as int
    }

    pub fn new(data: &'a [u8]) -> (r: Self)
        ensures
            r.spec_data() == data@,
            r.spec_cursor() == 0,
    {
        Self { data, cursor: 0 }
    }

    pub fn new_at(data: &'a [u8], cursor: usize) -> (r: Self)
        ensures
            r.spec_data() == data@,
            r.spec_cursor() == cursor,
    {
        Self { data, cursor }
    }
}

impl InstructionBuffer<'_> {
    pub fn cursor(&self) -> (r: usize)
        ensures
            r == self.spec_cursor(),
    {
        self.cursor
    }

    pub fn is_empty(&self) -> (r: bool)
        requires
            self.spec_cursor() <= self.spec_data().len(),
        ensures
            r == (self.spec_cursor() == self.spec_data().len()),
    {
        self.cursor == self.data.len()
    }

    pub fn decode(&mut self) -> (r: Instruction)
        requires
            old(self).spec_cursor() + spec_instr_len(
                old(self).spec_data()[old(self).spec_cursor()],
            ) <= old(self).spec_data().len(),
        ensures
            final(self).spec_data() == old(self).spec_data(),
            r == spec_decode_at(old(self).spec_data(), old(self).spec_cursor()),
            final(self).spec_cursor() == old(self).spec_cursor() + spec_instr_len(
                old(self).spec_data()[old(self).spec_cursor()],
            ),
    {
        Instruction::decode(self)
    }

    pub fn read_u8(&mut self) -> (r: u8)
        requires
            old(self).spec_cursor() + 1 <= old(self).spec_data().len(),
        ensures
            final(self).spec_data() == old(self).spec_data(),
            final(self).spec_cursor() == old(self).spec_cursor() + 1,
            r == old(self).spec_data()[old(self).spec_cursor()],
    {
        let ret = self.data[self.cursor];
        self.cursor = self.cursor + 1;
        ret
    }

    pub fn read_u16(&mut self) -> (r: u16)
        requires
            old(self).spec_cursor() + 2 <= old(self).spec_data().len(),
        ensures
            final(self).spec_data() == old(self).spec_data(),
            final(self).spec_cursor() == old(self).spec_cursor() + 2,
            r == old(self).spec_data()[old(self).spec_cursor()]
                + old(self).spec_data()[old(self).spec_cursor() + 1] * 0x100,
    {
        let lo = self.data[self.cursor];
        let hi = self.data[self.cursor + 1];
        self.cursor = self.cursor + 2;
        assert(((hi as u16) << 8) == hi * 0x100) by (bit_vector);
        lo as u16 + ((hi as u16) << 8)
    }
}

impl Instruction {
    /// Decode one instruction at the buffer's cursor, consuming exactly the
    /// bytes that the opcode calls for (1 to 3).
    pub fn decode(buffer: &mut InstructionBuffer<'_>) -> (r: Self)
        requires
            old(buffer).spec_cursor() + spec_instr_len(
                old(buffer).spec_data()[old(buffer).spec_cursor()],
            ) <= old(buffer).spec_data().len(),
        ensures
            final(buffer).spec_data() == old(buffer).spec_data(),
            r == spec_decode_at(old(buffer).spec_data(), old(buffer).spec_cursor()),
            final(buffer).spec_cursor() == old(buffer).spec_cursor() + spec_instr_len(
                old(buffer).spec_data()[old(buffer).spec_cursor()],
            ),
    {
        let opcode = buffer.read_u8();
        let len = Instruction::length_of_opcode(opcode);
        let b1: u8 = if len >= 2 { buffer.read_u8() } else { 0 };
        let b2: u8 = if len == 3 { buffer.read_u8() } else { 0 };
        Instruction::decode_bytes(opcode, b1, b2)
    }
}

} // verus!
