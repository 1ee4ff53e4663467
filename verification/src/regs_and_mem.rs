//! The register file together with the 64 KiB memory image: indirect access
//! through HL, 16-bit words in memory, and the stack operations.
//!
//! Addresses are 16-bit; the second byte of a 16-bit word wraps around the
//! top of memory, as the address bus does.

use vstd::prelude::*;

use crate::model::{Register, SmallRegisterPair};
use crate::registers::{spec_hi, spec_hl, spec_lo, spec_u16_of, Registers};

verus! {

pub const MEMORY_SIZE: usize = 0x1_0000;

/// `x` reduced modulo 2^16.
pub open spec fn spec_wrap16(x: int) -> u16 {
    (((x % 0x1_0000) + 0x1_0000) % 0x1_0000) as u16
}

/// The 16-bit little-endian word at `addr`: low byte at `addr`, high byte at
/// the following address, wrapping at the top of memory.
pub open spec fn spec_mem_u16(mem: Seq<u8>, addr: u16) -> u16 {
    spec_u16_of(mem[addr as int], mem[spec_wrap16(addr + 1) as int])
}

/// `mem` with the 16-bit word `value` stored at `addr` little-endian.
pub open spec fn spec_mem_set_u16(mem: Seq<u8>, addr: u16, value: u16) -> Seq<u8> {
    mem.update(addr as int, spec_lo(value)).update(spec_wrap16(addr + 1) as int, spec_hi(value))
}

/// The address held by a small pair: the first register is the high byte.
pub open spec fn spec_small_pair(r: Registers, pair: SmallRegisterPair) -> u16 {
    match pair {
        SmallRegisterPair::Bc => spec_u16_of(r.c, r.b),
        SmallRegisterPair::De => spec_u16_of(r.e, r.d),
    }
}

pub struct RegistersAndMemory {
    pub registers: Registers,
    pub memory: Vec<u8>,
}

/// The registers and memory after a push: the stack pointer moves down by
/// two (wrapping), then the value is stored at the new stack pointer.
pub open spec fn spec_push(regs: Registers, mem: Seq<u8>, value: u16) -> (Registers, Seq<u8>) {
    let sp = spec_wrap16(regs.stack_pointer - 2);
    (Registers { stack_pointer: sp, ..regs }, spec_mem_set_u16(mem, sp, value))
}

/// The value a pop returns and the registers afterwards: the word at the
/// stack pointer is read, then the stack pointer moves up by two (wrapping).
pub open spec fn spec_pop(regs: Registers, mem: Seq<u8>) -> (Registers, u16) {
    (
        Registers { stack_pointer: spec_wrap16(regs.stack_pointer + 2), ..regs },
        spec_mem_u16(mem, regs.stack_pointer),
    )
}

/// Pushing a value and popping it back returns that value, leaves the stack
/// pointer where it started, and touches no register besides the stack
/// pointer.
pub proof fn lemma_push_pop_round_trip(regs: Registers, mem: Seq<u8>, value: u16)
    requires
        mem.len() == MEMORY_SIZE,
    ensures
        ({
            let (regs1, mem1) = spec_push(regs, mem, value);
            let (regs2, popped) = spec_pop(regs1, mem1);
            &&& popped == value
            &&& regs2 == regs
        }),
{
    let (regs1, mem1) = spec_push(regs, mem, value);
    let sp = spec_wrap16(regs.stack_pointer - 2);
    assert(spec_wrap16(sp + 1) != sp as int);
    assert(spec_wrap16(sp + 2) == regs.stack_pointer);
    assert(spec_u16_of(spec_lo(value), spec_hi(value)) == value);
    assert(regs == Registers { stack_pointer: regs.stack_pointer, ..regs });
}

impl RegistersAndMemory {
    /// Memory is always the full 64 KiB image.
    pub open spec fn wf(&self) -> bool {
        self.memory@.len() == MEMORY_SIZE
    }

    /// The byte at address HL.
    pub fn get_at_hl(&self) -> (r: u8)
        requires
            self.wf(),
        ensures
            r == self.memory@[spec_hl(self.registers) as int],
    {
        let addr = self.registers.hl();
        self.memory[addr as usize]
    }

    /// Store a byte at address HL.
    pub fn set_at_hl(&mut self, value: u8)
        requires
            old(self).wf(),
        ensures
            final(self).wf(),
            final(self).registers == old(self).registers,
            final(self).memory@ == old(self).memory@.update(
                spec_hl(old(self).registers) as int,
                value,
            ),
    {
        let addr = self.registers.hl();
        self.memory[addr as usize] = value;
    }

    /// Read a register, or the byte at address HL for `MemoryRef`.
    pub fn get_reg(&self, reg: Register) -> (r: u8)
        requires
            self.wf(),
        ensures
            r == spec_reg_read(self.registers, self.memory@, reg),
    {
        match reg {
            Register::A => self.registers.a,
            Register::B => self.registers.b,
            Register::C => self.registers.c,
            Register::D => self.registers.d,
            Register::E => self.registers.e,
            Register::H => self.registers.h,
            Register::L => self.registers.l,
            Register::MemoryRef => self.get_at_hl(),
        }
    }

    /// Write a register, or the byte at address HL for `MemoryRef`.
    pub fn set_reg(&mut self, reg: Register, value: u8)
        requires
            old(self).wf(),
        ensures
            final(self).wf(),
            (final(self).registers, final(self).memory@) == spec_reg_write(
                old(self).registers,
                old(self).memory@,
                reg,
                value,
            ),
    {
        match reg {
            Register::A => self.registers.a = value,
            Register::B => self.registers.b = value,
            Register::C => self.registers.c = value,
            Register::D => self.registers.d = value,
            Register::E => self.registers.e = value,
            Register::H => self.registers.h = value,
            Register::L => self.registers.l = value,
            Register::MemoryRef => self.set_at_hl(value),
        }
    }

    /// The 16-bit word at `addr`, little-endian.
    pub fn get_u16_at(&self, addr: u16) -> (r: u16)
        requires
            self.wf(),
        ensures
            r == spec_mem_u16(self.memory@, addr),
    {
        let lo = self.memory[addr as usize];
        let hi = self.memory[(addr.wrapping_add(1)) as usize];
        lo as u16 + hi as u16 * 0x100
    }

    /// Store a 16-bit word at `addr`, little-endian.
    pub fn set_u16_at(&mut self, addr: u16, value: u16)
        requires
            old(self).wf(),
        ensures
            final(self).wf(),
            final(self).registers == old(self).registers,
            final(self).memory@ == spec_mem_set_u16(old(self).memory@, addr, value),
    {
        self.memory[addr as usize] = (value % 0x100) as u8;
        self.memory[(addr.wrapping_add(1)) as usize] = (value / 0x100) as u8;
    }

    /// The 16-bit word at the stack pointer.
    pub fn get_at_stack(&self) -> (r: u16)
        requires
            self.wf(),
        ensures
            r == spec_mem_u16(self.memory@, self.registers.stack_pointer),
    {
        self.get_u16_at(self.registers.stack_pointer)
    }

    /// Store a 16-bit word at the stack pointer.
    pub fn set_at_stack(&mut self, value: u16)
        requires
            old(self).wf(),
        ensures
            final(self).wf(),
            final(self).registers == old(self).registers,
            final(self).memory@ == spec_mem_set_u16(
                old(self).memory@,
                old(self).registers.stack_pointer,
                value,
            ),
    {
        let sp = self.registers.stack_pointer;
        self.set_u16_at(sp, value);
    }

    /// The address held by a small pair, the first register as high byte.
    pub fn get_small_pair(&self, pair: SmallRegisterPair) -> (r: u16)
        ensures
            r == spec_small_pair(self.registers, pair),
    {
        match pair {
            SmallRegisterPair::Bc => self.registers.c as u16 + self.registers.b as u16 * 0x100,
            SmallRegisterPair::De => self.registers.e as u16 + self.registers.d as u16 * 0x100,
        }
    }

    /// Push a 16-bit value: the stack pointer moves down by two (wrapping),
    /// the value is stored at the new stack pointer.
    pub fn push(&mut self, value: u16)
        requires
            old(self).wf(),
        ensures
            final(self).wf(),
            (final(self).registers, final(self).memory@) == spec_push(
                old(self).registers,
                old(self).memory@,
                value,
            ),
    {
        self.registers.stack_pointer = self.registers.stack_pointer.wrapping_sub(2);
        self.set_at_stack(value);
    }

    /// Pop a 16-bit value: the word at the stack pointer is read, then the
    /// stack pointer moves up by two (wrapping).
    pub fn pop(&mut self) -> (r: u16)
        requires
            old(self).wf(),
        ensures
            final(self).wf(),
            final(self).memory@ == old(self).memory@,
            (final(self).registers, r) == spec_pop(old(self).registers, old(self).memory@),
    {
        let ret = self.get_at_stack();
        self.registers.stack_pointer = self.registers.stack_pointer.wrapping_add(2);
        ret
    }
}

/// Read a register, or memory at HL for `MemoryRef`.
pub open spec fn spec_reg_read(regs: Registers, mem: Seq<u8>, reg: Register) -> u8 {
    match reg {
        Register::A => regs.a,
        Register::B => regs.b,
        Register::C => regs.c,
        Register::D => regs.d,
        Register::E => regs.e,
        Register::H => regs.h,
        Register::L => regs.l,
        Register::MemoryRef => mem[spec_hl(regs) as int],
    }
}

/// Write a register, or memory at HL for `MemoryRef`.
pub open spec fn spec_reg_write(regs: Registers, mem: Seq<u8>, reg: Register, value: u8) -> (
    Registers,
    Seq<u8>,
) {
    match reg {
        Register::A => (Registers { a: value, ..regs }, mem),
        Register::B => (Registers { b: value, ..regs }, mem),
        Register::C => (Registers { c: value, ..regs }, mem),
        Register::D => (Registers { d: value, ..regs }, mem),
        Register::E => (Registers { e: value, ..regs }, mem),
        Register::H => (Registers { h: value, ..regs }, mem),
        Register::L => (Registers { l: value, ..regs }, mem),
        Register::MemoryRef => (regs, mem.update(spec_hl(regs) as int, value)),
    }
}

} // verus!
