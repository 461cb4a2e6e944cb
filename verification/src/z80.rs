//! The processor core: the register file and the memory bus it owns, and the
//! instruction operations. A dispatcher calls one operation per instruction
//! and reads `r.m` and `r.t` afterwards to learn what it cost.

use vstd::prelude::*;
use crate::flags::{CARRY_FLAG, SUBTRACT_FLAG, ZERO_FLAG};
use crate::mmu::{ADDRESS_SPACE_SIZE, MMU};
use crate::model::State;
use crate::registers::{Clock, Registers};

verus! {

/// The processor: its clock, its register file and the memory bus it owns.
/// Its view is the machine state that the instruction contracts speak of.
pub struct Z80 {
    pub clock: Clock,
    pub r: Registers,
    pub mmu: MMU,
}

impl View for Z80 {
    type V = State;

    open spec fn view(&self) -> State {
        State { r: self.r, clock: self.clock, mem: self.mmu@ }
    }
}

impl Z80 {
    /// The bus spans the whole address space, so that every value of a 16-bit
    /// register is a valid byte address.
    pub open spec fn wf(&self) -> bool {
        self@.wf()
    }

    /// A core at power-on: registers and clock zero, 65,536 bytes of zeroed
    /// memory.
    pub fn new() -> (cpu: Z80)
        ensures
            cpu@ == State::initial(),
            cpu.wf(),
            cpu.r.cycles_consistent(),
    {
        Z80 {
            clock: Clock { m: 0, t: 0 },
            r: Registers {
                a: 0,
                b: 0,
                c: 0,
                d: 0,
                e: 0,
                h: 0,
                l: 0,
                f: 0,
                pc: 0,
                sp: 0,
                m: 0,
                t: 0,
            },
            mmu: MMU::new(ADDRESS_SPACE_SIZE),
        }
    }

    /// Adds E to A. A receives the low byte of the sum; the flags are
    /// overwritten with Zero and Carry as the sum demands.
    pub fn add_r_e(&mut self)
        ensures
            final(self)@ == old(self)@.add_r_e(),
            final(self).r.cycles_consistent(),
    {
        let sum: u16 = self.r.a as u16 + self.r.e as u16;
        self.r.f = 0;
        assert(sum & 255 == sum % 256 && sum & 255 < 256) by (bit_vector);
        if sum & 255 == 0 {
            self.r.f |= ZERO_FLAG;
        }
        if sum > 255 {
            self.r.f |= CARRY_FLAG;
        }
        assert(0u8 | 0x80u8 == 0x80u8 && 0u8 | 0x10u8 == 0x10u8 && 0x80u8 | 0x10u8 == 0x90u8)
            by (bit_vector);
        self.r.a = (sum & 255) as u8;
        self.r.m = 1;
        self.r.t = 4;
    }

    /// Compares B with A. Only the flags change: they are overwritten with
    /// Subtract, with Zero when the two are equal, and with Carry when B is
    /// the larger.
    pub fn cp_r_b(&mut self)
        ensures
            final(self)@ == old(self)@.cp_r_b(),
            final(self).r.cycles_consistent(),
    {
        self.r.f = SUBTRACT_FLAG;
        if self.r.a == self.r.b {
            self.r.f |= ZERO_FLAG;
        }
        if self.r.a < self.r.b {
            self.r.f |= CARRY_FLAG;
        }
        assert(0x40u8 | 0x80u8 == 0xC0u8 && 0x40u8 | 0x10u8 == 0x50u8) by (bit_vector);
        self.r.m = 1;
        self.r.t = 4;
    }

    /// Does nothing but record its cost.
    pub fn nop(&mut self)
        ensures
            final(self)@ == old(self)@.nop(),
            final(self).r.cycles_consistent(),
    {
        self.r.m = 1;
        self.r.t = 4;
    }

    /// Pushes B, then C, onto the stack.
    pub fn push_b_c(&mut self)
        requires
            old(self).wf(),
        ensures
            final(self)@ == old(self)@.push_b_c(),
            final(self).wf(),
            final(self).r.cycles_consistent(),
    {
        self.r.sp = self.r.sp.wrapping_sub(1);
        self.mmu.wb(self.r.sp as usize, self.r.b);
        self.r.sp = self.r.sp.wrapping_sub(1);
        self.mmu.wb(self.r.sp as usize, self.r.c);
        self.r.m = 3;
        self.r.t = 12;
    }

    /// Pops L, then H, off the stack.
    pub fn pop_h_l(&mut self)
        requires
            old(self).wf(),
        ensures
            final(self)@ == old(self)@.pop_h_l(),
            final(self).wf(),
            final(self).r.cycles_consistent(),
    {
        self.r.l = self.mmu.rb(self.r.sp as usize);
        self.r.sp = self.r.sp.wrapping_add(1);
        self.r.h = self.mmu.rb(self.r.sp as usize);
        self.r.sp = self.r.sp.wrapping_add(1);
        self.r.m = 3;
        self.r.t = 12;
    }

    /// Loads A from the address that the two bytes at `pc` name, and moves
    /// `pc` past them. The operand must lie on the bus: `pc` may not be the
    /// last byte address.
    pub fn ld_a_mm(&mut self)
        requires
            old(self).wf(),
            old(self).r.pc < 0xFFFF,
        ensures
            final(self)@ == old(self)@.ld_a_mm(),
            final(self).wf(),
            final(self).r.cycles_consistent(),
    {
        let high: u8 = self.mmu.rb(self.r.pc as usize);
        let low: u8 = self.mmu.rb(self.r.pc as usize + 1);
        let addr: u16 = ((high as u16) << 8) | (low as u16);
        assert(((high as u16) << 8) | (low as u16) == high * 256 + low) by (bit_vector);
        self.r.pc = self.r.pc.wrapping_add(2);
        self.r.a = self.mmu.rb(addr as usize);
        self.r.m = 4;
        self.r.t = 16;
    }

    /// Returns registers and clock to their power-on values. Memory is kept.
    pub fn reset(&mut self)
        ensures
            final(self)@ == old(self)@.reset(),
            final(self).r.cycles_consistent(),
    {
        self.r.reset();
        self.clock.m = 0;
        self.clock.t = 0;
    }
}

} // verus!
