//! The machine as a mathematical value, and each instruction as a function
//! from the state before it to the state after it.

use vstd::prelude::*;
use crate::flags::{flag_bits, has_flag, CARRY_FLAG, HALF_CARRY_FLAG, SUBTRACT_FLAG, ZERO_FLAG};
use crate::flags::lemma_flag_bits;
use crate::mmu::{word_at, zeroed, ADDRESS_SPACE_SIZE};
use crate::registers::{Clock, Registers};

verus! {

/// The whole machine: the register file, the clock and the bytes on the bus.
pub struct State {
    pub r: Registers,
    pub clock: Clock,
    pub mem: Seq<u8>,
}

/// `i` reduced to the range of a 16-bit register.
pub open spec fn wrap16(i: int) -> u16 {
    (i % 0x1_0000) as u16
}

/// The 16-bit value whose high byte is at byte address `addr` and whose low
/// byte follows it.
pub open spec fn operand_at(mem: Seq<u8>, addr: int) -> int {
    mem[addr] * 256 + mem[addr + 1]
}

impl State {
    /// The bus spans the whole address space.
    pub open spec fn wf(self) -> bool {
        self.mem.len() == ADDRESS_SPACE_SIZE
    }

    /// The machine at power-on: registers, clock and memory all zero.
    pub open spec fn initial() -> State {
        State {
            r: Registers::zeroed(),
            clock: Clock::zeroed(),
            mem: zeroed(ADDRESS_SPACE_SIZE as nat),
        }
    }

    /// `A <- A + E`. The accumulator receives the low byte of the sum. The
    /// flags are overwritten: Zero when that byte is zero, Carry when the sum
    /// does not fit in a byte, no other bit.
    pub open spec fn add_r_e(self) -> State {
        let sum = self.r.a + self.r.e;
        State {
            r: Registers {
                a: (sum % 256) as u8,
                f: flag_bits(sum % 256 == 0, false, false, sum > 255),
                m: 1,
                t: 4,
                ..self.r
            },
            ..self
        }
    }

    /// `CP B`. Only the flags change: Subtract always, Zero when `A == B`,
    /// Carry when `B > A`, no other bit.
    pub open spec fn cp_r_b(self) -> State {
        State {
            r: Registers {
                f: flag_bits(self.r.a == self.r.b, true, false, self.r.a < self.r.b),
                m: 1,
                t: 4,
                ..self.r
            },
            ..self
        }
    }

    /// No operation: only the cycle counters are set.
    pub open spec fn nop(self) -> State {
        State { r: Registers { m: 1, t: 4, ..self.r }, ..self }
    }

    /// Pushes B, then C. The stack pointer moves down by two and wraps at
    /// the bottom of the address space.
    pub open spec fn push_b_c(self) -> State {
        let high = wrap16(self.r.sp - 1);
        let low = wrap16(self.r.sp - 2);
        State {
            r: Registers { sp: low, m: 3, t: 12, ..self.r },
            mem: self.mem.update(high as int, self.r.b).update(low as int, self.r.c),
            ..self
        }
    }

    /// Pops L, then H. The stack pointer moves up by two and wraps at the top
    /// of the address space.
    pub open spec fn pop_h_l(self) -> State {
        State {
            r: Registers {
                l: self.mem[self.r.sp as int],
                h: self.mem[wrap16(self.r.sp + 1) as int],
                sp: wrap16(self.r.sp + 2),
                m: 3,
                t: 12,
                ..self.r
            },
            ..self
        }
    }

    /// `LD A,(nn)`. The two bytes at `pc` name an address, high byte first;
    /// the accumulator receives the byte at that address and `pc` moves past
    /// the operand.
    pub open spec fn ld_a_mm(self) -> State {
        State {
            r: Registers {
                a: self.mem[operand_at(self.mem, self.r.pc as int)],
                pc: wrap16(self.r.pc + 2),
                m: 4,
                t: 16,
                ..self.r
            },
            ..self
        }
    }

    /// Registers and clock return to zero; memory is kept.
    pub open spec fn reset(self) -> State {
        State { r: Registers::zeroed(), clock: Clock::zeroed(), ..self }
    }
}

/// Pushing (B, C) and then popping into (H, L) leaves B in H and C in L,
/// leaves B and C as they were, and returns the stack pointer to where it
/// stood.
pub proof fn lemma_push_pop_symmetry(s: State)
    requires
        s.wf(),
    ensures
        s.push_b_c().pop_h_l().r.h == s.r.b,
        s.push_b_c().pop_h_l().r.l == s.r.c,
        s.push_b_c().pop_h_l().r.b == s.r.b,
        s.push_b_c().pop_h_l().r.c == s.r.c,
        s.push_b_c().pop_h_l().r.sp == s.r.sp,
{
}

/// Resetting twice gives the state that resetting once gives.
pub proof fn lemma_reset_idempotent(s: State)
    ensures
        s.reset().reset() == s.reset(),
        s.reset().r == Registers::zeroed(),
        s.reset().clock == Clock::zeroed(),
{
}

/// After every instruction the register file counts four clock ticks per
/// machine cycle.
pub proof fn lemma_cycle_accounting(s: State)
    ensures
        s.add_r_e().r.cycles_consistent(),
        s.cp_r_b().r.cycles_consistent(),
        s.nop().r.cycles_consistent(),
        s.push_b_c().r.cycles_consistent(),
        s.pop_h_l().r.cycles_consistent(),
        s.ld_a_mm().r.cycles_consistent(),
        s.reset().r.cycles_consistent(),
        State::initial().r.cycles_consistent(),
{
}

/// No instruction changes the size of the bus.
pub proof fn lemma_wf_preserved(s: State)
    requires
        s.wf(),
    ensures
        s.add_r_e().wf(),
        s.cp_r_b().wf(),
        s.nop().wf(),
        s.push_b_c().wf(),
        s.pop_h_l().wf(),
        s.ld_a_mm().wf(),
        s.reset().wf(),
        State::initial().wf(),
{
}

/// The flags after `A <- A + E`, read bit by bit: Zero exactly when the low
/// byte of the sum is zero, Carry exactly when the sum exceeds 255, Subtract
/// and Half-carry clear, low nibble zero, whatever the flags held before.
pub proof fn lemma_add_r_e_flags(s: State)
    ensures
        has_flag(s.add_r_e().r.f, ZERO_FLAG) <==> (s.r.a + s.r.e) % 256 == 0,
        has_flag(s.add_r_e().r.f, CARRY_FLAG) <==> s.r.a + s.r.e > 255,
        !has_flag(s.add_r_e().r.f, SUBTRACT_FLAG),
        !has_flag(s.add_r_e().r.f, HALF_CARRY_FLAG),
        s.add_r_e().r.f & 0x0F == 0,
        s.add_r_e().r.a == (s.r.a + s.r.e) % 256,
{
    let sum = s.r.a + s.r.e;
    lemma_flag_bits(sum % 256 == 0, false, false, sum > 255);
}

/// The flags after `CP B`, read bit by bit: Subtract set, Zero exactly when
/// `A == B`, Carry exactly when `B > A`, Half-carry clear, low nibble zero,
/// whatever the flags held before.
pub proof fn lemma_cp_r_b_flags(s: State)
    ensures
        has_flag(s.cp_r_b().r.f, SUBTRACT_FLAG),
        has_flag(s.cp_r_b().r.f, ZERO_FLAG) <==> s.r.a == s.r.b,
        has_flag(s.cp_r_b().r.f, CARRY_FLAG) <==> s.r.b > s.r.a,
        !has_flag(s.cp_r_b().r.f, HALF_CARRY_FLAG),
        s.cp_r_b().r.f & 0x0F == 0,
        s.cp_r_b().r.a == s.r.a,
        s.cp_r_b().r.b == s.r.b,
{
    lemma_flag_bits(s.r.a == s.r.b, true, false, s.r.a < s.r.b);
}

/// At an even byte address the operand of `LD A,(nn)` is the word at half
/// that address.
pub proof fn lemma_operand_is_word(mem: Seq<u8>, addr: int)
    requires
        addr % 2 == 0,
    ensures
        operand_at(mem, addr) == word_at(mem, addr / 2),
{
}

} // verus!
