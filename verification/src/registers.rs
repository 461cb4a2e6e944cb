//! The register file and the clock.

use vstd::prelude::*;

verus! {

/// Machine cycles (`m`) and clock ticks (`t`).
#[derive(Clone, Copy, Debug, PartialEq, Eq, Structural)]
pub struct Clock {
    pub m: u16,
    pub t: u16,
}

/// The register file: seven general-purpose 8-bit registers, the flags, the
/// program counter and stack pointer, and the cost of the last operation in
/// machine cycles (`m`) and clock ticks (`t`).
#[derive(Clone, Copy, Debug, PartialEq, Eq, Structural)]
pub struct Registers {
    pub a: u8,
    pub b: u8,
    pub c: u8,
    pub d: u8,
    pub e: u8,
    pub h: u8,
    pub l: u8,
    pub f: u8,
    pub pc: u16,
    pub sp: u16,
    pub m: u16,
    pub t: u16,
}

impl Clock {
    /// The clock at power-on.
    pub open spec fn zeroed() -> Clock {
        Clock { m: 0, t: 0 }
    }
}

impl Registers {
    /// The register file at power-on: every register zero.
    pub open spec fn zeroed() -> Registers {
        Registers { a: 0, b: 0, c: 0, d: 0, e: 0, h: 0, l: 0, f: 0, pc: 0, sp: 0, m: 0, t: 0 }
    }

    /// Four clock ticks were counted for every machine cycle.
    pub open spec fn cycles_consistent(self) -> bool {
        self.t == 4 * self.m
    }

    /// Zeroes every register, the flags, the program counter, the stack
    /// pointer and the cycle counters.
    pub fn reset(&mut self)
        ensures
            *final(self) == Registers::zeroed(),
    {
        self.a = 0;
        self.b = 0;
        self.c = 0;
        self.d = 0;
        self.e = 0;
        self.h = 0;
        self.l = 0;
        self.f = 0;
        self.sp = 0;
        self.pc = 0;
        self.m = 0;
        self.t = 0;
    }
}

impl Default for Clock {
    fn default() -> (clock: Clock)
        ensures
            clock == Clock::zeroed(),
    {
        Clock { m: 0, t: 0 }
    }
}

impl Default for Registers {
    fn default() -> (r: Registers)
        ensures
            r == Registers::zeroed(),
    {
        Registers { a: 0, b: 0, c: 0, d: 0, e: 0, h: 0, l: 0, f: 0, pc: 0, sp: 0, m: 0, t: 0 }
    }
}

} // verus!
