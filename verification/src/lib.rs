//! Instruction-execution core of a Sharp LR35902 style processor: a register
//! file, a flat memory bus, and the instruction operations that act on both.
//!
//! Every operation is a state transition whose effect is stated over a
//! mathematical model of the machine (see [`model`]) and proved against it.

pub mod flags;
pub mod mmu;
pub mod model;
pub mod registers;
pub mod z80;

pub use crate::mmu::MMU;
pub use crate::registers::{Clock, Registers};
pub use crate::z80::Z80;
