//! Register indices for the CPU.

use vstd::prelude::*;

verus! {

pub const R0: u8 = 0;
pub const R1: u8 = 1;
pub const R2: u8 = 2;
pub const R3: u8 = 3;
pub const R4: u8 = 4;
pub const R5: u8 = 5;
pub const R6: u8 = 6;
pub const R7: u8 = 7;
pub const R8: u8 = 8;
pub const R9: u8 = 9;
pub const R10: u8 = 10;
pub const R11: u8 = 11;
pub const R12: u8 = 12;
pub const R13: u8 = 13;
pub const SP: u8 = R13;
pub const R14: u8 = 14;
pub const LR: u8 = R14;
pub const R15: u8 = 15;
pub const PC: u8 = R15;

} // verus!
