//! Register masks for block data transfer instructions.
//!
//! Each bit of a mask stands for a register from R0 (bit 0) to R15 (bit 15).
//! If a bit is set, the corresponding register takes part in the transfer.

use std::ops::BitOr;
use vstd::prelude::*;

use super::Register;

verus! {

pub const R0: u16 = 1 << 0;
pub const R1: u16 = 1 << 1;
pub const R2: u16 = 1 << 2;
pub const R3: u16 = 1 << 3;
pub const R4: u16 = 1 << 4;
pub const R5: u16 = 1 << 5;
pub const R6: u16 = 1 << 6;
pub const R7: u16 = 1 << 7;
pub const R8: u16 = 1 << 8;
pub const R9: u16 = 1 << 9;
pub const R10: u16 = 1 << 10;
pub const R11: u16 = 1 << 11;
pub const R12: u16 = 1 << 12;
pub const R13: u16 = 1 << 13;
pub const SP: u16 = R13;
pub const R14: u16 = 1 << 14;
pub const LR: u16 = R14;
pub const R15: u16 = 1 << 15;
pub const PC: u16 = R15;

/// Register mask for block data transfer instructions.
/// For example, a mask of `0b0000_0000_0000_0011` selects R0 and R1.
#[derive(Debug, Clone, Copy, PartialEq, Eq, Structural)]
pub struct RegisterMask(pub u16);

impl From<Register> for RegisterMask {
    /// The mask that selects exactly the given register.
    fn from(value: Register) -> (r: RegisterMask) {
        RegisterMask(1u16 << value.index())
    }
}

impl vstd::std_specs::convert::FromSpecImpl<Register> for RegisterMask {
    open spec fn obeys_from_spec() -> bool {
        true
    }

    open spec fn from_spec(value: Register) -> RegisterMask {
        RegisterMask(1u16 << value.index())
    }
}

impl From<u16> for RegisterMask {
    fn from(value: u16) -> (r: RegisterMask) {
        RegisterMask(value)
    }
}

impl vstd::std_specs::convert::FromSpecImpl<u16> for RegisterMask {
    open spec fn obeys_from_spec() -> bool {
        true
    }

    open spec fn from_spec(value: u16) -> RegisterMask {
        RegisterMask(value)
    }
}

impl From<RegisterMask> for u16 {
    fn from(value: RegisterMask) -> (r: u16) {
        value.0
    }
}

impl vstd::std_specs::convert::FromSpecImpl<RegisterMask> for u16 {
    open spec fn obeys_from_spec() -> bool {
        true
    }

    open spec fn from_spec(value: RegisterMask) -> u16 {
        value.0
    }
}

impl BitOr for RegisterMask {
    type Output = RegisterMask;

    /// The union of the two register sets.
    fn bitor(self, rhs: RegisterMask) -> (r: RegisterMask) {
        RegisterMask(self.0 | rhs.0)
    }
}

impl vstd::std_specs::ops::BitOrSpecImpl for RegisterMask {
    open spec fn obeys_bitor_spec() -> bool {
        true
    }

    open spec fn bitor_req(self, rhs: RegisterMask) -> bool {
        true
    }

    open spec fn bitor_spec(self, rhs: RegisterMask) -> RegisterMask {
        RegisterMask(self.0 | rhs.0)
    }
}

} // verus!
