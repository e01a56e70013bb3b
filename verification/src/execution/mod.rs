//! Execution of decoded instructions against an [Emulator].
//!
//! Each instruction kind states, as a function of the state before it, the
//! registers and status register after it (and, for memory transfers, the
//! memory), over the CPU and memory models.

pub mod block_data_transfer;
pub mod branch;
pub mod branch_exchange;
pub mod data_processing;
pub mod memory_access;
pub mod multiply;
mod private;
pub mod supervisor_call;

use crate::cpu::{flag_set, with_flag, Cpu, Exception};
use crate::emulator::{Breakpoint, Emulator};
use crate::instructions::fields::ShiftType;
use crate::instructions::{InstructionConversionError, Operand2};
use crate::memory::MemoryAccessError;
use vstd::prelude::*;

verus! {

/// Why executing an instruction failed.
#[derive(Debug, Clone, Copy, PartialEq, Eq, Structural)]
pub enum ExecutionError {
    Breakpoint(Breakpoint),
    MemoryAccessError(MemoryAccessError),
    InstructionConversionError(InstructionConversionError),
    Exception(Exception),
}

impl From<Breakpoint> for ExecutionError {
    fn from(value: Breakpoint) -> (r: ExecutionError) {
        ExecutionError::Breakpoint(value)
    }
}

impl vstd::std_specs::convert::FromSpecImpl<Breakpoint> for ExecutionError {
    open spec fn obeys_from_spec() -> bool {
        true
    }

    open spec fn from_spec(value: Breakpoint) -> ExecutionError {
        ExecutionError::Breakpoint(value)
    }
}

impl From<MemoryAccessError> for ExecutionError {
    fn from(value: MemoryAccessError) -> (r: ExecutionError) {
        ExecutionError::MemoryAccessError(value)
    }
}

impl vstd::std_specs::convert::FromSpecImpl<MemoryAccessError> for ExecutionError {
    open spec fn obeys_from_spec() -> bool {
        true
    }

    open spec fn from_spec(value: MemoryAccessError) -> ExecutionError {
        ExecutionError::MemoryAccessError(value)
    }
}

impl From<InstructionConversionError> for ExecutionError {
    fn from(value: InstructionConversionError) -> (r: ExecutionError) {
        ExecutionError::InstructionConversionError(value)
    }
}

impl vstd::std_specs::convert::FromSpecImpl<InstructionConversionError> for ExecutionError {
    open spec fn obeys_from_spec() -> bool {
        true
    }

    open spec fn from_spec(value: InstructionConversionError) -> ExecutionError {
        ExecutionError::InstructionConversionError(value)
    }
}

impl From<Exception> for ExecutionError {
    fn from(value: Exception) -> (r: ExecutionError) {
        ExecutionError::Exception(value)
    }
}

impl vstd::std_specs::convert::FromSpecImpl<Exception> for ExecutionError {
    open spec fn obeys_from_spec() -> bool {
        true
    }

    open spec fn from_spec(value: Exception) -> ExecutionError {
        ExecutionError::Exception(value)
    }
}

/// An instruction that can be executed against an [Emulator]. Each kind
/// states its effect in the contract of its own `execute_with`.
pub trait ExecutableInstruction: private::Sealed {
    /// Whether the emulator can execute this instruction.
    spec fn supported(&self) -> bool;

    fn execute_with(&self, emulator: &mut Emulator) -> (r: Result<(), ExecutionError>)
        requires
            self.supported(),
    ;
}

/// Bit `i` of `x`.
pub open spec fn bit(x: u32, i: u32) -> bool {
    (x >> i) & 1 == 1
}

/// Whether `v`, read as a signed number, is negative (its N flag).
pub open spec fn negative(v: u32) -> bool {
    bit(v, 31)
}

/// `x` shifted right by `n` (below 32), filling with copies of its sign bit.
pub open spec fn asr(x: u32, n: u32) -> u32 {
    if bit(x, 31) {
        (x >> n) | !(0xFFFF_FFFFu32 >> n)
    } else {
        x >> n
    }
}

/// `x` rotated right by `n` (below 32).
pub open spec fn ror(x: u32, n: u32) -> u32 {
    if n == 0 {
        x
    } else {
        (x >> n) | (x << ((32 - n) as u32))
    }
}

/// The barrel shifter: `v` shifted as `kind` by `amount` (below 32), and the
/// carry out where the shift produces one. An amount of 0 means LSL #0 (no
/// shift, no carry), LSR #32, ASR #32 or, for ROR, RRX (rotate right by one
/// through the carry flag `carry_in`).
pub open spec fn shift_with_carry(v: u32, kind: ShiftType, amount: u32, carry_in: bool) -> (
    u32,
    Option<bool>,
) {
    match kind {
        ShiftType::LSL => if amount == 0 {
            (v, None)
        } else {
            (v << amount, Some(bit(v, (32 - amount) as u32)))
        },
        ShiftType::LSR => if amount == 0 {
            (0, Some(bit(v, 31)))
        } else {
            (v >> amount, Some(bit(v, (amount - 1) as u32)))
        },
        ShiftType::ASR => if amount == 0 {
            (if bit(v, 31) { 0xFFFF_FFFFu32 } else { 0u32 }, Some(bit(v, 31)))
        } else {
            (asr(v, amount), Some(bit(v, (amount - 1) as u32)))
        },
        ShiftType::ROR => if amount == 0 {
            ((v >> 1u32) | (if carry_in { 0x8000_0000u32 } else { 0u32 }), Some(v & 1 == 1))
        } else {
            (ror(v, amount), Some(bit(v, (amount - 1) as u32)))
        },
    }
}

/// The value of a second operand, and the shifter's carry out if it gives
/// one. An immediate is an 8-bit value rotated right by twice its 4-bit
/// rotation; a rotated immediate carries out its bit 31.
pub open spec fn eval_op2(op2: Operand2, cpu: Cpu) -> (u32, Option<bool>) {
    match op2 {
        Operand2::Immediate(imm) => {
            let value = (imm & 0xFF) as u32;
            let rotate = (imm >> 8u16) as u32;
            if rotate == 0 {
                (value, None)
            } else {
                let r = ror(value, ((rotate * 2) % 32) as u32);
                (r, Some(bit(r, 31)))
            }
        },
        Operand2::ShiftedRegisterOffset(sro) => shift_with_carry(
            cpu.registers[sro.rm().index() as int],
            sro.shift_type(),
            sro.shift_amount() as u32,
            flag_set(cpu.cpsr.0, 0x2000_0000),
        ),
    }
}

/// The N and Z flags of `psr` set from `result`.
pub open spec fn with_nz(psr: u32, result: u32) -> u32 {
    with_flag(with_flag(psr, 0x8000_0000, negative(result)), 0x4000_0000, result == 0)
}

/// `x` shifted right arithmetically by `n` (below 32).
pub(crate) fn shift_right_arithmetic(x: u32, n: u32) -> (r: u32)
    requires
        n < 32,
    ensures
        r == asr(x, n),
{
    if (x >> 31u32) & 1 == 1 {
        (x >> n) | !(0xFFFF_FFFFu32 >> n)
    } else {
        x >> n
    }
}

/// `x` rotated right by `n` (below 32).
pub(crate) fn rotate_right(x: u32, n: u32) -> (r: u32)
    requires
        n < 32,
    ensures
        r == ror(x, n),
{
    if n == 0 {
        x
    } else {
        (x >> n) | (x << (32 - n))
    }
}

/// The barrel shifter; see [shift_with_carry].
pub(crate) fn shift(v: u32, kind: ShiftType, amount: u32, carry_in: bool) -> (r: (u32, Option<bool>))
    requires
        amount < 32,
    ensures
        r == shift_with_carry(v, kind, amount, carry_in),
{
    match kind {
        ShiftType::LSL => {
            if amount == 0 {
                (v, None)
            } else {
                (v << amount, Some((v >> (32 - amount)) & 1 == 1))
            }
        },
        ShiftType::LSR => {
            if amount == 0 {
                (0, Some((v >> 31u32) & 1 == 1))
            } else {
                (v >> amount, Some((v >> (amount - 1)) & 1 == 1))
            }
        },
        ShiftType::ASR => {
            if amount == 0 {
                let carry = (v >> 31u32) & 1 == 1;
                if carry {
                    (0xFFFF_FFFF, Some(carry))
                } else {
                    (0, Some(carry))
                }
            } else {
                (shift_right_arithmetic(v, amount), Some((v >> (amount - 1)) & 1 == 1))
            }
        },
        ShiftType::ROR => {
            if amount == 0 {
                let old_c: u32 = if carry_in {
                    0x8000_0000
                } else {
                    0
                };
                ((v >> 1u32) | old_c, Some((v & 1) == 1))
            } else {
                (rotate_right(v, amount), Some((v >> (amount - 1)) & 1 == 1))
            }
        },
    }
}

impl Operand2 {
    /// The value of the operand, and the shifter's carry out if it gives one.
    pub(crate) fn eval(self, cpu: &Cpu) -> (r: (u32, Option<bool>))
        ensures
            r == eval_op2(self, *cpu),
    {
        match self {
            Operand2::Immediate(imm) => {
                let value = (imm & 0xFF) as u32;
                let rotate = (imm >> 8u16) as u32;
                assert(rotate < 256) by (bit_vector)
                    requires
                        rotate == (imm >> 8u16) as u32,
                ;
                if rotate == 0 {
                    (value, None)
                } else {
                    let r = rotate_right(value, (rotate * 2) % 32);
                    (r, Some((r >> 31u32) & 1 == 1))
                }
            },
            Operand2::ShiftedRegisterOffset(sro) => {
                let value = cpu.register(sro.rm().index());
                let raw = sro.0;
                assert(((raw >> 7u16) & 0x1F) as u8 <= 31) by (bit_vector);
                shift(value, sro.shift_type(), sro.shift_amount() as u32, cpu.c())
            },
        }
    }
}

} // verus!
