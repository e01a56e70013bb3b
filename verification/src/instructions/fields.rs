//! Typed views of the small bit fields that make up an ARM instruction word.
//!
//! Every enum here is decoded from the low bits of a `u32` by `from_bits`,
//! which is total: bits above the width of the field are ignored by the
//! getters that call it, and the last variant absorbs any larger value.

use vstd::prelude::*;

verus! {

/// Condition codes for conditional execution of instructions.
#[derive(Debug, Clone, Copy, PartialEq, Eq, Structural)]
pub enum Condition {
    /// Equal
    EQ,
    /// Not equal
    NE,
    /// Unsigned higher or same
    HS,
    /// Unsigned lower
    LO,
    /// Minus / negative
    MI,
    /// Plus / positive or zero
    PL,
    /// Overflow
    VS,
    /// No overflow
    VC,
    /// Unsigned higher
    HI,
    /// Unsigned lower or same
    LS,
    /// Signed greater than or equal
    GE,
    /// Signed less than
    LT,
    /// Signed greater than
    GT,
    /// Signed less than or equal
    LE,
    /// Always
    AL,
    /// Never
    NV,
}

impl Condition {
    /// The condition encoded by a 4-bit field.
    #[verifier::allow_in_spec]
    pub fn from_bits(bits: u32) -> Self
        returns
            (match bits {
                0 => Condition::EQ,
                1 => Condition::NE,
                2 => Condition::HS,
                3 => Condition::LO,
                4 => Condition::MI,
                5 => Condition::PL,
                6 => Condition::VS,
                7 => Condition::VC,
                8 => Condition::HI,
                9 => Condition::LS,
                10 => Condition::GE,
                11 => Condition::LT,
                12 => Condition::GT,
                13 => Condition::LE,
                14 => Condition::AL,
                _ => Condition::NV,
            }),
    {
        match bits {
            0 => Condition::EQ,
            1 => Condition::NE,
            2 => Condition::HS,
            3 => Condition::LO,
            4 => Condition::MI,
            5 => Condition::PL,
            6 => Condition::VS,
            7 => Condition::VC,
            8 => Condition::HI,
            9 => Condition::LS,
            10 => Condition::GE,
            11 => Condition::LT,
            12 => Condition::GT,
            13 => Condition::LE,
            14 => Condition::AL,
            _ => Condition::NV,
        }
    }
}

/// Opcodes for data processing instructions.
#[derive(Debug, Clone, Copy, PartialEq, Eq, Structural)]
pub enum Opcode {
    AND,
    EOR,
    SUB,
    RSB,
    ADD,
    ADC,
    SBC,
    RSC,
    TST,
    TEQ,
    CMP,
    CMN,
    ORR,
    MOV,
    BIC,
    MVN,
}

impl Opcode {
    /// The opcode encoded by a 4-bit field.
    #[verifier::allow_in_spec]
    pub fn from_bits(bits: u32) -> Self
        returns
            (match bits {
                0 => Opcode::AND,
                1 => Opcode::EOR,
                2 => Opcode::SUB,
                3 => Opcode::RSB,
                4 => Opcode::ADD,
                5 => Opcode::ADC,
                6 => Opcode::SBC,
                7 => Opcode::RSC,
                8 => Opcode::TST,
                9 => Opcode::TEQ,
                10 => Opcode::CMP,
                11 => Opcode::CMN,
                12 => Opcode::ORR,
                13 => Opcode::MOV,
                14 => Opcode::BIC,
                _ => Opcode::MVN,
            }),
    {
        match bits {
            0 => Opcode::AND,
            1 => Opcode::EOR,
            2 => Opcode::SUB,
            3 => Opcode::RSB,
            4 => Opcode::ADD,
            5 => Opcode::ADC,
            6 => Opcode::SBC,
            7 => Opcode::RSC,
            8 => Opcode::TST,
            9 => Opcode::TEQ,
            10 => Opcode::CMP,
            11 => Opcode::CMN,
            12 => Opcode::ORR,
            13 => Opcode::MOV,
            14 => Opcode::BIC,
            _ => Opcode::MVN,
        }
    }
}

/// General purpose register.
#[derive(Debug, Clone, Copy, PartialEq, Eq, Structural)]
pub enum Register {
    R0,
    R1,
    R2,
    R3,
    R4,
    R5,
    R6,
    R7,
    R8,
    R9,
    R10,
    R11,
    R12,
    /// SP
    R13,
    /// LR
    R14,
    /// PC
    R15,
}

impl Register {
    /// The register encoded by a 4-bit field.
    #[verifier::allow_in_spec]
    pub fn from_bits(bits: u32) -> Self
        returns
            (match bits {
                0 => Register::R0,
                1 => Register::R1,
                2 => Register::R2,
                3 => Register::R3,
                4 => Register::R4,
                5 => Register::R5,
                6 => Register::R6,
                7 => Register::R7,
                8 => Register::R8,
                9 => Register::R9,
                10 => Register::R10,
                11 => Register::R11,
                12 => Register::R12,
                13 => Register::R13,
                14 => Register::R14,
                _ => Register::R15,
            }),
    {
        match bits {
            0 => Register::R0,
            1 => Register::R1,
            2 => Register::R2,
            3 => Register::R3,
            4 => Register::R4,
            5 => Register::R5,
            6 => Register::R6,
            7 => Register::R7,
            8 => Register::R8,
            9 => Register::R9,
            10 => Register::R10,
            11 => Register::R11,
            12 => Register::R12,
            13 => Register::R13,
            14 => Register::R14,
            _ => Register::R15,
        }
    }

    /// The index of the register in the register file (0 to 15).
    #[verifier::allow_in_spec]
    pub fn index(self) -> u8
        returns
            (match self {
                Register::R0 => 0u8,
                Register::R1 => 1u8,
                Register::R2 => 2u8,
                Register::R3 => 3u8,
                Register::R4 => 4u8,
                Register::R5 => 5u8,
                Register::R6 => 6u8,
                Register::R7 => 7u8,
                Register::R8 => 8u8,
                Register::R9 => 9u8,
                Register::R10 => 10u8,
                Register::R11 => 11u8,
                Register::R12 => 12u8,
                Register::R13 => 13u8,
                Register::R14 => 14u8,
                Register::R15 => 15u8,
            }),
    {
        match self {
            Register::R0 => 0,
            Register::R1 => 1,
            Register::R2 => 2,
            Register::R3 => 3,
            Register::R4 => 4,
            Register::R5 => 5,
            Register::R6 => 6,
            Register::R7 => 7,
            Register::R8 => 8,
            Register::R9 => 9,
            Register::R10 => 10,
            Register::R11 => 11,
            Register::R12 => 12,
            Register::R13 => 13,
            Register::R14 => 14,
            Register::R15 => 15,
        }
    }
}

/// Whether the second operand is an immediate value or a register.
#[derive(Debug, Clone, Copy, PartialEq, Eq, Structural)]
pub enum ImmediateFlag {
    Register,
    Imm,
}

impl ImmediateFlag {
    /// The flag encoded by a single bit.
    #[verifier::allow_in_spec]
    pub fn from_bits(bits: u32) -> Self
        returns (if bits == 0 { ImmediateFlag::Register } else { ImmediateFlag::Imm }),
    {
        if bits == 0 { ImmediateFlag::Register } else { ImmediateFlag::Imm }
    }
}

/// Whether the instruction updates the condition flags.
#[derive(Debug, Clone, Copy, PartialEq, Eq, Structural)]
pub enum SetFlags {
    No,
    Yes,
}

impl SetFlags {
    /// The flag encoded by a single bit.
    #[verifier::allow_in_spec]
    pub fn from_bits(bits: u32) -> Self
        returns (if bits == 0 { SetFlags::No } else { SetFlags::Yes }),
    {
        if bits == 0 { SetFlags::No } else { SetFlags::Yes }
    }
}

/// Pre- or post-indexed addressing.
#[derive(Debug, Clone, Copy, PartialEq, Eq, Structural)]
pub enum IndexFlag {
    Post,
    Pre,
}

impl IndexFlag {
    /// The flag encoded by a single bit.
    #[verifier::allow_in_spec]
    pub fn from_bits(bits: u32) -> Self
        returns (if bits == 0 { IndexFlag::Post } else { IndexFlag::Pre }),
    {
        if bits == 0 { IndexFlag::Post } else { IndexFlag::Pre }
    }
}

/// Whether the offset is added to or subtracted from the base.
#[derive(Debug, Clone, Copy, PartialEq, Eq, Structural)]
pub enum UpDownFlag {
    Sub,
    Add,
}

impl UpDownFlag {
    /// The flag encoded by a single bit.
    #[verifier::allow_in_spec]
    pub fn from_bits(bits: u32) -> Self
        returns (if bits == 0 { UpDownFlag::Sub } else { UpDownFlag::Add }),
    {
        if bits == 0 { UpDownFlag::Sub } else { UpDownFlag::Add }
    }
}

/// Byte or word transfer.
#[derive(Debug, Clone, Copy, PartialEq, Eq, Structural)]
pub enum ByteWordFlag {
    Word,
    Byte,
}

impl ByteWordFlag {
    /// The flag encoded by a single bit.
    #[verifier::allow_in_spec]
    pub fn from_bits(bits: u32) -> Self
        returns (if bits == 0 { ByteWordFlag::Word } else { ByteWordFlag::Byte }),
    {
        if bits == 0 { ByteWordFlag::Word } else { ByteWordFlag::Byte }
    }
}

/// Whether the base register is written back.
#[derive(Debug, Clone, Copy, PartialEq, Eq, Structural)]
pub enum WriteBackFlag {
    NoModify,
    Write,
}

impl WriteBackFlag {
    /// The flag encoded by a single bit.
    #[verifier::allow_in_spec]
    pub fn from_bits(bits: u32) -> Self
        returns (if bits == 0 { WriteBackFlag::NoModify } else { WriteBackFlag::Write }),
    {
        if bits == 0 { WriteBackFlag::NoModify } else { WriteBackFlag::Write }
    }
}

/// Load from or store to memory.
#[derive(Debug, Clone, Copy, PartialEq, Eq, Structural)]
pub enum LoadStoreFlag {
    Store,
    Load,
}

impl LoadStoreFlag {
    /// The flag encoded by a single bit.
    #[verifier::allow_in_spec]
    pub fn from_bits(bits: u32) -> Self
        returns (if bits == 0 { LoadStoreFlag::Store } else { LoadStoreFlag::Load }),
    {
        if bits == 0 { LoadStoreFlag::Store } else { LoadStoreFlag::Load }
    }
}

/// Whether a memory offset is an immediate or a shifted register.
#[derive(Debug, Clone, Copy, PartialEq, Eq, Structural)]
pub enum OffsetType {
    Immediate,
    Register,
}

impl OffsetType {
    /// The flag encoded by a single bit.
    #[verifier::allow_in_spec]
    pub fn from_bits(bits: u32) -> Self
        returns (if bits == 0 { OffsetType::Immediate } else { OffsetType::Register }),
    {
        if bits == 0 { OffsetType::Immediate } else { OffsetType::Register }
    }
}

/// The kind of shift applied by the barrel shifter.
#[derive(Debug, Clone, Copy, PartialEq, Eq, Structural)]
pub enum ShiftType {
    LSL,
    LSR,
    ASR,
    ROR,
}

impl ShiftType {
    /// The shift encoded by a 2-bit field.
    #[verifier::allow_in_spec]
    pub fn from_bits(bits: u32) -> Self
        returns
            (match bits {
                0 => ShiftType::LSL,
                1 => ShiftType::LSR,
                2 => ShiftType::ASR,
                _ => ShiftType::ROR,
            }),
    {
        match bits {
            0 => ShiftType::LSL,
            1 => ShiftType::LSR,
            2 => ShiftType::ASR,
            _ => ShiftType::ROR,
        }
    }
}

/// Branch with or without link.
#[derive(Debug, Clone, Copy, PartialEq, Eq, Structural)]
pub enum LinkFlag {
    No,
    Yes,
}

impl LinkFlag {
    /// The flag encoded by a single bit.
    #[verifier::allow_in_spec]
    pub fn from_bits(bits: u32) -> Self
        returns (if bits == 0 { LinkFlag::No } else { LinkFlag::Yes }),
    {
        if bits == 0 { LinkFlag::No } else { LinkFlag::Yes }
    }
}

/// The S bit of a block data transfer.
#[derive(Debug, Clone, Copy, PartialEq, Eq, Structural)]
pub enum PrivilegeActionFlag {
    Normal,
    PsrUpdateOrUserBank,
}

impl PrivilegeActionFlag {
    /// The flag encoded by a single bit.
    #[verifier::allow_in_spec]
    pub fn from_bits(bits: u32) -> Self
        returns (if bits == 0 { PrivilegeActionFlag::Normal } else {
            PrivilegeActionFlag::PsrUpdateOrUserBank
        }),
    {
        if bits == 0 {
            PrivilegeActionFlag::Normal
        } else {
            PrivilegeActionFlag::PsrUpdateOrUserBank
        }
    }
}

/// The A bit of a multiply: plain multiply or multiply-accumulate.
#[derive(Debug, Clone, Copy, PartialEq, Eq, Structural)]
pub enum AccumulateFlag {
    MultiplyOnly,
    Accumulate,
}

impl AccumulateFlag {
    /// The flag encoded by a single bit.
    #[verifier::allow_in_spec]
    pub fn from_bits(bits: u32) -> Self
        returns (if bits == 0 { AccumulateFlag::MultiplyOnly } else { AccumulateFlag::Accumulate }),
    {
        if bits == 0 { AccumulateFlag::MultiplyOnly } else { AccumulateFlag::Accumulate }
    }
}

/// The U bit of a long multiply: unsigned or signed operands.
#[derive(Debug, Clone, Copy, PartialEq, Eq, Structural)]
pub enum SignedFlag {
    Unsigned,
    Signed,
}

impl SignedFlag {
    /// The flag encoded by a single bit.
    #[verifier::allow_in_spec]
    pub fn from_bits(bits: u32) -> Self
        returns (if bits == 0 { SignedFlag::Unsigned } else { SignedFlag::Signed }),
    {
        if bits == 0 { SignedFlag::Unsigned } else { SignedFlag::Signed }
    }
}

} // verus!

pub mod register_mask;

pub use register_mask::RegisterMask;
