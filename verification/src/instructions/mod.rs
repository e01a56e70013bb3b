//! ARM instruction words and their decoding.
//!
//! Each instruction format is a thin wrapper around the raw instruction
//! word. Its getters read the fields of the word, least significant bit
//! first, as the ARM encoding lays them out. [`Instruction::decode`] tells
//! the formats apart by matching the word against a fixed pattern per
//! format, in a fixed order.

pub mod fields;
mod conversions;

use vstd::prelude::*;

use fields::{
    AccumulateFlag, ByteWordFlag, Condition, ImmediateFlag, IndexFlag, LinkFlag, LoadStoreFlag,
    OffsetType, Opcode, PrivilegeActionFlag, Register, SetFlags, ShiftType, SignedFlag, UpDownFlag,
    WriteBackFlag,
};

verus! {

/// Represents a Data Processing instruction.
///
/// Layout: operand2 `[11:0]`, rd `[15:12]`, rn `[19:16]`, s `[20]`,
/// opcode `[24:21]`, immediate `[25]`, cond `[31:28]`.
#[derive(Debug, Clone, Copy, PartialEq, Eq, Structural)]
pub struct DataProcessingInstruction(pub u32);

impl DataProcessingInstruction {
    #[verifier::allow_in_spec]
    pub fn operand2(&self) -> u16
        returns (self.0 & 0xFFF) as u16,
    {
        (self.0 & 0xFFF) as u16
    }

    #[verifier::allow_in_spec]
    pub fn rd(&self) -> Register
        returns Register::from_bits((self.0 >> 12u32) & 0xF),
    {
        Register::from_bits((self.0 >> 12u32) & 0xF)
    }

    #[verifier::allow_in_spec]
    pub fn rn(&self) -> Register
        returns Register::from_bits((self.0 >> 16u32) & 0xF),
    {
        Register::from_bits((self.0 >> 16u32) & 0xF)
    }

    #[verifier::allow_in_spec]
    pub fn s(&self) -> SetFlags
        returns SetFlags::from_bits((self.0 >> 20u32) & 1),
    {
        SetFlags::from_bits((self.0 >> 20u32) & 1)
    }

    #[verifier::allow_in_spec]
    pub fn opcode(&self) -> Opcode
        returns Opcode::from_bits((self.0 >> 21u32) & 0xF),
    {
        Opcode::from_bits((self.0 >> 21u32) & 0xF)
    }

    #[verifier::allow_in_spec]
    pub fn immediate(&self) -> ImmediateFlag
        returns ImmediateFlag::from_bits((self.0 >> 25u32) & 1),
    {
        ImmediateFlag::from_bits((self.0 >> 25u32) & 1)
    }

    #[verifier::allow_in_spec]
    pub fn cond(&self) -> Condition
        returns Condition::from_bits(self.0 >> 28u32),
    {
        Condition::from_bits(self.0 >> 28u32)
    }

    /// The second operand: an immediate when the I bit is set, a shifted
    /// register otherwise. Both read the same 12 bits.
    #[verifier::allow_in_spec]
    pub fn op2(&self) -> Operand2
        returns
            (match self.immediate() {
                ImmediateFlag::Imm => Operand2::Immediate(self.operand2()),
                ImmediateFlag::Register => Operand2::ShiftedRegisterOffset(
                    ShiftedRegisterOffset(self.operand2()),
                ),
            }),
    {
        match self.immediate() {
            ImmediateFlag::Imm => Operand2::Immediate(self.operand2()),
            ImmediateFlag::Register => Operand2::ShiftedRegisterOffset(
                ShiftedRegisterOffset::from(self.operand2()),
            ),
        }
    }
}

/// The second operand of a data processing instruction.
#[derive(Debug, Clone, Copy, PartialEq, Eq, Structural)]
pub enum Operand2 {
    ShiftedRegisterOffset(ShiftedRegisterOffset),
    Immediate(u16),
}

/// Represents a single Memory Access instruction (LDR, STR and their forms).
///
/// Layout: offset `[11:0]`, rd `[15:12]`, rn `[19:16]`, l `[20]`, w `[21]`,
/// b `[22]`, u `[23]`, p `[24]`, i `[25]`, cond `[31:28]`.
#[derive(Debug, Clone, Copy, PartialEq, Eq, Structural)]
pub struct MemoryAccessInstruction(pub u32);

impl MemoryAccessInstruction {
    #[verifier::allow_in_spec]
    pub fn offset(&self) -> u16
        returns (self.0 & 0xFFF) as u16,
    {
        (self.0 & 0xFFF) as u16
    }

    #[verifier::allow_in_spec]
    pub fn rd(&self) -> Register
        returns Register::from_bits((self.0 >> 12u32) & 0xF),
    {
        Register::from_bits((self.0 >> 12u32) & 0xF)
    }

    #[verifier::allow_in_spec]
    pub fn rn(&self) -> Register
        returns Register::from_bits((self.0 >> 16u32) & 0xF),
    {
        Register::from_bits((self.0 >> 16u32) & 0xF)
    }

    #[verifier::allow_in_spec]
    pub fn l(&self) -> LoadStoreFlag
        returns LoadStoreFlag::from_bits((self.0 >> 20u32) & 1),
    {
        LoadStoreFlag::from_bits((self.0 >> 20u32) & 1)
    }

    #[verifier::allow_in_spec]
    pub fn w(&self) -> WriteBackFlag
        returns WriteBackFlag::from_bits((self.0 >> 21u32) & 1),
    {
        WriteBackFlag::from_bits((self.0 >> 21u32) & 1)
    }

    #[verifier::allow_in_spec]
    pub fn b(&self) -> ByteWordFlag
        returns ByteWordFlag::from_bits((self.0 >> 22u32) & 1),
    {
        ByteWordFlag::from_bits((self.0 >> 22u32) & 1)
    }

    #[verifier::allow_in_spec]
    pub fn u(&self) -> UpDownFlag
        returns UpDownFlag::from_bits((self.0 >> 23u32) & 1),
    {
        UpDownFlag::from_bits((self.0 >> 23u32) & 1)
    }

    #[verifier::allow_in_spec]
    pub fn p(&self) -> IndexFlag
        returns IndexFlag::from_bits((self.0 >> 24u32) & 1),
    {
        IndexFlag::from_bits((self.0 >> 24u32) & 1)
    }

    #[verifier::allow_in_spec]
    pub fn i(&self) -> OffsetType
        returns OffsetType::from_bits((self.0 >> 25u32) & 1),
    {
        OffsetType::from_bits((self.0 >> 25u32) & 1)
    }

    #[verifier::allow_in_spec]
    pub fn cond(&self) -> Condition
        returns Condition::from_bits(self.0 >> 28u32),
    {
        Condition::from_bits(self.0 >> 28u32)
    }

    /// The offset: a 12-bit immediate, or the same 12 bits read as a
    /// shifted register.
    #[verifier::allow_in_spec]
    pub fn memory_offset(&self) -> MemoryOffset
        returns
            (match self.i() {
                OffsetType::Immediate => MemoryOffset::Immediate(self.offset()),
                OffsetType::Register => MemoryOffset::ShiftedRegister(
                    ShiftedRegisterOffset(self.offset()),
                ),
            }),
    {
        match self.i() {
            OffsetType::Immediate => MemoryOffset::Immediate(self.offset()),
            OffsetType::Register => MemoryOffset::ShiftedRegister(
                ShiftedRegisterOffset::from(self.offset()),
            ),
        }
    }
}

/// The offset of a memory access instruction.
#[derive(Debug, Clone, Copy, PartialEq, Eq, Structural)]
pub enum MemoryOffset {
    Immediate(u16),
    ShiftedRegister(ShiftedRegisterOffset),
}

/// A register shifted by an immediate amount, as a 12-bit operand.
///
/// Layout: rm `[3:0]`, shift_type `[6:5]`, shift_amount `[11:7]`.
#[derive(Debug, Clone, Copy, PartialEq, Eq, Structural)]
pub struct ShiftedRegisterOffset(pub u16);

impl ShiftedRegisterOffset {
    #[verifier::allow_in_spec]
    pub fn rm(&self) -> Register
        returns Register::from_bits((self.0 & 0xF) as u32),
    {
        Register::from_bits((self.0 & 0xF) as u32)
    }

    #[verifier::allow_in_spec]
    pub fn shift_type(&self) -> ShiftType
        returns ShiftType::from_bits(((self.0 >> 5u16) & 3) as u32),
    {
        ShiftType::from_bits(((self.0 >> 5u16) & 3) as u32)
    }

    #[verifier::allow_in_spec]
    pub fn shift_amount(&self) -> u8
        returns ((self.0 >> 7u16) & 0x1F) as u8,
    {
        ((self.0 >> 7u16) & 0x1F) as u8
    }
}

/// An 8-bit immediate rotated right by twice a 4-bit amount.
///
/// Layout: immediate `[7:0]`, rotate `[11:8]`.
#[derive(Debug, Clone, Copy, PartialEq, Eq, Structural)]
pub struct RotatedImmediate(pub u16);

impl RotatedImmediate {
    #[verifier::allow_in_spec]
    pub fn immediate(&self) -> u8
        returns (self.0 & 0xFF) as u8,
    {
        (self.0 & 0xFF) as u8
    }

    #[verifier::allow_in_spec]
    pub fn rotate(&self) -> u8
        returns ((self.0 >> 8u16) & 0xF) as u8,
    {
        ((self.0 >> 8u16) & 0xF) as u8
    }
}

/// Represents a Branch (B) or Branch with Link (BL) instruction.
///
/// Layout: offset `[23:0]`, l `[24]`, cond `[31:28]`.
#[derive(Debug, Clone, Copy, PartialEq, Eq, Structural)]
pub struct BranchInstruction(pub u32);

impl BranchInstruction {
    #[verifier::allow_in_spec]
    pub fn offset(&self) -> u32
        returns self.0 & 0xFF_FFFF,
    {
        self.0 & 0xFF_FFFF
    }

    #[verifier::allow_in_spec]
    pub fn l(&self) -> LinkFlag
        returns LinkFlag::from_bits((self.0 >> 24u32) & 1),
    {
        LinkFlag::from_bits((self.0 >> 24u32) & 1)
    }

    #[verifier::allow_in_spec]
    pub fn cond(&self) -> Condition
        returns Condition::from_bits(self.0 >> 28u32),
    {
        Condition::from_bits(self.0 >> 28u32)
    }
}

/// Represents a Block Data Transfer instruction (LDM, STM).
///
/// Layout: register_list `[15:0]`, rn `[19:16]`, l `[20]`, w `[21]`, s `[22]`,
/// u `[23]`, p `[24]`, cond `[31:28]`.
#[derive(Debug, Clone, Copy, PartialEq, Eq, Structural)]
pub struct BlockDataTransferInstruction(pub u32);

impl BlockDataTransferInstruction {
    #[verifier::allow_in_spec]
    pub fn register_list(&self) -> u16
        returns (self.0 & 0xFFFF) as u16,
    {
        (self.0 & 0xFFFF) as u16
    }

    #[verifier::allow_in_spec]
    pub fn rn(&self) -> Register
        returns Register::from_bits((self.0 >> 16u32) & 0xF),
    {
        Register::from_bits((self.0 >> 16u32) & 0xF)
    }

    #[verifier::allow_in_spec]
    pub fn l(&self) -> LoadStoreFlag
        returns LoadStoreFlag::from_bits((self.0 >> 20u32) & 1),
    {
        LoadStoreFlag::from_bits((self.0 >> 20u32) & 1)
    }

    #[verifier::allow_in_spec]
    pub fn w(&self) -> WriteBackFlag
        returns WriteBackFlag::from_bits((self.0 >> 21u32) & 1),
    {
        WriteBackFlag::from_bits((self.0 >> 21u32) & 1)
    }

    #[verifier::allow_in_spec]
    pub fn s(&self) -> PrivilegeActionFlag
        returns PrivilegeActionFlag::from_bits((self.0 >> 22u32) & 1),
    {
        PrivilegeActionFlag::from_bits((self.0 >> 22u32) & 1)
    }

    #[verifier::allow_in_spec]
    pub fn u(&self) -> UpDownFlag
        returns UpDownFlag::from_bits((self.0 >> 23u32) & 1),
    {
        UpDownFlag::from_bits((self.0 >> 23u32) & 1)
    }

    #[verifier::allow_in_spec]
    pub fn p(&self) -> IndexFlag
        returns IndexFlag::from_bits((self.0 >> 24u32) & 1),
    {
        IndexFlag::from_bits((self.0 >> 24u32) & 1)
    }

    #[verifier::allow_in_spec]
    pub fn cond(&self) -> Condition
        returns Condition::from_bits(self.0 >> 28u32),
    {
        Condition::from_bits(self.0 >> 28u32)
    }
}

/// Represents a Supervisor Call (SVC) instruction.
///
/// Layout: immediate `[23:0]`, `1111` at `[27:24]`, cond `[31:28]`.
#[derive(Debug, Clone, Copy, PartialEq, Eq, Structural)]
pub struct SupervisorCallInstruction(pub u32);

impl SupervisorCallInstruction {
    /// The 24-bit immediate passed to the supervisor.
    #[verifier::allow_in_spec]
    pub fn immediate(&self) -> u32
        returns self.0 & 0xFF_FFFF,
    {
        self.0 & 0xFF_FFFF
    }

    #[verifier::allow_in_spec]
    pub fn cond(&self) -> Condition
        returns Condition::from_bits(self.0 >> 28u32),
    {
        Condition::from_bits(self.0 >> 28u32)
    }
}

/// Represents a Branch and Exchange (BX) instruction.
///
/// Layout: rm `[3:0]`, cond `[31:28]`.
#[derive(Debug, Clone, Copy, PartialEq, Eq, Structural)]
pub struct BranchExchangeInstruction(pub u32);

impl BranchExchangeInstruction {
    #[verifier::allow_in_spec]
    pub fn rm(&self) -> Register
        returns Register::from_bits(self.0 & 0xF),
    {
        Register::from_bits(self.0 & 0xF)
    }

    #[verifier::allow_in_spec]
    pub fn cond(&self) -> Condition
        returns Condition::from_bits(self.0 >> 28u32),
    {
        Condition::from_bits(self.0 >> 28u32)
    }
}

/// Represents a 32-bit Multiply instruction (MUL, MLA).
///
/// Layout: rm `[3:0]`, rs `[11:8]`, rn `[15:12]`, rd `[19:16]`, s `[20]`,
/// a `[21]`, cond `[31:28]`.
#[derive(Debug, Clone, Copy, PartialEq, Eq, Structural)]
pub struct MultiplyInstruction(pub u32);

impl MultiplyInstruction {
    #[verifier::allow_in_spec]
    pub fn rm(&self) -> Register
        returns Register::from_bits(self.0 & 0xF),
    {
        Register::from_bits(self.0 & 0xF)
    }

    #[verifier::allow_in_spec]
    pub fn rs(&self) -> Register
        returns Register::from_bits((self.0 >> 8u32) & 0xF),
    {
        Register::from_bits((self.0 >> 8u32) & 0xF)
    }

    #[verifier::allow_in_spec]
    pub fn rn(&self) -> Register
        returns Register::from_bits((self.0 >> 12u32) & 0xF),
    {
        Register::from_bits((self.0 >> 12u32) & 0xF)
    }

    #[verifier::allow_in_spec]
    pub fn rd(&self) -> Register
        returns Register::from_bits((self.0 >> 16u32) & 0xF),
    {
        Register::from_bits((self.0 >> 16u32) & 0xF)
    }

    #[verifier::allow_in_spec]
    pub fn s(&self) -> SetFlags
        returns SetFlags::from_bits((self.0 >> 20u32) & 1),
    {
        SetFlags::from_bits((self.0 >> 20u32) & 1)
    }

    #[verifier::allow_in_spec]
    pub fn a(&self) -> AccumulateFlag
        returns AccumulateFlag::from_bits((self.0 >> 21u32) & 1),
    {
        AccumulateFlag::from_bits((self.0 >> 21u32) & 1)
    }

    #[verifier::allow_in_spec]
    pub fn cond(&self) -> Condition
        returns Condition::from_bits(self.0 >> 28u32),
    {
        Condition::from_bits(self.0 >> 28u32)
    }
}

/// Represents a 64-bit Multiply Long instruction (UMULL, UMLAL, SMULL, SMLAL).
///
/// Layout: rm `[3:0]`, rs `[11:8]`, rd_lo `[15:12]`, rd_hi `[19:16]`,
/// s `[20]`, a `[21]`, u `[22]`, cond `[31:28]`.
#[derive(Debug, Clone, Copy, PartialEq, Eq, Structural)]
pub struct MultiplyLongInstruction(pub u32);

impl MultiplyLongInstruction {
    #[verifier::allow_in_spec]
    pub fn rm(&self) -> Register
        returns Register::from_bits(self.0 & 0xF),
    {
        Register::from_bits(self.0 & 0xF)
    }

    #[verifier::allow_in_spec]
    pub fn rs(&self) -> Register
        returns Register::from_bits((self.0 >> 8u32) & 0xF),
    {
        Register::from_bits((self.0 >> 8u32) & 0xF)
    }

    #[verifier::allow_in_spec]
    pub fn rd_lo(&self) -> Register
        returns Register::from_bits((self.0 >> 12u32) & 0xF),
    {
        Register::from_bits((self.0 >> 12u32) & 0xF)
    }

    #[verifier::allow_in_spec]
    pub fn rd_hi(&self) -> Register
        returns Register::from_bits((self.0 >> 16u32) & 0xF),
    {
        Register::from_bits((self.0 >> 16u32) & 0xF)
    }

    #[verifier::allow_in_spec]
    pub fn s(&self) -> SetFlags
        returns SetFlags::from_bits((self.0 >> 20u32) & 1),
    {
        SetFlags::from_bits((self.0 >> 20u32) & 1)
    }

    #[verifier::allow_in_spec]
    pub fn a(&self) -> AccumulateFlag
        returns AccumulateFlag::from_bits((self.0 >> 21u32) & 1),
    {
        AccumulateFlag::from_bits((self.0 >> 21u32) & 1)
    }

    #[verifier::allow_in_spec]
    pub fn u(&self) -> SignedFlag
        returns SignedFlag::from_bits((self.0 >> 22u32) & 1),
    {
        SignedFlag::from_bits((self.0 >> 22u32) & 1)
    }

    #[verifier::allow_in_spec]
    pub fn cond(&self) -> Condition
        returns Condition::from_bits(self.0 >> 28u32),
    {
        Condition::from_bits(self.0 >> 28u32)
    }
}

/// Represents a Breakpoint (BKPT) instruction.
///
/// Layout: imm4 `[3:0]`, imm12 `[23:12]`.
#[derive(Debug, Clone, Copy, PartialEq, Eq, Structural)]
pub struct BreakpointInstruction(pub u32);

impl BreakpointInstruction {
    #[verifier::allow_in_spec]
    pub fn imm4(&self) -> u8
        returns (self.0 & 0xF) as u8,
    {
        (self.0 & 0xF) as u8
    }

    #[verifier::allow_in_spec]
    pub fn imm12(&self) -> u16
        returns ((self.0 >> 12u32) & 0xFFF) as u16,
    {
        ((self.0 >> 12u32) & 0xFFF) as u16
    }
}

/// An ARM instruction of one of the supported formats.
#[derive(Debug, Clone, Copy, PartialEq, Eq, Structural)]
pub enum Instruction {
    /// `cond 0001 0010 xxxx xxxx xxxx 0111 xxxx`
    Breakpoint(BreakpointInstruction),
    /// `cond 0001 0010 1111 1111 1111 0001 mmmm`
    BranchExchange(BranchExchangeInstruction),
    /// `cond 1111 xxxx xxxx xxxx xxxx xxxx xxxx`
    SupervisorCall(SupervisorCallInstruction),
    /// `cond 0000 00AS dddd nnnn ssss 1001 mmmm`
    Multiply(MultiplyInstruction),
    /// `cond 0000 1UAS hhhh llll ssss 1001 mmmm`
    MultiplyLong(MultiplyLongInstruction),
    /// `cond 000x ...` and `cond 001x ...`
    DataProcessing(DataProcessingInstruction),
    /// `cond 010x ...` and `cond 011x ...`
    MemoryAccess(MemoryAccessInstruction),
    /// `cond 100x ...`
    BlockDataTransfer(BlockDataTransferInstruction),
    /// `cond 101x ...`
    Branch(BranchInstruction),
}

/// Errors that can occur when converting a raw `u32` into an [`Instruction`].
#[derive(Debug, Clone, Copy, PartialEq, Eq, Structural)]
pub enum InstructionConversionError {
    InvalidInstructionClass,
}

impl Instruction {
    /// Decodes a raw instruction word. The patterns are tried in the order
    /// of the variants of [`Instruction`]; the first one that matches wins.
    #[verifier::allow_in_spec]
    pub fn decode(raw: u32) -> Result<Instruction, InstructionConversionError>
        returns
            (if raw & 0x0FF0_00F0 == 0x0120_0070 {
                Ok(Instruction::Breakpoint(BreakpointInstruction(raw)))
            } else if raw & 0x0FFF_FFF0 == 0x012F_FF10 {
                Ok(Instruction::BranchExchange(BranchExchangeInstruction(raw)))
            } else if raw & 0x0F00_0000 == 0x0F00_0000 {
                Ok(Instruction::SupervisorCall(SupervisorCallInstruction(raw)))
            } else if raw & 0x0FC0_00F0 == 0x0000_0090 {
                Ok(Instruction::Multiply(MultiplyInstruction(raw)))
            } else if raw & 0x0F80_00F0 == 0x0080_0090 {
                Ok(Instruction::MultiplyLong(MultiplyLongInstruction(raw)))
            } else if raw & 0x0E00_0000 == 0x0000_0000 || raw & 0x0E00_0000 == 0x0200_0000 {
                Ok(Instruction::DataProcessing(DataProcessingInstruction(raw)))
            } else if raw & 0x0E00_0000 == 0x0400_0000 || raw & 0x0E00_0000 == 0x0600_0000 {
                Ok(Instruction::MemoryAccess(MemoryAccessInstruction(raw)))
            } else if raw & 0x0E00_0000 == 0x0800_0000 {
                Ok(Instruction::BlockDataTransfer(BlockDataTransferInstruction(raw)))
            } else if raw & 0x0E00_0000 == 0x0A00_0000 {
                Ok(Instruction::Branch(BranchInstruction(raw)))
            } else {
                Err(InstructionConversionError::InvalidInstructionClass)
            }),
    {
        if raw & 0x0FF0_00F0 == 0x0120_0070 {
            Ok(Instruction::Breakpoint(BreakpointInstruction(raw)))
        } else if raw & 0x0FFF_FFF0 == 0x012F_FF10 {
            Ok(Instruction::BranchExchange(BranchExchangeInstruction(raw)))
        } else if raw & 0x0F00_0000 == 0x0F00_0000 {
            Ok(Instruction::SupervisorCall(SupervisorCallInstruction(raw)))
        } else if raw & 0x0FC0_00F0 == 0x0000_0090 {
            Ok(Instruction::Multiply(MultiplyInstruction(raw)))
        } else if raw & 0x0F80_00F0 == 0x0080_0090 {
            Ok(Instruction::MultiplyLong(MultiplyLongInstruction(raw)))
        } else if raw & 0x0E00_0000 == 0x0000_0000 || raw & 0x0E00_0000 == 0x0200_0000 {
            Ok(Instruction::DataProcessing(DataProcessingInstruction(raw)))
        } else if raw & 0x0E00_0000 == 0x0400_0000 || raw & 0x0E00_0000 == 0x0600_0000 {
            Ok(Instruction::MemoryAccess(MemoryAccessInstruction(raw)))
        } else if raw & 0x0E00_0000 == 0x0800_0000 {
            Ok(Instruction::BlockDataTransfer(BlockDataTransferInstruction(raw)))
        } else if raw & 0x0E00_0000 == 0x0A00_0000 {
            Ok(Instruction::Branch(BranchInstruction(raw)))
        } else {
            Err(InstructionConversionError::InvalidInstructionClass)
        }
    }

    /// The raw instruction word this instruction was decoded from.
    #[verifier::allow_in_spec]
    pub fn raw(&self) -> u32
        returns
            (match self {
                Instruction::Breakpoint(inst) => inst.0,
                Instruction::BranchExchange(inst) => inst.0,
                Instruction::SupervisorCall(inst) => inst.0,
                Instruction::Multiply(inst) => inst.0,
                Instruction::MultiplyLong(inst) => inst.0,
                Instruction::DataProcessing(inst) => inst.0,
                Instruction::MemoryAccess(inst) => inst.0,
                Instruction::BlockDataTransfer(inst) => inst.0,
                Instruction::Branch(inst) => inst.0,
            }),
    {
        match self {
            Instruction::Breakpoint(inst) => inst.0,
            Instruction::BranchExchange(inst) => inst.0,
            Instruction::SupervisorCall(inst) => inst.0,
            Instruction::Multiply(inst) => inst.0,
            Instruction::MultiplyLong(inst) => inst.0,
            Instruction::DataProcessing(inst) => inst.0,
            Instruction::MemoryAccess(inst) => inst.0,
            Instruction::BlockDataTransfer(inst) => inst.0,
            Instruction::Branch(inst) => inst.0,
        }
    }

    /// The condition under which the instruction executes. A breakpoint
    /// always executes.
    #[verifier::allow_in_spec]
    pub fn cond(&self) -> Condition
        returns
            (match self {
                Instruction::DataProcessing(inst) => inst.cond(),
                Instruction::MemoryAccess(inst) => inst.cond(),
                Instruction::BlockDataTransfer(inst) => inst.cond(),
                Instruction::Branch(inst) => inst.cond(),
                Instruction::BranchExchange(inst) => inst.cond(),
                Instruction::SupervisorCall(inst) => inst.cond(),
                Instruction::Multiply(inst) => inst.cond(),
                Instruction::MultiplyLong(inst) => inst.cond(),
                Instruction::Breakpoint(_) => Condition::AL,
            }),
    {
        match self {
            Instruction::DataProcessing(inst) => inst.cond(),
            Instruction::MemoryAccess(inst) => inst.cond(),
            Instruction::BlockDataTransfer(inst) => inst.cond(),
            Instruction::Branch(inst) => inst.cond(),
            Instruction::BranchExchange(inst) => inst.cond(),
            Instruction::SupervisorCall(inst) => inst.cond(),
            Instruction::Multiply(inst) => inst.cond(),
            Instruction::MultiplyLong(inst) => inst.cond(),
            Instruction::Breakpoint(_) => Condition::AL,
        }
    }
}

/// Decoding a word and encoding the result gives the word back.
pub proof fn lemma_decode_then_encode(raw: u32)
    ensures
        Instruction::decode(raw) matches Ok(inst) ==> inst.raw() == raw,
{
}

/// An instruction that was decoded from a word decodes again to itself
/// from its encoding.
pub proof fn lemma_encode_then_decode(raw: u32)
    ensures
        Instruction::decode(raw) matches Ok(inst) ==> Instruction::decode(inst.raw()) == Ok::<
            Instruction,
            InstructionConversionError,
        >(inst),
{
}

impl TryFrom<u32> for Instruction {
    type Error = InstructionConversionError;

    fn try_from(raw_instruction: u32) -> (r: Result<Instruction, InstructionConversionError>) {
        Instruction::decode(raw_instruction)
    }
}

impl vstd::std_specs::convert::TryFromSpecImpl<u32> for Instruction {
    open spec fn obeys_try_from_spec() -> bool {
        true
    }

    open spec fn try_from_spec(raw: u32) -> Result<Instruction, InstructionConversionError> {
        Instruction::decode(raw)
    }
}

impl From<Instruction> for u32 {
    fn from(inst: Instruction) -> (r: u32) {
        inst.raw()
    }
}

impl vstd::std_specs::convert::FromSpecImpl<Instruction> for u32 {
    open spec fn obeys_from_spec() -> bool {
        true
    }

    open spec fn from_spec(inst: Instruction) -> u32 {
        inst.raw()
    }
}

} // verus!
