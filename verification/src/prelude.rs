//! Common types and re-exports for the emulator crate.

pub use crate::cpu::{registers, Cpu, CpuError};
pub use crate::execution::ExecutionError;
pub use crate::instructions::{
    BlockDataTransferInstruction, BranchInstruction, DataProcessingInstruction, Instruction,
    MemoryAccessInstruction, SupervisorCallInstruction,
};
pub use crate::memory::{Bus, Endian, Peripheral};
pub use crate::Emulator;
