//! Conversions between instruction formats and their raw words.

use vstd::prelude::*;

use super::{
    BlockDataTransferInstruction, BranchExchangeInstruction, BranchInstruction,
    BreakpointInstruction, DataProcessingInstruction, MemoryAccessInstruction,
    MultiplyInstruction, MultiplyLongInstruction, RotatedImmediate, ShiftedRegisterOffset,
    SupervisorCallInstruction,
};

verus! {

impl From<u32> for DataProcessingInstruction {
    /// Reads the raw word as this format; every word is accepted.
    fn from(value: u32) -> (r: DataProcessingInstruction) {
        DataProcessingInstruction(value)
    }
}

impl vstd::std_specs::convert::FromSpecImpl<u32> for DataProcessingInstruction {
    open spec fn obeys_from_spec() -> bool {
        true
    }

    open spec fn from_spec(value: u32) -> DataProcessingInstruction {
        DataProcessingInstruction(value)
    }
}

impl From<DataProcessingInstruction> for u32 {
    /// The raw word of the instruction.
    fn from(value: DataProcessingInstruction) -> (r: u32) {
        value.0
    }
}

impl vstd::std_specs::convert::FromSpecImpl<DataProcessingInstruction> for u32 {
    open spec fn obeys_from_spec() -> bool {
        true
    }

    open spec fn from_spec(value: DataProcessingInstruction) -> u32 {
        value.0
    }
}

impl From<u32> for MemoryAccessInstruction {
    /// Reads the raw word as this format; every word is accepted.
    fn from(value: u32) -> (r: MemoryAccessInstruction) {
        MemoryAccessInstruction(value)
    }
}

impl vstd::std_specs::convert::FromSpecImpl<u32> for MemoryAccessInstruction {
    open spec fn obeys_from_spec() -> bool {
        true
    }

    open spec fn from_spec(value: u32) -> MemoryAccessInstruction {
        MemoryAccessInstruction(value)
    }
}

impl From<MemoryAccessInstruction> for u32 {
    /// The raw word of the instruction.
    fn from(value: MemoryAccessInstruction) -> (r: u32) {
        value.0
    }
}

impl vstd::std_specs::convert::FromSpecImpl<MemoryAccessInstruction> for u32 {
    open spec fn obeys_from_spec() -> bool {
        true
    }

    open spec fn from_spec(value: MemoryAccessInstruction) -> u32 {
        value.0
    }
}

impl From<u32> for BranchInstruction {
    /// Reads the raw word as this format; every word is accepted.
    fn from(value: u32) -> (r: BranchInstruction) {
        BranchInstruction(value)
    }
}

impl vstd::std_specs::convert::FromSpecImpl<u32> for BranchInstruction {
    open spec fn obeys_from_spec() -> bool {
        true
    }

    open spec fn from_spec(value: u32) -> BranchInstruction {
        BranchInstruction(value)
    }
}

impl From<BranchInstruction> for u32 {
    /// The raw word of the instruction.
    fn from(value: BranchInstruction) -> (r: u32) {
        value.0
    }
}

impl vstd::std_specs::convert::FromSpecImpl<BranchInstruction> for u32 {
    open spec fn obeys_from_spec() -> bool {
        true
    }

    open spec fn from_spec(value: BranchInstruction) -> u32 {
        value.0
    }
}

impl From<u32> for BlockDataTransferInstruction {
    /// Reads the raw word as this format; every word is accepted.
    fn from(value: u32) -> (r: BlockDataTransferInstruction) {
        BlockDataTransferInstruction(value)
    }
}

impl vstd::std_specs::convert::FromSpecImpl<u32> for BlockDataTransferInstruction {
    open spec fn obeys_from_spec() -> bool {
        true
    }

    open spec fn from_spec(value: u32) -> BlockDataTransferInstruction {
        BlockDataTransferInstruction(value)
    }
}

impl From<BlockDataTransferInstruction> for u32 {
    /// The raw word of the instruction.
    fn from(value: BlockDataTransferInstruction) -> (r: u32) {
        value.0
    }
}

impl vstd::std_specs::convert::FromSpecImpl<BlockDataTransferInstruction> for u32 {
    open spec fn obeys_from_spec() -> bool {
        true
    }

    open spec fn from_spec(value: BlockDataTransferInstruction) -> u32 {
        value.0
    }
}

impl From<u32> for SupervisorCallInstruction {
    /// Reads the raw word as this format; every word is accepted.
    fn from(value: u32) -> (r: SupervisorCallInstruction) {
        SupervisorCallInstruction(value)
    }
}

impl vstd::std_specs::convert::FromSpecImpl<u32> for SupervisorCallInstruction {
    open spec fn obeys_from_spec() -> bool {
        true
    }

    open spec fn from_spec(value: u32) -> SupervisorCallInstruction {
        SupervisorCallInstruction(value)
    }
}

impl From<SupervisorCallInstruction> for u32 {
    /// The raw word of the instruction.
    fn from(value: SupervisorCallInstruction) -> (r: u32) {
        value.0
    }
}

impl vstd::std_specs::convert::FromSpecImpl<SupervisorCallInstruction> for u32 {
    open spec fn obeys_from_spec() -> bool {
        true
    }

    open spec fn from_spec(value: SupervisorCallInstruction) -> u32 {
        value.0
    }
}

impl From<u32> for BranchExchangeInstruction {
    /// Reads the raw word as this format; every word is accepted.
    fn from(value: u32) -> (r: BranchExchangeInstruction) {
        BranchExchangeInstruction(value)
    }
}

impl vstd::std_specs::convert::FromSpecImpl<u32> for BranchExchangeInstruction {
    open spec fn obeys_from_spec() -> bool {
        true
    }

    open spec fn from_spec(value: u32) -> BranchExchangeInstruction {
        BranchExchangeInstruction(value)
    }
}

impl From<BranchExchangeInstruction> for u32 {
    /// The raw word of the instruction.
    fn from(value: BranchExchangeInstruction) -> (r: u32) {
        value.0
    }
}

impl vstd::std_specs::convert::FromSpecImpl<BranchExchangeInstruction> for u32 {
    open spec fn obeys_from_spec() -> bool {
        true
    }

    open spec fn from_spec(value: BranchExchangeInstruction) -> u32 {
        value.0
    }
}

impl From<u32> for MultiplyInstruction {
    /// Reads the raw word as this format; every word is accepted.
    fn from(value: u32) -> (r: MultiplyInstruction) {
        MultiplyInstruction(value)
    }
}

impl vstd::std_specs::convert::FromSpecImpl<u32> for MultiplyInstruction {
    open spec fn obeys_from_spec() -> bool {
        true
    }

    open spec fn from_spec(value: u32) -> MultiplyInstruction {
        MultiplyInstruction(value)
    }
}

impl From<MultiplyInstruction> for u32 {
    /// The raw word of the instruction.
    fn from(value: MultiplyInstruction) -> (r: u32) {
        value.0
    }
}

impl vstd::std_specs::convert::FromSpecImpl<MultiplyInstruction> for u32 {
    open spec fn obeys_from_spec() -> bool {
        true
    }

    open spec fn from_spec(value: MultiplyInstruction) -> u32 {
        value.0
    }
}

impl From<u32> for MultiplyLongInstruction {
    /// Reads the raw word as this format; every word is accepted.
    fn from(value: u32) -> (r: MultiplyLongInstruction) {
        MultiplyLongInstruction(value)
    }
}

impl vstd::std_specs::convert::FromSpecImpl<u32> for MultiplyLongInstruction {
    open spec fn obeys_from_spec() -> bool {
        true
    }

    open spec fn from_spec(value: u32) -> MultiplyLongInstruction {
        MultiplyLongInstruction(value)
    }
}

impl From<MultiplyLongInstruction> for u32 {
    /// The raw word of the instruction.
    fn from(value: MultiplyLongInstruction) -> (r: u32) {
        value.0
    }
}

impl vstd::std_specs::convert::FromSpecImpl<MultiplyLongInstruction> for u32 {
    open spec fn obeys_from_spec() -> bool {
        true
    }

    open spec fn from_spec(value: MultiplyLongInstruction) -> u32 {
        value.0
    }
}

impl From<u32> for BreakpointInstruction {
    /// Reads the raw word as this format; every word is accepted.
    fn from(value: u32) -> (r: BreakpointInstruction) {
        BreakpointInstruction(value)
    }
}

impl vstd::std_specs::convert::FromSpecImpl<u32> for BreakpointInstruction {
    open spec fn obeys_from_spec() -> bool {
        true
    }

    open spec fn from_spec(value: u32) -> BreakpointInstruction {
        BreakpointInstruction(value)
    }
}

impl From<BreakpointInstruction> for u32 {
    /// The raw word of the instruction.
    fn from(value: BreakpointInstruction) -> (r: u32) {
        value.0
    }
}

impl vstd::std_specs::convert::FromSpecImpl<BreakpointInstruction> for u32 {
    open spec fn obeys_from_spec() -> bool {
        true
    }

    open spec fn from_spec(value: BreakpointInstruction) -> u32 {
        value.0
    }
}

impl From<u16> for ShiftedRegisterOffset {
    /// Reads the raw word as this format; every word is accepted.
    fn from(value: u16) -> (r: ShiftedRegisterOffset) {
        ShiftedRegisterOffset(value)
    }
}

impl vstd::std_specs::convert::FromSpecImpl<u16> for ShiftedRegisterOffset {
    open spec fn obeys_from_spec() -> bool {
        true
    }

    open spec fn from_spec(value: u16) -> ShiftedRegisterOffset {
        ShiftedRegisterOffset(value)
    }
}

impl From<ShiftedRegisterOffset> for u16 {
    /// The raw word of the instruction.
    fn from(value: ShiftedRegisterOffset) -> (r: u16) {
        value.0
    }
}

impl vstd::std_specs::convert::FromSpecImpl<ShiftedRegisterOffset> for u16 {
    open spec fn obeys_from_spec() -> bool {
        true
    }

    open spec fn from_spec(value: ShiftedRegisterOffset) -> u16 {
        value.0
    }
}

impl From<u16> for RotatedImmediate {
    /// Reads the raw word as this format; every word is accepted.
    fn from(value: u16) -> (r: RotatedImmediate) {
        RotatedImmediate(value)
    }
}

impl vstd::std_specs::convert::FromSpecImpl<u16> for RotatedImmediate {
    open spec fn obeys_from_spec() -> bool {
        true
    }

    open spec fn from_spec(value: u16) -> RotatedImmediate {
        RotatedImmediate(value)
    }
}

impl From<RotatedImmediate> for u16 {
    /// The raw word of the instruction.
    fn from(value: RotatedImmediate) -> (r: u16) {
        value.0
    }
}

impl vstd::std_specs::convert::FromSpecImpl<RotatedImmediate> for u16 {
    open spec fn obeys_from_spec() -> bool {
        true
    }

    open spec fn from_spec(value: RotatedImmediate) -> u16 {
        value.0
    }
}

} // verus!
