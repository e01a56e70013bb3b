//! Branch and exchange (BX).

use super::private::Sealed;
use super::{ExecutableInstruction, ExecutionError};
use crate::cpu::Cpu;
use crate::emulator::{cpu_step, Emulator};
use crate::instructions::BranchExchangeInstruction;
use vstd::prelude::*;

verus! {

/// The registers after a BX: PC gets the value of `rm` with bit 0 cleared.
/// Only the ARM state is emulated, so the Thumb bit is dropped.
pub open spec fn branch_exchange_effect(cpu: Cpu, instr: BranchExchangeInstruction) -> (
    Seq<u32>,
    u32,
) {
    let regs = cpu.registers@;
    (regs.update(15, regs[instr.rm().index() as int] & 0xFFFF_FFFE), cpu.cpsr.0)
}

impl BranchExchangeInstruction {
    /// Executes the instruction on a CPU.
    pub fn execute_on(&self, cpu: &mut Cpu)
        ensures
            crate::cpu::cpu_updated(
                *old(cpu),
                *final(cpu),
                branch_exchange_effect(*old(cpu), *self).0,
                branch_exchange_effect(*old(cpu), *self).1,
            ),
    {
        let target_address = cpu.register(self.rm().index());
        let aligned_address = target_address & !1u32;
        assert(!1u32 == 0xFFFF_FFFEu32) by (bit_vector);
        cpu.set_pc(aligned_address);
    }
}

impl ExecutableInstruction for BranchExchangeInstruction {
    open spec fn supported(&self) -> bool {
        true
    }

    fn execute_with(&self, emulator: &mut Emulator) -> (r: Result<(), ExecutionError>)
        ensures
            r == Ok::<(), ExecutionError>(()),
            cpu_step(*old(emulator), *final(emulator), branch_exchange_effect(old(emulator).cpu, *self)),
    {
        self.execute_on(&mut emulator.cpu);
        Ok(())
    }
}

impl Sealed for BranchExchangeInstruction {

}

} // verus!
