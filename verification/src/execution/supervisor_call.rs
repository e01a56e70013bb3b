//! Supervisor call (SVC).

use super::private::Sealed;
use super::{ExecutableInstruction, ExecutionError};
use crate::cpu::registers::{R0, R7};
use crate::cpu::{Cpu, ExecutionState, ExitStatus};
use crate::emulator::Emulator;
use crate::instructions::SupervisorCallInstruction;
use vstd::prelude::*;

verus! {

/// The CPU after a supervisor call. The call number is in R7; call 1 is
/// exit, with the exit code in R0, and finishes execution. Other calls do
/// nothing.
pub open spec fn supervisor_call_effect(cpu: Cpu) -> Cpu {
    if cpu.registers[7] == 1 {
        Cpu {
            state: ExecutionState::FinishedExecution(ExitStatus { exit_code: cpu.registers[0] as i32 }),
            ..cpu
        }
    } else {
        cpu
    }
}

impl SupervisorCallInstruction {
    /// Executes the instruction on a CPU.
    pub fn execute_on(&self, cpu: &mut Cpu)
        ensures
            *final(cpu) == supervisor_call_effect(*old(cpu)),
    {
        let syscall_number = cpu.register(R7);
        if syscall_number == 1 {
            let exit_code = cpu.register(R0) as i32;
            cpu.set_exit(ExitStatus { exit_code });
        }
    }
}

impl ExecutableInstruction for SupervisorCallInstruction {
    open spec fn supported(&self) -> bool {
        true
    }

    fn execute_with(&self, emulator: &mut Emulator) -> (r: Result<(), ExecutionError>)
        ensures
            r == Ok::<(), ExecutionError>(()),
            final(emulator).cpu == supervisor_call_effect(old(emulator).cpu),
            final(emulator).memory_bus == old(emulator).memory_bus,
            final(emulator).endian == old(emulator).endian,
            final(emulator).breakpoint_destructive == old(emulator).breakpoint_destructive,
    {
        self.execute_on(&mut emulator.cpu);
        Ok(())
    }
}

impl Sealed for SupervisorCallInstruction {

}

} // verus!
