//! Branch (B, BL).

use super::private::Sealed;
use super::data_processing::wrap32;
use super::{ExecutableInstruction, ExecutionError};
use crate::cpu::Cpu;
use crate::emulator::{cpu_step, Emulator};
use crate::instructions::fields::LinkFlag;
use crate::instructions::BranchInstruction;
use vstd::prelude::*;

verus! {

/// A 24-bit field read as a signed number.
pub open spec fn sign_extend24(x: u32) -> int {
    if x >= 0x80_0000 {
        x - 0x100_0000
    } else {
        x as int
    }
}

/// Where a branch at `pc` with the 24-bit word offset `offset` goes: the
/// offset is counted in words from `pc + 8`, modulo 2^32.
pub open spec fn branch_target(pc: u32, offset: u32) -> u32 {
    wrap32(pc + 8 + 4 * sign_extend24(offset))
}

/// The registers after a branch: with the link bit LR gets `pc + 4`; PC gets
/// the target.
pub open spec fn branch_effect(cpu: Cpu, instr: BranchInstruction) -> (Seq<u32>, u32) {
    let regs = cpu.registers@;
    let pc = regs[15];
    let linked = if instr.l() == LinkFlag::Yes {
        regs.update(14, pc.wrapping_add(4))
    } else {
        regs
    };
    (linked.update(15, branch_target(pc, instr.offset())), cpu.cpsr.0)
}

/// The branch target, computed.
fn target_address(pc: u32, offset: u32) -> (r: u32)
    requires
        offset < 0x100_0000,
    ensures
        r == branch_target(pc, offset),
{
    let signed_offset: i64 = if offset & 0x0080_0000 != 0 {
        assert(offset & 0x0080_0000 != 0 ==> offset >= 0x80_0000) by (bit_vector);
        offset as i64 - 0x100_0000i64
    } else {
        assert(offset < 0x100_0000 && offset & 0x0080_0000 == 0 ==> offset < 0x80_0000) by (bit_vector);
        offset as i64
    };
    let target: i64 = pc as i64 + 8 + 4 * signed_offset;
    if target < 0 {
        (target + 0x1_0000_0000i64) as u32
    } else if target >= 0x1_0000_0000i64 {
        (target - 0x1_0000_0000i64) as u32
    } else {
        target as u32
    }
}

impl BranchInstruction {
    /// Executes the instruction on a CPU.
    pub fn execute_on(&self, cpu: &mut Cpu)
        ensures
            crate::cpu::cpu_updated(
                *old(cpu),
                *final(cpu),
                branch_effect(*old(cpu), *self).0,
                branch_effect(*old(cpu), *self).1,
            ),
    {
        if self.l() == LinkFlag::Yes {
            let return_address = cpu.pc().wrapping_add(4);
            cpu.set_lr(return_address);
        }
        let raw = self.0;
        assert(raw & 0xFF_FFFF < 0x100_0000) by (bit_vector);
        let target = target_address(cpu.pc(), self.offset());
        cpu.set_pc(target);
    }
}

impl ExecutableInstruction for BranchInstruction {
    open spec fn supported(&self) -> bool {
        true
    }

    fn execute_with(&self, emulator: &mut Emulator) -> (r: Result<(), ExecutionError>)
        ensures
            r == Ok::<(), ExecutionError>(()),
            cpu_step(*old(emulator), *final(emulator), branch_effect(old(emulator).cpu, *self)),
    {
        self.execute_on(&mut emulator.cpu);
        Ok(())
    }
}

impl Sealed for BranchInstruction {

}

} // verus!
