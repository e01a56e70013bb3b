//! The emulator: a CPU and a memory bus, with program loading, stepping and
//! breakpoints.

use crate::cpu::registers::PC;
use crate::cpu::{condition_holds, zero_registers, Cpu, CpuFlags, ExecutionState, ExitStatus};
use crate::execution::block_data_transfer::{block_load_post, block_store_post};
use crate::execution::branch::branch_effect;
use crate::execution::branch_exchange::branch_exchange_effect;
use crate::execution::data_processing::data_processing_effect;
use crate::execution::memory_access::{load_post, store_post};
use crate::execution::multiply::{multiply_effect, multiply_long_effect};
use crate::execution::supervisor_call::supervisor_call_effect;
use crate::execution::{ExecutableInstruction, ExecutionError};
use crate::instructions::fields::{ByteWordFlag, LoadStoreFlag};
use crate::instructions::{
    BlockDataTransferInstruction, BranchExchangeInstruction, BranchInstruction,
    BreakpointInstruction, DataProcessingInstruction, Instruction, InstructionConversionError,
    MemoryAccessInstruction, MultiplyInstruction, MultiplyLongInstruction,
    SupervisorCallInstruction,
};
use crate::memory::bus::{
    peripheral_answered_byte_read, peripheral_answered_byte_write, peripheral_answered_read,
    peripheral_answered_write, read32_spec, read_byte_spec, region_of, sp_default_spec, write32_spec,
    write_byte_spec, zeros, MemModel, Region,
};
use crate::memory::{
    Bus, Bytes, Endian, MemoryAccessError, MemoryAccessResult, MemoryMappedPeripheral, Word,
    KIBIBYTE,
};
use std::collections::HashMap;
use vstd::prelude::*;

verus! {

/// Represents a breakpoint in the emulator.
///
/// When a breakpoint is hit, the emulator halts execution and provides
/// the instruction that the breakpoint replaced.
#[derive(Debug, Clone, Copy, PartialEq, Eq, Structural)]
pub struct Breakpoint {
    /// The memory address where the breakpoint is set.
    pub addr: Word,
    /// The instruction that was at this address before the breakpoint.
    pub instruction: Instruction,
}

/// Breakpoint addresses and the instructions they replaced.
pub type BreakpointMappings = HashMap<Word, u32>;

/// Main emulator struct that coordinates the CPU, memory bus, and execution.
pub struct Emulator {
    /// The emulated CPU instance.
    pub cpu: Cpu,
    /// The memory bus handling reads and writes.
    pub memory_bus: Bus,
    /// Current endianness (little or big).
    pub endian: Endian,
    /// Breakpoint addresses and the instructions they replaced,
    /// to restore them when breakpoints are removed.
    pub breakpoint_destructive: BreakpointMappings,
}

/// `new` is `old` with only its memory changed, to `mem`.
pub open spec fn memory_changed(old: Emulator, new: Emulator, mem: crate::memory::MemModel) -> bool {
    &&& new.memory_bus@ == mem
    &&& new.cpu == old.cpu
    &&& new.endian == old.endian
    &&& new.breakpoint_destructive == old.breakpoint_destructive
}

/// `new` is `old` with only the registers and the status register of its
/// CPU changed, to those of `effect`.
pub open spec fn cpu_step(old: Emulator, new: Emulator, effect: (Seq<u32>, u32)) -> bool {
    &&& crate::cpu::cpu_updated(old.cpu, new.cpu, effect.0, effect.1)
    &&& new.memory_bus == old.memory_bus
    &&& new.endian == old.endian
    &&& new.breakpoint_destructive == old.breakpoint_destructive
}

impl Emulator {
    /// Create an [Emulator] with the provided [Cpu] and [Bus] and [Endian].
    pub fn new(cpu: Cpu, memory_bus: Bus, endian: Endian) -> (r: Self)
        ensures
            r.cpu == cpu,
            r.memory_bus == memory_bus,
            r.endian == endian,
            r.breakpoint_destructive@ == Map::<u32, u32>::empty(),
    {
        Self { cpu, memory_bus, endian, breakpoint_destructive: HashMap::new() }
    }

    /// Reads a word in the emulator's byte order.
    pub fn read32(&self, addr: Word) -> (r: MemoryAccessResult<u32>)
        ensures
            r == read32_spec(self.memory_bus@, addr, self.endian, r),
            peripheral_answered_read(self.memory_bus@, addr, r),
    {
        match self.endian {
            Endian::Big => self.memory_bus.read32_be(addr),
            Endian::Little => self.memory_bus.read32_le(addr),
        }
    }

    /// Writes a word in the emulator's byte order.
    pub fn write32(&mut self, addr: Word, value: u32) -> (r: MemoryAccessResult<()>)
        ensures
            memory_changed(
                *old(self),
                *final(self),
                write32_spec(old(self).memory_bus@, addr, value, old(self).endian, r).0,
            ),
            r == write32_spec(old(self).memory_bus@, addr, value, old(self).endian, r).1,
            peripheral_answered_write(old(self).memory_bus@, addr, value, r),
    {
        match self.endian {
            Endian::Big => self.memory_bus.write32_be(addr, value),
            Endian::Little => self.memory_bus.write32_le(addr, value),
        }
    }

    /// Reads a byte; a single byte has no byte order.
    pub fn read_byte(&self, addr: Word) -> (r: MemoryAccessResult<u8>)
        ensures
            r == read_byte_spec(self.memory_bus@, addr, r),
            peripheral_answered_byte_read(self.memory_bus@, addr, r),
    {
        match self.endian {
            Endian::Big => self.memory_bus.read_byte_be(addr),
            Endian::Little => self.memory_bus.read_byte_le(addr),
        }
    }

    /// Writes a byte; a single byte has no byte order.
    pub fn write_byte(&mut self, addr: Word, value: u8) -> (r: MemoryAccessResult<()>)
        ensures
            memory_changed(
                *old(self),
                *final(self),
                write_byte_spec(old(self).memory_bus@, addr, value, r).0,
            ),
            r == write_byte_spec(old(self).memory_bus@, addr, value, r).1,
            peripheral_answered_byte_write(old(self).memory_bus@, addr, value, r),
    {
        match self.endian {
            Endian::Big => self.memory_bus.write_byte_be(addr, value),
            Endian::Little => self.memory_bus.write_byte_le(addr, value),
        }
    }
}


/// The word that marks a breakpoint in memory: a BKPT instruction.
pub const BREAKPOINT_INSTRUCTION: u32 = 0xE120_0070;

/// `v` is an outcome that reading a word at `addr` of `m` can give: in
/// RAM the one word there, in a mapped peripheral an answer it may give.
pub open spec fn reads(m: MemModel, addr: u32, endian: Endian, v: MemoryAccessResult<u32>) -> bool {
    &&& v == read32_spec(m, addr, endian, v)
    &&& peripheral_answered_read(m, addr, v)
}

/// `w` is an outcome that writing `value` at `addr` of `m` can give.
pub open spec fn writes(
    m: MemModel,
    addr: u32,
    value: u32,
    endian: Endian,
    w: MemoryAccessResult<()>,
) -> bool {
    w == write32_spec(m, addr, value, endian, w).1
}

/// The CPU is stopped at the breakpoint at `addr`.
pub open spec fn stopped_at(state: ExecutionState, addr: u32) -> bool {
    match state {
        ExecutionState::Breakpoint(bp) => bp.addr == addr,
        _ => false,
    }
}

/// `new` is `old` with only its breakpoint table changed, to `table`.
pub open spec fn table_changed(old: Emulator, new: Emulator, table: Map<u32, u32>) -> bool {
    &&& new.breakpoint_destructive@ == table
    &&& new.cpu == old.cpu
    &&& new.memory_bus@ == old.memory_bus@
    &&& new.endian == old.endian
}

/// `new` is `old` with the execution state of its CPU set to `state`.
pub open spec fn state_set(old: Emulator, new: Emulator, state: ExecutionState) -> bool {
    &&& new.cpu == (Cpu { state, ..old.cpu })
    &&& new.memory_bus == old.memory_bus
    &&& new.endian == old.endian
    &&& new.breakpoint_destructive == old.breakpoint_destructive
}

/// `new` is `mid` with its PC moved to the next word.
pub open spec fn pc_advanced(mid: Emulator, new: Emulator) -> bool {
    cpu_step(
        mid,
        new,
        (
            mid.cpu.registers@.update(15, mid.cpu.registers[15].wrapping_add(4)),
            mid.cpu.cpsr.0,
        ),
    )
}

/// Whether the emulator can execute `instr`: byte transfers are not
/// supported.
pub open spec fn can_execute(instr: Instruction) -> bool {
    match instr {
        Instruction::MemoryAccess(i) => i.b() == ByteWordFlag::Word,
        _ => true,
    }
}

/// Executing a breakpoint instruction: the breakpoint at the PC becomes the
/// execution state, holding the instruction it replaced; without a saved
/// instruction, or with one that does not decode, nothing changes.
pub open spec fn breakpoint_post(old: Emulator, new: Emulator, r: Result<(), ExecutionError>) -> bool {
    let pc = old.cpu.registers[15];
    if !old.breakpoint_destructive@.contains_key(pc) {
        &&& r == Err::<(), ExecutionError>(
            ExecutionError::MemoryAccessError(MemoryAccessError::InvalidReadPermission { addr: pc }),
        )
        &&& new == old
    } else {
        match Instruction::decode(old.breakpoint_destructive@[pc]) {
            Err(e) => r == Err::<(), ExecutionError>(ExecutionError::InstructionConversionError(e))
                && new == old,
            Ok(inst) => r == Ok::<(), ExecutionError>(()) && state_set(
                old,
                new,
                ExecutionState::Breakpoint(Breakpoint { addr: pc, instruction: inst }),
            ),
        }
    }
}

/// What executing `instr` does to `old`, giving `new` and `r`, before the PC
/// moves on.
pub open spec fn executed(
    old: Emulator,
    new: Emulator,
    instr: Instruction,
    r: Result<(), ExecutionError>,
) -> bool {
    match instr {
        Instruction::DataProcessing(i) => r == Ok::<(), ExecutionError>(()) && cpu_step(
            old,
            new,
            data_processing_effect(old.cpu, i),
        ),
        Instruction::MemoryAccess(i) => if i.l() == LoadStoreFlag::Load {
            exists|data: MemoryAccessResult<u32>| #[trigger] load_post(old, new, i, data, r)
        } else {
            exists|reply: MemoryAccessResult<()>| #[trigger] store_post(old, new, i, reply, r)
        },
        Instruction::BlockDataTransfer(i) => if i.l() == LoadStoreFlag::Load {
            exists|replies: Seq<MemoryAccessResult<u32>>|
                #[trigger] block_load_post(old, new, i, replies, r)
        } else {
            exists|replies: Seq<MemoryAccessResult<()>>|
                #[trigger] block_store_post(old, new, i, replies, r)
        },
        Instruction::Branch(i) => r == Ok::<(), ExecutionError>(()) && cpu_step(
            old,
            new,
            branch_effect(old.cpu, i),
        ),
        Instruction::BranchExchange(i) => r == Ok::<(), ExecutionError>(()) && cpu_step(
            old,
            new,
            branch_exchange_effect(old.cpu, i),
        ),
        Instruction::SupervisorCall(_) => {
            &&& r == Ok::<(), ExecutionError>(())
            &&& new.cpu == supervisor_call_effect(old.cpu)
            &&& new.memory_bus == old.memory_bus
            &&& new.endian == old.endian
            &&& new.breakpoint_destructive == old.breakpoint_destructive
        },
        Instruction::Multiply(i) => r == Ok::<(), ExecutionError>(()) && cpu_step(
            old,
            new,
            multiply_effect(old.cpu, i),
        ),
        Instruction::MultiplyLong(i) => r == Ok::<(), ExecutionError>(()) && cpu_step(
            old,
            new,
            multiply_long_effect(old.cpu, i),
        ),
        Instruction::Breakpoint(_) => breakpoint_post(old, new, r),
    }
}

/// Whether the PC moves on after `instr` succeeds without changing it:
/// branches and breakpoints never move it on.
pub open spec fn advances_pc(instr: Instruction) -> bool {
    match instr {
        Instruction::Branch(_) | Instruction::BranchExchange(_) | Instruction::Breakpoint(_) => false,
        _ => true,
    }
}

/// Executing one instruction: its effect, `mid`, then, if it succeeded, is
/// not a branch or breakpoint and left the PC where it was, the PC moved to
/// the next word.
pub open spec fn single_post(
    old: Emulator,
    mid: Emulator,
    new: Emulator,
    instr: Instruction,
    r: Result<(), ExecutionError>,
) -> bool {
    &&& executed(old, mid, instr, r)
    &&& if r is Ok && advances_pc(instr) && mid.cpu.registers[15] == old.cpu.registers[15] {
        pc_advanced(mid, new)
    } else {
        new == mid
    }
}

/// A step from `old` that fetched `fetched` from the PC.
pub open spec fn fetched_step(
    old: Emulator,
    new: Emulator,
    fetched: MemoryAccessResult<u32>,
    r: Result<(), ExecutionError>,
) -> bool {
    match fetched {
        Err(e) => r == Err::<(), ExecutionError>(ExecutionError::MemoryAccessError(e)) && new == old,
        Ok(raw) => match Instruction::decode(raw) {
            Err(e) => r == Err::<(), ExecutionError>(ExecutionError::InstructionConversionError(e))
                && new == old,
            Ok(inst) => if condition_holds(inst.cond(), old.cpu.cpsr.0) {
                exists|mid: Emulator| #[trigger] single_post(old, mid, new, inst, r)
            } else {
                r == Ok::<(), ExecutionError>(()) && pc_advanced(old, new)
            },
        },
    }
}

/// One step: at a breakpoint, report it; when finished, do nothing;
/// otherwise fetch the word at the PC, decode it, and execute it if its
/// condition holds, else move the PC on.
pub open spec fn step_post(old: Emulator, new: Emulator, r: Result<(), ExecutionError>) -> bool {
    match old.cpu.state {
        ExecutionState::Breakpoint(bp) => r == Err::<(), ExecutionError>(
            ExecutionError::Breakpoint(bp),
        ) && new == old,
        ExecutionState::FinishedExecution(_) => r == Ok::<(), ExecutionError>(()) && new == old,
        _ => exists|fetched: MemoryAccessResult<u32>|
            {
                &&& #[trigger] reads(old.memory_bus@, old.cpu.registers[15], old.endian, fetched)
                &&& fetched_step(old, new, fetched, r)
            },
    }
}

/// A step from `emu` that fetched `fetched` can run: the word is no byte
/// transfer whose condition holds.
pub open spec fn fetched_supported(emu: Emulator, fetched: MemoryAccessResult<u32>) -> bool {
    fetched matches Ok(raw) ==> (Instruction::decode(raw) matches Ok(inst) ==> (condition_holds(
        inst.cond(),
        emu.cpu.cpsr.0,
    ) ==> can_execute(inst)))
}

/// `states` is a run: each state but the last is unfinished, and a step
/// from it returned `Ok` and gave the next.
pub open spec fn is_run(states: Seq<Emulator>) -> bool {
    &&& states.len() >= 1
    &&& forall|i: int|
        0 <= i < states.len() - 1 ==> !(#[trigger] states[i].cpu.state is FinishedExecution)
            && step_post(states[i], states[i + 1], Ok(()))
}

/// A run that had taken `n` steps to reach `last` ended in `new`, giving
/// `r`: finished (or out of steps) with `Ok`, the error of one more step
/// that failed, or `None` before a word that cannot be stepped.
pub open spec fn run_ended(
    last: Emulator,
    new: Emulator,
    n: nat,
    r: Option<Result<(), ExecutionError>>,
) -> bool {
    match r {
        Some(Ok(())) => new == last && (last.cpu.state is FinishedExecution || n == u64::MAX),
        Some(Err(e)) => !(last.cpu.state is FinishedExecution) && step_post(
            last,
            new,
            Err::<(), ExecutionError>(e),
        ),
        None => {
            &&& new == last
            &&& !(last.cpu.state is FinishedExecution)
            &&& exists|fetched: MemoryAccessResult<u32>|
                {
                    &&& #[trigger] reads(last.memory_bus@, last.cpu.registers[15], last.endian, fetched)
                    &&& !fetched_supported(last, fetched)
                }
        },
    }
}

/// Every word that a step could fetch and execute is supported.
pub open spec fn step_supported(emu: Emulator) -> bool {
    match emu.cpu.state {
        ExecutionState::Breakpoint(_) | ExecutionState::FinishedExecution(_) => true,
        _ => forall|fetched: MemoryAccessResult<u32>|
            #[trigger] reads(emu.memory_bus@, emu.cpu.registers[15], emu.endian, fetched)
                ==> fetched_supported(emu, fetched),
    }
}

/// What [Emulator::can_step] answers: yes when stopped or finished;
/// otherwise no for a PC in the peripheral region, and elsewhere whether
/// every outcome of the fetch can be stepped.
pub open spec fn step_checked(emu: Emulator) -> bool {
    match emu.cpu.state {
        ExecutionState::Breakpoint(_) | ExecutionState::FinishedExecution(_) => true,
        _ => !(Bus::PERIPHERAL_BEGIN <= emu.cpu.registers[15] <= Bus::PERIPHERAL_END)
            && step_supported(emu),
    }
}

/// Writing a breakpoint at `addr` of `m` gave `r` and left `m2`: the word
/// there is read, then the breakpoint written over it.
pub open spec fn patch_breakpoint_post(
    m: MemModel,
    m2: MemModel,
    addr: u32,
    endian: Endian,
    r: MemoryAccessResult<u32>,
) -> bool {
    exists|read: MemoryAccessResult<u32>|
        {
            &&& #[trigger] reads(m, addr, endian, read)
            &&& match read {
                Err(e) => r == Err::<u32, MemoryAccessError>(e) && m2 == m,
                Ok(w) => exists|written: MemoryAccessResult<()>|
                    {
                        &&& #[trigger] writes(m, addr, BREAKPOINT_INSTRUCTION, endian, written)
                        &&& m2 == write32_spec(m, addr, BREAKPOINT_INSTRUCTION, endian, written).0
                        &&& match written {
                            Ok(_) => r == Ok::<u32, MemoryAccessError>(w),
                            Err(e) => r == Err::<u32, MemoryAccessError>(e),
                        }
                    },
            }
        }
}

/// Writing the breakpoint over the word at `addr` gave `r` and left `new`
/// with the table `table`, the CPU and byte order unchanged.
pub open spec fn patched_with_table(
    old: Emulator,
    new: Emulator,
    addr: u32,
    table: Map<u32, u32>,
    r: MemoryAccessResult<()>,
) -> bool {
    &&& new.breakpoint_destructive@ == table
    &&& new.cpu == old.cpu
    &&& new.endian == old.endian
    &&& exists|patched: MemoryAccessResult<u32>|
        {
            &&& #[trigger] patch_breakpoint_post(
                old.memory_bus@,
                new.memory_bus@,
                addr,
                old.endian,
                patched,
            )
            &&& match patched {
                Ok(_) => r == Ok::<(), MemoryAccessError>(()),
                Err(e) => r == Err::<(), MemoryAccessError>(e),
            }
        }
}

/// Adding a breakpoint at `addr`. Where one is there already, the word it
/// replaced stays saved and the breakpoint is written again. Otherwise the
/// word there is saved in the table, then the breakpoint written over it.
pub open spec fn add_breakpoint_post(
    old: Emulator,
    new: Emulator,
    addr: u32,
    r: MemoryAccessResult<()>,
) -> bool {
    if old.breakpoint_destructive@.contains_key(addr) {
        patched_with_table(old, new, addr, old.breakpoint_destructive@, r)
    } else {
        exists|read: MemoryAccessResult<u32>|
            {
                &&& #[trigger] reads(old.memory_bus@, addr, old.endian, read)
                &&& match read {
                    Err(e) => r == Err::<(), MemoryAccessError>(e) && new == old,
                    Ok(w) => patched_with_table(
                        old,
                        new,
                        addr,
                        old.breakpoint_destructive@.insert(addr, w),
                        r,
                    ),
                }
            }
    }
}

/// Removing the breakpoint at `addr`: if the table holds it, it leaves the
/// table and the saved word is written back; otherwise nothing happens.
pub open spec fn remove_breakpoint_post(
    old: Emulator,
    new: Emulator,
    addr: u32,
    r: MemoryAccessResult<()>,
) -> bool {
    if old.breakpoint_destructive@.contains_key(addr) {
        let saved = old.breakpoint_destructive@[addr];
        &&& new.breakpoint_destructive@ == old.breakpoint_destructive@.remove(addr)
        &&& new.cpu == old.cpu
        &&& new.endian == old.endian
        &&& writes(old.memory_bus@, addr, saved, old.endian, r)
        &&& new.memory_bus@ == write32_spec(old.memory_bus@, addr, saved, old.endian, r).0
    } else {
        &&& r == Ok::<(), MemoryAccessError>(())
        &&& table_changed(old, new, old.breakpoint_destructive@)
    }
}

/// Restoring the instruction at `addr`: with a breakpoint there, the
/// saved word is written back and dropped from the table, and a CPU stopped
/// at that breakpoint runs again once the write succeeded; without one, the
/// address is reported and nothing changes.
pub open spec fn restore_post(old: Emulator, new: Emulator, addr: u32, r: MemoryAccessResult<()>) -> bool {
    if old.breakpoint_destructive@.contains_key(addr) {
        let saved = old.breakpoint_destructive@[addr];
        &&& new.breakpoint_destructive@ == old.breakpoint_destructive@.remove(addr)
        &&& new.endian == old.endian
        &&& writes(old.memory_bus@, addr, saved, old.endian, r)
        &&& new.memory_bus@ == write32_spec(old.memory_bus@, addr, saved, old.endian, r).0
        &&& if r is Ok && stopped_at(old.cpu.state, addr) {
            new.cpu == (Cpu { state: ExecutionState::Running, ..old.cpu })
        } else {
            new.cpu == old.cpu
        }
    } else {
        &&& r == Err::<(), MemoryAccessError>(MemoryAccessError::InvalidReadPermission { addr })
        &&& table_changed(old, new, old.breakpoint_destructive@)
    }
}

/// Restoring, in RAM, the breakpoint the CPU is stopped at: once the write
/// succeeds, the word saved for it reads back at its address, the table no
/// longer holds the address, and the CPU is running.
pub proof fn lemma_restore_reads_back(
    old: Emulator,
    new: Emulator,
    addr: u32,
    r: MemoryAccessResult<()>,
    probe: MemoryAccessResult<u32>,
)
    requires
        region_of(addr) != Region::Peripheral,
        old.breakpoint_destructive@.contains_key(addr),
        stopped_at(old.cpu.state, addr),
        restore_post(old, new, addr, r),
        r is Ok,
    ensures
        read32_spec(new.memory_bus@, addr, new.endian, probe) == Ok::<u32, MemoryAccessError>(
            old.breakpoint_destructive@[addr],
        ),
        !new.breakpoint_destructive@.contains_key(addr),
        new.cpu.state == ExecutionState::Running,
{
    let saved = old.breakpoint_destructive@[addr];
    crate::memory::bus::lemma_write32_then_read32(old.memory_bus@, addr, saved, old.endian, r, probe);
}

/// The instructions and the breakpoint table, as a loaded program leaves
/// them: `code` in the code region, `sram` (or nothing) grown with zeros to
/// `sram_size` bytes if shorter, `external` (or nothing), no peripherals, no
/// breakpoints, a reset CPU with the stack pointer past SRAM.
pub open spec fn loaded_program(
    old: Emulator,
    new: Emulator,
    code: Seq<u8>,
    sram: Seq<u8>,
    external: Seq<u8>,
    sram_size: u32,
) -> bool {
    let m = new.memory_bus@;
    &&& m.code == code
    &&& m.external == external
    &&& m.peripherals == Seq::<MemoryMappedPeripheral>::empty()
    &&& m.sram == if sram.len() < sram_size {
        sram + zeros((sram_size - sram.len()) as nat)
    } else {
        sram
    }
    &&& new.breakpoint_destructive@ == Map::<u32, u32>::empty()
    &&& new.endian == old.endian
    &&& new.cpu.registers@ == zero_registers().update(13, sp_default_spec(m))
    &&& new.cpu == (Cpu {
        registers: new.cpu.registers,
        cpsr: CpuFlags(0x000000D3),
        state: ExecutionState::Halted,
        ..old.cpu
    })
}

/// Running the instruction `inst` from `running`, as a step would: it is
/// executed if its condition holds, else only the PC moves on.
pub open spec fn resumed(
    running: Emulator,
    executed_state: Emulator,
    inst: Instruction,
    r1: Result<(), ExecutionError>,
) -> bool {
    if condition_holds(inst.cond(), running.cpu.cpsr.0) {
        exists|mid: Emulator| #[trigger] single_post(running, mid, executed_state, inst, r1)
    } else {
        r1 == Ok::<(), ExecutionError>(()) && pc_advanced(running, executed_state)
    }
}

/// After the word saved for a breakpoint was written back: the CPU was
/// set running, `inst` run as a step would run it, the breakpoint added
/// again and the CPU set running again, each step stopping the whole at its
/// first failure.
pub open spec fn after_resume(
    patched: Emulator,
    running: Emulator,
    executed_state: Emulator,
    new: Emulator,
    inst: Instruction,
    addr: u32,
    r1: Result<(), ExecutionError>,
    r: Result<(), ExecutionError>,
) -> bool {
    &&& state_set(patched, running, ExecutionState::Running)
    &&& resumed(running, executed_state, inst, r1)
    &&& match r1 {
        Err(e) => r == Err::<(), ExecutionError>(e) && new == executed_state,
        Ok(_) => exists|re_added: Emulator, r2: MemoryAccessResult<()>|
            {
                &&& #[trigger] add_breakpoint_post(executed_state, re_added, addr, r2)
                &&& match r2 {
                    Err(e) => r == Err::<(), ExecutionError>(ExecutionError::MemoryAccessError(e))
                        && new == re_added,
                    Ok(_) => r == Ok::<(), ExecutionError>(()) && state_set(
                        re_added,
                        new,
                        ExecutionState::Running,
                    ),
                }
            },
    }
}

/// Stepping over the breakpoint at `addr`, whose saved word was written
/// back (giving `patched`, with outcome `w`), then decoded and executed.
pub open spec fn over_breakpoint(
    old: Emulator,
    patched: Emulator,
    new: Emulator,
    addr: u32,
    w: MemoryAccessResult<()>,
    r: Result<(), ExecutionError>,
) -> bool {
    let saved = old.breakpoint_destructive@[addr];
    &&& writes(old.memory_bus@, addr, saved, old.endian, w)
    &&& memory_changed(old, patched, write32_spec(old.memory_bus@, addr, saved, old.endian, w).0)
    &&& match w {
        Err(e) => r == Err::<(), ExecutionError>(ExecutionError::MemoryAccessError(e)) && new
            == patched,
        Ok(_) => match Instruction::decode(saved) {
            Err(e) => r == Err::<(), ExecutionError>(ExecutionError::InstructionConversionError(e))
                && new == patched,
            Ok(inst) => exists|
                running: Emulator,
                executed_state: Emulator,
                r1: Result<(), ExecutionError>,
            | #[trigger] after_resume(patched, running, executed_state, new, inst, addr, r1, r),
        },
    }
}

/// Stepping over the breakpoint the CPU is stopped at: the instruction it
/// replaced is written back and run as a step would run it (executed if its
/// condition holds, else the PC moves on), and the breakpoint is put back. When not stopped at a breakpoint, nothing
/// happens; without a saved word for it, nothing changes and the address is
/// reported.
pub open spec fn step_over_post(old: Emulator, new: Emulator, r: Result<(), ExecutionError>) -> bool {
    match old.cpu.state {
        ExecutionState::Breakpoint(bp) => if !old.breakpoint_destructive@.contains_key(bp.addr) {
            &&& r == Err::<(), ExecutionError>(
                ExecutionError::MemoryAccessError(
                    MemoryAccessError::InvalidReadPermission { addr: bp.addr },
                ),
            )
            &&& new == old
        } else {
            exists|patched: Emulator, w: MemoryAccessResult<()>|
                #[trigger] over_breakpoint(old, patched, new, bp.addr, w, r)
        },
        _ => r == Ok::<(), ExecutionError>(()) && new == old,
    }
}

/// The instruction saved for the breakpoint the CPU is stopped at, if any,
/// can be executed where its condition holds.
pub open spec fn step_over_supported(emu: Emulator) -> bool {
    match emu.cpu.state {
        ExecutionState::Breakpoint(bp) => emu.breakpoint_destructive@.contains_key(bp.addr) ==> (
        Instruction::decode(emu.breakpoint_destructive@[bp.addr]) matches Ok(inst) ==> (
        condition_holds(inst.cond(), emu.cpu.cpsr.0) ==> can_execute(inst))),
        _ => true,
    }
}

/// Adding a breakpoint to RAM where there was none, and removing it again,
/// leaves the memory as it was, and the breakpoint table without the
/// address.
pub proof fn lemma_add_then_remove_breakpoint(
    old: Emulator,
    mid: Emulator,
    new: Emulator,
    addr: u32,
    added: MemoryAccessResult<()>,
    removed: MemoryAccessResult<()>,
)
    requires
        region_of(addr) != Region::Peripheral,
        !old.breakpoint_destructive@.contains_key(addr),
        add_breakpoint_post(old, mid, addr, added),
        added is Ok,
        remove_breakpoint_post(mid, new, addr, removed),
    ensures
        removed is Ok,
        new.memory_bus@ == old.memory_bus@,
        new.breakpoint_destructive@ == old.breakpoint_destructive@.remove(addr),
        new.cpu == old.cpu,
{
    let m = old.memory_bus@;
    let e = old.endian;
    let read = choose|read: MemoryAccessResult<u32>|
        #[trigger] reads(m, addr, e, read) && match read {
            Err(err) => added == Err::<(), MemoryAccessError>(err) && mid == old,
            Ok(w) => patched_with_table(
                old,
                mid,
                addr,
                old.breakpoint_destructive@.insert(addr, w),
                added,
            ),
        };
    let w = read->Ok_0;
    let patched = choose|patched: MemoryAccessResult<u32>|
        #[trigger] patch_breakpoint_post(m, mid.memory_bus@, addr, e, patched) && match patched {
            Ok(_) => added == Ok::<(), MemoryAccessError>(()),
            Err(err) => added == Err::<(), MemoryAccessError>(err),
        };
    let read2 = choose|read2: MemoryAccessResult<u32>|
        #[trigger] reads(m, addr, e, read2) && match read2 {
            Err(err) => patched == Err::<u32, MemoryAccessError>(err) && mid.memory_bus@ == m,
            Ok(w2) => exists|written: MemoryAccessResult<()>|
                {
                    &&& #[trigger] writes(m, addr, BREAKPOINT_INSTRUCTION, e, written)
                    &&& mid.memory_bus@ == write32_spec(m, addr, BREAKPOINT_INSTRUCTION, e, written).0
                    &&& match written {
                        Ok(_) => patched == Ok::<u32, MemoryAccessError>(w2),
                        Err(err) => patched == Err::<u32, MemoryAccessError>(err),
                    }
                },
        };
    let written = choose|written: MemoryAccessResult<()>|
        #[trigger] writes(m, addr, BREAKPOINT_INSTRUCTION, e, written) && mid.memory_bus@
            == write32_spec(m, addr, BREAKPOINT_INSTRUCTION, e, written).0 && match written {
            Ok(_) => patched == Ok::<u32, MemoryAccessError>(read2->Ok_0),
            Err(err) => patched == Err::<u32, MemoryAccessError>(err),
        };
    assert(mid.breakpoint_destructive@[addr] == w);
    crate::memory::bus::lemma_write32_then_read32(m, addr, BREAKPOINT_INSTRUCTION, e, written, read);
    lemma_rewrite_restores(m, addr, e, w, written, removed);
    assert(new.breakpoint_destructive@ =~= old.breakpoint_destructive@.remove(addr));
}

/// Stepping over a breakpoint in RAM that succeeds puts the breakpoint
/// back: the word at its address is a breakpoint again, the table holds the
/// address, and the CPU is running.
pub proof fn lemma_step_over_puts_breakpoint_back(
    old: Emulator,
    new: Emulator,
    r: Result<(), ExecutionError>,
    probe: MemoryAccessResult<u32>,
)
    requires
        step_over_post(old, new, r),
        r is Ok,
        old.cpu.state matches ExecutionState::Breakpoint(bp) && region_of(bp.addr) != Region::Peripheral,
    ensures
        old.cpu.state matches ExecutionState::Breakpoint(bp) && {
            &&& read32_spec(new.memory_bus@, bp.addr, new.endian, probe) == Ok::<u32, MemoryAccessError>(
                BREAKPOINT_INSTRUCTION,
            )
            &&& new.breakpoint_destructive@.contains_key(bp.addr)
            &&& new.cpu.state == ExecutionState::Running
        },
{
    let bp = old.cpu.state->Breakpoint_0;
    let addr = bp.addr;
    let (patched, w) = choose|patched: Emulator, w: MemoryAccessResult<()>|
        #[trigger] over_breakpoint(old, patched, new, addr, w, r);
    let saved = old.breakpoint_destructive@[addr];
    let inst = Instruction::decode(saved)->Ok_0;
    let (running, executed_state, r1) = choose|
        running: Emulator,
        executed_state: Emulator,
        r1: Result<(), ExecutionError>,
    | #[trigger] after_resume(patched, running, executed_state, new, inst, addr, r1, r);
    let (re_added, r2) = choose|re_added: Emulator, r2: MemoryAccessResult<()>|
        #[trigger] add_breakpoint_post(executed_state, re_added, addr, r2) && match r2 {
            Err(e) => r == Err::<(), ExecutionError>(ExecutionError::MemoryAccessError(e))
                && new == re_added,
            Ok(_) => r == Ok::<(), ExecutionError>(()) && state_set(
                re_added,
                new,
                ExecutionState::Running,
            ),
        };
    let m = executed_state.memory_bus@;
    let e = executed_state.endian;
    let read = choose|read: MemoryAccessResult<u32>|
        #[trigger] reads(m, addr, e, read) && match read {
            Err(err) => r2 == Err::<(), MemoryAccessError>(err) && re_added == executed_state,
            Ok(w) => {
                &&& re_added.breakpoint_destructive@ == executed_state.breakpoint_destructive@.insert(addr, w)
                &&& re_added.cpu == executed_state.cpu
                &&& re_added.endian == executed_state.endian
                &&& exists|patched: MemoryAccessResult<u32>|
                    {
                        &&& #[trigger] patch_breakpoint_post(m, re_added.memory_bus@, addr, e, patched)
                        &&& match patched {
                            Ok(_) => r2 == Ok::<(), MemoryAccessError>(()),
                            Err(err) => r2 == Err::<(), MemoryAccessError>(err),
                        }
                    }
            },
        };
    let patched2 = choose|patched: MemoryAccessResult<u32>|
        #[trigger] patch_breakpoint_post(m, re_added.memory_bus@, addr, e, patched) && match patched {
            Ok(_) => r2 == Ok::<(), MemoryAccessError>(()),
            Err(err) => r2 == Err::<(), MemoryAccessError>(err),
        };
    let read2 = choose|read2: MemoryAccessResult<u32>|
        #[trigger] reads(m, addr, e, read2) && match read2 {
            Err(err) => patched2 == Err::<u32, MemoryAccessError>(err) && re_added.memory_bus@ == m,
            Ok(w2) => exists|written: MemoryAccessResult<()>|
                {
                    &&& #[trigger] writes(m, addr, BREAKPOINT_INSTRUCTION, e, written)
                    &&& re_added.memory_bus@ == write32_spec(m, addr, BREAKPOINT_INSTRUCTION, e, written).0
                    &&& match written {
                        Ok(_) => patched2 == Ok::<u32, MemoryAccessError>(w2),
                        Err(err) => patched2 == Err::<u32, MemoryAccessError>(err),
                    }
                },
        };
    let written = choose|written: MemoryAccessResult<()>|
        #[trigger] writes(m, addr, BREAKPOINT_INSTRUCTION, e, written) && re_added.memory_bus@
            == write32_spec(m, addr, BREAKPOINT_INSTRUCTION, e, written).0 && match written {
            Ok(_) => patched2 == Ok::<u32, MemoryAccessError>(read2->Ok_0),
            Err(err) => patched2 == Err::<u32, MemoryAccessError>(err),
        };
    crate::memory::bus::lemma_write32_then_read32(m, addr, BREAKPOINT_INSTRUCTION, e, written, probe);
}

/// Writing over a RAM word and then writing back the word that was there
/// leaves the memory as it was.
pub proof fn lemma_rewrite_restores(
    m: MemModel,
    addr: u32,
    endian: Endian,
    w: u32,
    first: MemoryAccessResult<()>,
    second: MemoryAccessResult<()>,
)
    requires
        region_of(addr) != Region::Peripheral,
        read32_spec(m, addr, endian, Ok(w)) == Ok::<u32, MemoryAccessError>(w),
        write32_spec(m, addr, BREAKPOINT_INSTRUCTION, endian, first).1 is Ok,
    ensures
        write32_spec(
            write32_spec(m, addr, BREAKPOINT_INSTRUCTION, endian, first).0,
            addr,
            w,
            endian,
            second,
        ) == (m, Ok::<(), MemoryAccessError>(())),
{
    let region = region_of(addr);
    let offset = (addr - crate::memory::bus::region_begin(region)) as int;
    let pool = crate::memory::bus::region_pool(m, region);
    let stored = crate::memory::store_word(pool, offset, BREAKPOINT_INSTRUCTION, endian);
    crate::memory::lemma_store_then_load(pool, offset, BREAKPOINT_INSTRUCTION, endian);
    crate::memory::native::lemma_word_from_bytes_roundtrip(pool.subrange(offset, offset + 4), endian);
    assert(pool.subrange(offset, offset + 4)[0] == pool[offset]);
    assert(crate::memory::word_from_bytes(pool.subrange(offset, offset + 4), 0, endian) == w);
    assert(crate::memory::store_word(stored, offset, w, endian) =~= pool);
    let m2 = write32_spec(m, addr, BREAKPOINT_INSTRUCTION, endian, first).0;
    assert(write32_spec(m2, addr, w, endian, second).0 =~= m);
}


impl Emulator {
    /// Loads a program with a specified SRAM size: resets the emulator,
    /// loads the code, the SRAM (then grown to `sram_size` bytes if
    /// smaller) and the external memory, and points the stack pointer past
    /// SRAM.
    pub fn load_program_with_sram_size(
        &mut self,
        code: &[u8],
        sram: Option<&[u8]>,
        external: Option<&[u8]>,
        sram_size: u32,
    )
        requires
            sram_size <= isize::MAX,
        ensures
            loaded_program(
                *old(self),
                *final(self),
                code@,
                match sram {
                    Some(s) => s@,
                    None => Seq::empty(),
                },
                match external {
                    Some(e) => e@,
                    None => Seq::empty(),
                },
                sram_size,
            ),
    {
        self.reset();
        self.load_code(code);
        if let Some(sram) = sram {
            self.load_sram(sram);
        }
        self.memory_bus.reserve_exact_sram(sram_size);
        if let Some(external) = external {
            self.load_external(external);
        }
        self.set_sp_to_default();
        proof {
            assert(self.cpu.registers@ =~= zero_registers().update(13, sp_default_spec(self.memory_bus@)));
        }
    }

    /// Loads a program with 64 KiB of SRAM.
    pub fn load_program(&mut self, code: &[u8], sram: Option<&[u8]>, external: Option<&[u8]>)
        ensures
            loaded_program(
                *old(self),
                *final(self),
                code@,
                match sram {
                    Some(s) => s@,
                    None => Seq::empty(),
                },
                match external {
                    Some(e) => e@,
                    None => Seq::empty(),
                },
                0x10000,
            ),
    {
        self.load_program_with_sram_size(code, sram, external, KIBIBYTE * 64);
    }

    /// Loads ARM bytecode into the code memory region.
    pub fn load_code(&mut self, code: &[u8])
        ensures
            memory_changed(*old(self), *final(self), MemModel { code: code@, ..old(self).memory_bus@ }),
    {
        self.memory_bus.load_code(code);
    }

    /// Loads data into the SRAM region.
    pub fn load_sram(&mut self, sram: &[u8])
        ensures
            memory_changed(*old(self), *final(self), MemModel { sram: sram@, ..old(self).memory_bus@ }),
    {
        self.memory_bus.load_sram(sram);
    }

    /// Loads data into the external memory region.
    pub fn load_external(&mut self, external: &[u8])
        ensures
            memory_changed(
                *old(self),
                *final(self),
                MemModel { external: external@, ..old(self).memory_bus@ },
            ),
    {
        self.memory_bus.load_external(external);
    }

    /// Writes a breakpoint at `addr`, returning the word that was there.
    pub fn patch_breakpoint_at(&mut self, addr: Word) -> (r: MemoryAccessResult<u32>)
        ensures
            patch_breakpoint_post(
                old(self).memory_bus@,
                final(self).memory_bus@,
                addr,
                old(self).endian,
                r,
            ),
            final(self).cpu == old(self).cpu,
            final(self).endian == old(self).endian,
            final(self).breakpoint_destructive == old(self).breakpoint_destructive,
    {
        let ghost m = self.memory_bus@;
        let read = self.read32(addr);
        let instr = match read {
            Ok(instr) => instr,
            Err(e) => {
                assert(reads(m, addr, self.endian, read));
                return Err(e);
            },
        };
        let written = self.write32(addr, BREAKPOINT_INSTRUCTION);
        assert(reads(m, addr, self.endian, read));
        assert(writes(m, addr, BREAKPOINT_INSTRUCTION, self.endian, written));
        match written {
            Ok(_) => Ok(instr),
            Err(e) => Err(e),
        }
    }

    /// Writes the word `instr` at `addr`.
    pub fn patch_instruction_at(&mut self, addr: Word, instr: u32) -> (r: MemoryAccessResult<()>)
        ensures
            memory_changed(
                *old(self),
                *final(self),
                write32_spec(old(self).memory_bus@, addr, instr, old(self).endian, r).0,
            ),
            writes(old(self).memory_bus@, addr, instr, old(self).endian, r),
    {
        self.write32(addr, instr)
    }

    /// Saves `instr` as the word a breakpoint at `addr` replaced.
    pub fn save_breakpoint_at(&mut self, addr: Word, instr: u32)
        ensures
            table_changed(*old(self), *final(self), old(self).breakpoint_destructive@.insert(addr, instr)),
    {
        broadcast use vstd::std_specs::hash::group_hash_axioms;

        self.breakpoint_destructive.insert(addr, instr);
    }

    /// Adds a breakpoint at `addr`: saves the word there, then writes the
    /// breakpoint over it. A breakpoint already there keeps the word it
    /// replaced.
    pub fn add_breakpoint_at(&mut self, addr: Word) -> (r: MemoryAccessResult<()>)
        ensures
            add_breakpoint_post(*old(self), *final(self), addr, r),
    {
        broadcast use vstd::std_specs::hash::group_hash_axioms;

        let ghost old_self = *self;
        if self.breakpoint_destructive.contains_key(&addr) {
            let patched = self.patch_breakpoint_at(addr);
            assert(patch_breakpoint_post(old_self.memory_bus@, self.memory_bus@, addr, old_self.endian, patched));
            return match patched {
                Ok(_) => Ok(()),
                Err(e) => Err(e),
            };
        }
        let read = self.read32(addr);
        let instr = match read {
            Ok(instr) => instr,
            Err(e) => {
                assert(reads(old_self.memory_bus@, addr, self.endian, read));
                return Err(e);
            },
        };
        self.save_breakpoint_at(addr, instr);
        let ghost saved = *self;
        let patched = self.patch_breakpoint_at(addr);
        assert(reads(old_self.memory_bus@, addr, old_self.endian, read));
        assert(patch_breakpoint_post(saved.memory_bus@, self.memory_bus@, addr, saved.endian, patched));
        match patched {
            Ok(_) => Ok(()),
            Err(e) => Err(e),
        }
    }

    /// Removes the breakpoint at `addr`, writing back the word it replaced.
    /// Without a breakpoint there, nothing happens.
    pub fn remove_breakpoint_at(&mut self, addr: Word) -> (r: MemoryAccessResult<()>)
        ensures
            remove_breakpoint_post(*old(self), *final(self), addr, r),
    {
        broadcast use vstd::std_specs::hash::group_hash_axioms;

        let ghost before = self.breakpoint_destructive@;
        match self.breakpoint_destructive.remove(&addr) {
            Some(instr) => self.patch_instruction_at(addr, instr),
            None => {
                assert(self.breakpoint_destructive@ =~= before);
                Ok(())
            },
        }
    }

    /// Removes the breakpoint at `addr`, writing back the word it replaced;
    /// if the CPU is stopped at that breakpoint, it is running again.
    /// Without a breakpoint there, fails with the address.
    pub fn restore_instruction_at(&mut self, addr: Word) -> (r: MemoryAccessResult<()>)
        ensures
            restore_post(*old(self), *final(self), addr, r),
    {
        broadcast use vstd::std_specs::hash::group_hash_axioms;

        let ghost before = self.breakpoint_destructive@;
        match self.breakpoint_destructive.remove(&addr) {
            Some(instr) => {
                let written = self.patch_instruction_at(addr, instr);
                match written {
                    Ok(()) => {},
                    Err(e) => {
                        return Err(e);
                    },
                }
                let at_this_breakpoint = match self.cpu.state {
                    ExecutionState::Breakpoint(bp) => bp.addr == addr,
                    _ => false,
                };
                if at_this_breakpoint {
                    self.cpu.set_running();
                }
                Ok(())
            },
            None => {
                assert(self.breakpoint_destructive@ =~= before);
                Err(MemoryAccessError::InvalidReadPermission { addr })
            },
        }
    }

    /// Returns a read-only view of the code memory.
    pub fn get_read_only_memory_view(&self) -> (r: &Bytes)
        ensures
            r@ == self.memory_bus@.code,
    {
        self.memory_bus.get_read_only_memory_view()
    }

    /// Returns the list of memory-mapped peripherals.
    pub fn get_mapped_peripherals(&self) -> (r: &[MemoryMappedPeripheral])
        ensures
            r@ == self.memory_bus@.peripherals,
    {
        self.memory_bus.get_mapped_peripherals()
    }

    /// Adds a memory-mapped peripheral to the emulator.
    pub fn add_peripheral(&mut self, mapped_peripheral: MemoryMappedPeripheral)
        ensures
            memory_changed(
                *old(self),
                *final(self),
                MemModel {
                    peripherals: old(self).memory_bus@.peripherals.push(mapped_peripheral),
                    ..old(self).memory_bus@
                },
            ),
    {
        self.memory_bus.add_peripheral(mapped_peripheral);
    }

    /// Resets the CPU, empties the memory and forgets every breakpoint.
    pub fn reset(&mut self)
        ensures
            crate::cpu::is_reset_of(final(self).cpu, old(self).cpu),
            final(self).memory_bus@ == (MemModel {
                code: Seq::empty(),
                sram: Seq::empty(),
                external: Seq::empty(),
                peripherals: Seq::empty(),
            }),
            final(self).breakpoint_destructive@ == Map::<u32, u32>::empty(),
            final(self).endian == old(self).endian,
    {
        self.cpu.reset();
        self.memory_bus.reset();
        self.breakpoint_destructive = HashMap::new();
    }

    /// Resets the CPU, with the stack pointer past SRAM.
    pub fn reset_cpu(&mut self)
        ensures
            final(self).cpu.registers@ == zero_registers().update(13, sp_default_spec(old(self).memory_bus@)),
            final(self).cpu == (Cpu {
                registers: final(self).cpu.registers,
                cpsr: CpuFlags(0x000000D3),
                state: ExecutionState::Halted,
                ..old(self).cpu
            }),
            final(self).memory_bus == old(self).memory_bus,
            final(self).endian == old(self).endian,
            final(self).breakpoint_destructive == old(self).breakpoint_destructive,
    {
        self.cpu.reset();
        self.set_sp_to_default();
        assert(self.cpu.registers@ =~= zero_registers().update(13, sp_default_spec(self.memory_bus@)));
    }

    /// Points the stack pointer past SRAM.
    fn set_sp_to_default(&mut self)
        ensures
            final(self).cpu.registers@ == old(self).cpu.registers@.update(
                13,
                sp_default_spec(old(self).memory_bus@),
            ),
            final(self).cpu == (Cpu { registers: final(self).cpu.registers, ..old(self).cpu }),
            final(self).memory_bus == old(self).memory_bus,
            final(self).endian == old(self).endian,
            final(self).breakpoint_destructive == old(self).breakpoint_destructive,
    {
        let sp = self.memory_bus.get_sp_default_addr();
        self.cpu.set_sp(sp);
    }

    pub fn is_halted(&self) -> (r: bool)
        ensures
            r == (self.cpu.state is Halted || self.cpu.state is FinishedExecution),
    {
        self.cpu.is_halted()
    }

    pub fn is_finished(&self) -> (r: bool)
        ensures
            r == self.cpu.state is FinishedExecution,
    {
        self.cpu.is_finished()
    }

    /// Is the emulation finished execution?
    /// Has it returned from the main/_start function?
    pub fn is_done(&self) -> (r: bool)
        ensures
            r == self.cpu.state is FinishedExecution,
    {
        match self.cpu.state {
            ExecutionState::FinishedExecution(_) => true,
            _ => false,
        }
    }

    /// The exit status, once execution has finished.
    pub fn get_exit_status(&self) -> (r: Option<ExitStatus>)
        ensures
            r == match self.cpu.state {
                ExecutionState::FinishedExecution(status) => Some(status),
                _ => None,
            },
    {
        match self.cpu.state {
            ExecutionState::FinishedExecution(status) => Some(status),
            _ => None,
        }
    }

    /// Fetch the instruction at the address of the current PC value.
    pub fn fetch(&self) -> (r: MemoryAccessResult<u32>)
        ensures
            reads(self.memory_bus@, self.cpu.registers[15], self.endian, r),
    {
        self.read32(self.cpu.register(PC))
    }

    /// Decode the instruction representation given.
    pub fn decode(&self, instr: u32) -> (r: Result<Instruction, InstructionConversionError>)
        ensures
            r == Instruction::decode(instr),
    {
        Instruction::decode(instr)
    }

    /// Moves the PC to the next word.
    fn post_execution_update(&mut self)
        ensures
            pc_advanced(*old(self), *final(self)),
    {
        let pc = self.cpu.pc();
        self.cpu.set_pc(pc.wrapping_add(4));
    }

    pub fn set_endian(&mut self, endian: Endian)
        ensures
            *final(self) == (Emulator { endian, ..*old(self) }),
    {
        self.endian = endian;
    }

    pub fn use_little_endian(&mut self)
        ensures
            *final(self) == (Emulator { endian: Endian::Little, ..*old(self) }),
    {
        self.set_endian(Endian::Little);
    }

    pub fn use_big_endian(&mut self)
        ensures
            *final(self) == (Emulator { endian: Endian::Big, ..*old(self) }),
    {
        self.set_endian(Endian::Big);
    }

    /// The highest address of the address space.
    pub fn max_address(&self) -> (r: u32)
        ensures
            r == u32::MAX,
    {
        u32::MAX
    }

    /// Just execute without stopping: steps until the program finishes or
    /// a step fails, and stops there. `Some` holds the outcome: `Ok` once
    /// finished, or the error of the step that failed. `None` is returned
    /// where the next word is a byte transfer, which is not supported, with
    /// the state left before it. The run is bounded by `u64::MAX` steps,
    /// after which it returns `Some(Ok(()))` unfinished.
    pub fn execute(&mut self) -> (r: Option<Result<(), ExecutionError>>)
        ensures
            exists|states: Seq<Emulator>|
                {
                    &&& #[trigger] is_run(states)
                    &&& states[0] == *old(self)
                    &&& run_ended(states.last(), *final(self), (states.len() - 1) as nat, r)
                },
    {
        let ghost mut states: Seq<Emulator> = seq![*self];
        let mut remaining: u64 = u64::MAX;
        while remaining > 0
            invariant
                is_run(states),
                states[0] == *old(self),
                states.last() == *self,
                states.len() - 1 == u64::MAX - remaining,
            decreases remaining,
        {
            if self.is_done() {
                assert(run_ended(states.last(), *self, (states.len() - 1) as nat, Some(Ok(()))));
                return Some(Ok(()));
            }
            let ghost before = *self;
            match self.try_step() {
                Some(Ok(())) => {
                    proof {
                        let prev = states;
                        states = states.push(*self);
                        assert forall|i: int| 0 <= i < states.len() - 1 implies !(
                        #[trigger] states[i].cpu.state is FinishedExecution) && step_post(
                            states[i],
                            states[i + 1],
                            Ok(()),
                        ) by {
                            if i < prev.len() - 1 {
                                assert(states[i] == prev[i] && states[i + 1] == prev[i + 1]);
                            } else {
                                assert(states[i] == before && states[i + 1] == *self);
                            }
                        }
                    }
                },
                Some(Err(e)) => {
                    assert(run_ended(states.last(), *self, (states.len() - 1) as nat, Some(Err(e))));
                    return Some(Err(e));
                },
                None => {
                    assert(run_ended(states.last(), *self, (states.len() - 1) as nat, None));
                    return None;
                },
            }
            remaining = remaining - 1;
        }
        assert(run_ended(states.last(), *self, (states.len() - 1) as nat, Some(Ok(()))));
        Some(Ok(()))
    }
}


impl Emulator {
    pub fn execute_data_processing_instruction(&mut self, instr: DataProcessingInstruction) -> (r:
        Result<(), ExecutionError>)
        ensures
            executed(*old(self), *final(self), Instruction::DataProcessing(instr), r),
    {
        instr.execute_with(self)
    }

    /// Executes a single data transfer; byte transfers are not supported.
    pub fn execute_memory_access_instruction(&mut self, instr: MemoryAccessInstruction) -> (r:
        Result<(), ExecutionError>)
        requires
            instr.b() == ByteWordFlag::Word,
        ensures
            executed(*old(self), *final(self), Instruction::MemoryAccess(instr), r),
    {
        instr.execute_with(self)
    }

    pub fn execute_block_data_transfer_instruction(
        &mut self,
        instr: BlockDataTransferInstruction,
    ) -> (r: Result<(), ExecutionError>)
        ensures
            executed(*old(self), *final(self), Instruction::BlockDataTransfer(instr), r),
    {
        instr.execute_with(self)
    }

    pub fn execute_branch_instruction(&mut self, instr: BranchInstruction) -> (r: Result<
        (),
        ExecutionError,
    >)
        ensures
            executed(*old(self), *final(self), Instruction::Branch(instr), r),
    {
        instr.execute_with(self)
    }

    pub fn execute_branch_exchange_instruction(&mut self, instr: BranchExchangeInstruction) -> (r:
        Result<(), ExecutionError>)
        ensures
            executed(*old(self), *final(self), Instruction::BranchExchange(instr), r),
    {
        instr.execute_with(self)
    }

    pub fn execute_supervisor_call_instruction(&mut self, instr: SupervisorCallInstruction) -> (r:
        Result<(), ExecutionError>)
        ensures
            executed(*old(self), *final(self), Instruction::SupervisorCall(instr), r),
    {
        instr.execute_with(self)
    }

    pub fn execute_multiply_instruction(&mut self, instr: MultiplyInstruction) -> (r: Result<
        (),
        ExecutionError,
    >)
        ensures
            executed(*old(self), *final(self), Instruction::Multiply(instr), r),
    {
        instr.execute_with(self)
    }

    pub fn execute_multiply_long_instruction(&mut self, instr: MultiplyLongInstruction) -> (r:
        Result<(), ExecutionError>)
        ensures
            executed(*old(self), *final(self), Instruction::MultiplyLong(instr), r),
    {
        instr.execute_with(self)
    }

    /// Stops at the breakpoint at the PC, recording the instruction it
    /// replaced.
    pub fn execute_breakpoint_instruction(&mut self, instr: BreakpointInstruction) -> (r: Result<
        (),
        ExecutionError,
    >)
        ensures
            executed(*old(self), *final(self), Instruction::Breakpoint(instr), r),
    {
        broadcast use vstd::std_specs::hash::group_hash_axioms;

        let current_pc = self.cpu.pc();
        let replaced_instr_raw = match self.breakpoint_destructive.get(&current_pc) {
            Some(raw) => *raw,
            None => {
                return Err(
                    ExecutionError::MemoryAccessError(
                        MemoryAccessError::InvalidReadPermission { addr: current_pc },
                    ),
                );
            },
        };
        let replaced_instr_decoded = match self.decode(replaced_instr_raw) {
            Ok(inst) => inst,
            Err(e) => {
                return Err(ExecutionError::InstructionConversionError(e));
            },
        };
        self.cpu.set_breakpoint(Breakpoint { addr: current_pc, instruction: replaced_instr_decoded });
        Ok(())
    }

    /// Executes one instruction, then moves the PC on if the instruction
    /// succeeded, is not a branch or breakpoint, and left the PC in place.
    fn execute_single_instruction(&mut self, instruction: Instruction) -> (r: Result<
        (),
        ExecutionError,
    >)
        requires
            can_execute(instruction),
        ensures
            exists|mid: Emulator| #[trigger] single_post(*old(self), mid, *final(self), instruction, r),
    {
        let ghost old_self = *self;
        let pc_before = self.cpu.pc();
        let r = match instruction {
            Instruction::DataProcessing(instr) => self.execute_data_processing_instruction(instr),
            Instruction::MemoryAccess(instr) => self.execute_memory_access_instruction(instr),
            Instruction::BlockDataTransfer(instr) => self.execute_block_data_transfer_instruction(
                instr,
            ),
            Instruction::Branch(instr) => {
                let r = self.execute_branch_instruction(instr);
                assert(single_post(old_self, *self, *self, instruction, r));
                return r;
            },
            Instruction::BranchExchange(instr) => {
                let r = self.execute_branch_exchange_instruction(instr);
                assert(single_post(old_self, *self, *self, instruction, r));
                return r;
            },
            Instruction::SupervisorCall(instr) => self.execute_supervisor_call_instruction(instr),
            Instruction::Multiply(instr) => self.execute_multiply_instruction(instr),
            Instruction::MultiplyLong(instr) => self.execute_multiply_long_instruction(instr),
            Instruction::Breakpoint(instr) => {
                let r = self.execute_breakpoint_instruction(instr);
                assert(single_post(old_self, *self, *self, instruction, r));
                return r;
            },
        };
        let ghost mid = *self;
        match r {
            Ok(()) => {},
            Err(e) => {
                assert(single_post(old_self, mid, mid, instruction, r));
                return Err(e);
            },
        }
        if self.cpu.pc() == pc_before {
            self.post_execution_update();
        }
        assert(single_post(old_self, mid, *self, instruction, r));
        Ok(())
    }

    /// Step over one instruction, and then yield execution.
    pub fn step(&mut self) -> (r: Result<(), ExecutionError>)
        requires
            step_supported(*old(self)),
        ensures
            step_post(*old(self), *final(self), r),
    {
        match self.cpu.state {
            ExecutionState::Breakpoint(breakpoint) => {
                return Err(ExecutionError::Breakpoint(breakpoint));
            },
            ExecutionState::FinishedExecution(_) => {
                return Ok(());
            },
            _ => {},
        }
        let ghost old_self = *self;
        let fetched = self.fetch();
        let r = self.step_fetched(fetched);
        assert(fetched_step(old_self, *self, fetched, r));
        r
    }

    /// Like [Emulator::step], for any state: where the word fetched is a
    /// byte transfer whose condition holds, which is not supported, nothing
    /// is done and `None` is returned.
    pub fn try_step(&mut self) -> (r: Option<Result<(), ExecutionError>>)
        ensures
            match r {
                Some(res) => step_post(*old(self), *final(self), res),
                None => {
                    &&& *final(self) == *old(self)
                    &&& exists|fetched: MemoryAccessResult<u32>|
                        {
                            &&& #[trigger] reads(
                                old(self).memory_bus@,
                                old(self).cpu.registers[15],
                                old(self).endian,
                                fetched,
                            )
                            &&& !fetched_supported(*old(self), fetched)
                        }
                },
            },
    {
        match self.cpu.state {
            ExecutionState::Breakpoint(breakpoint) => {
                return Some(Err(ExecutionError::Breakpoint(breakpoint)));
            },
            ExecutionState::FinishedExecution(_) => {
                return Some(Ok(()));
            },
            _ => {},
        }
        let ghost old_self = *self;
        let fetched = self.fetch();
        if !self.supports_fetched(&fetched) {
            return None;
        }
        let r = self.step_fetched(fetched);
        assert(fetched_step(old_self, *self, fetched, r));
        Some(r)
    }

    /// Whether the word `fetched` can be stepped: it is no byte transfer
    /// whose condition holds.
    fn supports_fetched(&self, fetched: &MemoryAccessResult<u32>) -> (r: bool)
        ensures
            r == fetched_supported(*self, *fetched),
    {
        match fetched {
            Err(_) => true,
            Ok(raw) => match self.decode(*raw) {
                Err(_) => true,
                Ok(inst) => !self.cpu.should_execute(inst) || match inst {
                    Instruction::MemoryAccess(i) => i.b() == ByteWordFlag::Word,
                    _ => true,
                },
            },
        }
    }

    /// The rest of a step, once `fetched` has been read from the PC: decode
    /// it, and execute it if its condition holds, else move the PC on.
    fn step_fetched(&mut self, fetched: MemoryAccessResult<u32>) -> (r: Result<(), ExecutionError>)
        requires
            fetched_supported(*old(self), fetched),
        ensures
            fetched_step(*old(self), *final(self), fetched, r),
    {
        let ghost old_self = *self;
        let fetch = match fetched {
            Ok(raw) => raw,
            Err(e) => {
                return Err(ExecutionError::MemoryAccessError(e));
            },
        };
        let decode = match self.decode(fetch) {
            Ok(inst) => inst,
            Err(e) => {
                return Err(ExecutionError::InstructionConversionError(e));
            },
        };
        if self.cpu.should_execute(decode) {
            let r = self.execute_single_instruction(decode);
            assert(fetched_step(old_self, *self, fetched, r));
            r
        } else {
            self.post_execution_update();
            Ok(())
        }
    }

    /// Whether [Emulator::step] can run from this state: every word it
    /// could fetch and execute is supported. A PC in the peripheral region
    /// is refused, since a peripheral may answer anything.
    pub fn can_step(&self) -> (r: bool)
        ensures
            r == step_checked(*self),
            r ==> step_supported(*self),
    {
        match self.cpu.state {
            ExecutionState::Breakpoint(_) | ExecutionState::FinishedExecution(_) => {
                return true;
            },
            _ => {},
        }
        let pc = self.cpu.pc();
        if Bus::PERIPHERAL_BEGIN <= pc && pc <= Bus::PERIPHERAL_END {
            return false;
        }
        let fetched = self.fetch();
        let r = match fetched {
            Err(_) => true,
            Ok(raw) => match self.decode(raw) {
                Err(_) => true,
                Ok(inst) => !self.cpu.should_execute(inst) || match inst {
                    Instruction::MemoryAccess(i) => i.b() == ByteWordFlag::Word,
                    _ => true,
                },
            },
        };
        proof {
            assert forall|other: MemoryAccessResult<u32>|
                #[trigger] reads(self.memory_bus@, self.cpu.registers[15], self.endian, other) implies other
                == fetched by {}
        }
        r
    }

    /// Whether [Emulator::step_over_breakpoint] can run from this state: the
    /// instruction saved for the breakpoint the CPU is stopped at, if any,
    /// is supported.
    pub fn can_step_over_breakpoint(&self) -> (r: bool)
        ensures
            r == step_over_supported(*self),
    {
        broadcast use vstd::std_specs::hash::group_hash_axioms;

        match self.cpu.state {
            ExecutionState::Breakpoint(bp) => match self.breakpoint_destructive.get(&bp.addr) {
                None => true,
                Some(raw) => match self.decode(*raw) {
                    Err(_) => true,
                    Ok(inst) => !self.cpu.should_execute(inst) || match inst {
                        Instruction::MemoryAccess(i) => i.b() == ByteWordFlag::Word,
                        _ => true,
                    },
                },
            },
            _ => true,
        }
    }

    /// Steps over the breakpoint the CPU is stopped at: writes back the
    /// instruction it replaced, runs it as a step would (executed if its
    /// condition holds, else the PC moves on), and puts the breakpoint back.
    pub fn step_over_breakpoint(&mut self) -> (r: Result<(), ExecutionError>)
        requires
            step_over_supported(*old(self)),
        ensures
            step_over_post(*old(self), *final(self), r),
    {
        broadcast use vstd::std_specs::hash::group_hash_axioms;

        let ghost old_self = *self;
        let breakpoint_addr = match self.cpu.state {
            ExecutionState::Breakpoint(bp) => bp.addr,
            _ => {
                return Ok(());
            },
        };
        let replaced_instruction_raw = match self.breakpoint_destructive.get(&breakpoint_addr) {
            Some(instr) => *instr,
            None => {
                return Err(
                    ExecutionError::MemoryAccessError(
                        MemoryAccessError::InvalidReadPermission { addr: breakpoint_addr },
                    ),
                );
            },
        };
        let w = self.patch_instruction_at(breakpoint_addr, replaced_instruction_raw);
        let ghost patched = *self;
        match w {
            Ok(()) => {},
            Err(e) => {
                let r = Err(ExecutionError::MemoryAccessError(e));
                assert(over_breakpoint(old_self, patched, *self, breakpoint_addr, w, r));
                return r;
            },
        }
        let replaced_instruction_decoded = match self.decode(replaced_instruction_raw) {
            Ok(inst) => inst,
            Err(e) => {
                let r = Err(ExecutionError::InstructionConversionError(e));
                assert(over_breakpoint(old_self, patched, *self, breakpoint_addr, w, r));
                return r;
            },
        };
        self.cpu.set_running();
        let ghost running = *self;
        let r1 = if self.cpu.should_execute(replaced_instruction_decoded) {
            self.execute_single_instruction(replaced_instruction_decoded)
        } else {
            self.post_execution_update();
            Ok(())
        };
        let ghost executed_state = *self;
        assert(resumed(running, executed_state, replaced_instruction_decoded, r1));
        match r1 {
            Ok(()) => {},
            Err(e) => {
                let r = Err(e);
                assert(after_resume(
                    patched,
                    running,
                    executed_state,
                    *self,
                    replaced_instruction_decoded,
                    breakpoint_addr,
                    r1,
                    r,
                ));
                assert(over_breakpoint(old_self, patched, *self, breakpoint_addr, w, r));
                return r;
            },
        }
        let r2 = self.add_breakpoint_at(breakpoint_addr);
        let ghost re_added = *self;
        match r2 {
            Ok(()) => {},
            Err(e) => {
                let r = Err(ExecutionError::MemoryAccessError(e));
                assert(after_resume(
                    patched,
                    running,
                    executed_state,
                    *self,
                    replaced_instruction_decoded,
                    breakpoint_addr,
                    r1,
                    r,
                ));
                assert(over_breakpoint(old_self, patched, *self, breakpoint_addr, w, r));
                return r;
            },
        }
        self.cpu.set_running();
        assert(after_resume(
            patched,
            running,
            executed_state,
            *self,
            replaced_instruction_decoded,
            breakpoint_addr,
            r1,
            Ok(()),
        ));
        assert(over_breakpoint(old_self, patched, *self, breakpoint_addr, w, Ok(())));
        Ok(())
    }
}

} // verus!
