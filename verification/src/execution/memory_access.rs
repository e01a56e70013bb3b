//! Single data transfer (LDR, STR) of a word.

use super::private::Sealed;
use super::{shift, shift_with_carry, ExecutableInstruction, ExecutionError};
use crate::cpu::{flag_set, Cpu};
use crate::emulator::{cpu_step, Emulator};
use crate::instructions::fields::{
    ByteWordFlag, IndexFlag, LoadStoreFlag, OffsetType, UpDownFlag, WriteBackFlag,
};
use crate::instructions::{MemoryAccessInstruction, ShiftedRegisterOffset};
use crate::memory::bus::{read32_spec, write32_spec};
use crate::memory::MemoryAccessResult;
use vstd::prelude::*;

verus! {

/// The offset of a single data transfer: the 12-bit immediate, or the
/// register `rm` shifted as the barrel shifter shifts it.
pub open spec fn transfer_offset(cpu: Cpu, instr: MemoryAccessInstruction) -> u32 {
    match instr.i() {
        OffsetType::Immediate => instr.offset() as u32,
        OffsetType::Register => {
            let sro = ShiftedRegisterOffset(instr.offset());
            shift_with_carry(
                cpu.registers[sro.rm().index() as int],
                sro.shift_type(),
                sro.shift_amount() as u32,
                flag_set(cpu.cpsr.0, 0x2000_0000),
            ).0
        },
    }
}

/// The base register plus or minus the offset, modulo 2^32.
pub open spec fn updated_base(cpu: Cpu, instr: MemoryAccessInstruction) -> u32 {
    let base = cpu.registers[instr.rn().index() as int];
    match instr.u() {
        UpDownFlag::Add => base.wrapping_add(transfer_offset(cpu, instr)),
        UpDownFlag::Sub => base.wrapping_sub(transfer_offset(cpu, instr)),
    }
}

/// The address transferred: the updated base when pre-indexed, the base
/// itself when post-indexed.
pub open spec fn transfer_address(cpu: Cpu, instr: MemoryAccessInstruction) -> u32 {
    match instr.p() {
        IndexFlag::Pre => updated_base(cpu, instr),
        IndexFlag::Post => cpu.registers[instr.rn().index() as int],
    }
}

/// Whether the base register gets the updated base: always when
/// post-indexed, and when the write-back bit is set.
pub open spec fn writes_back(instr: MemoryAccessInstruction) -> bool {
    instr.p() == IndexFlag::Post || instr.w() == WriteBackFlag::Write
}

/// `regs` with the base register written back, if the instruction does.
pub open spec fn with_write_back(regs: Seq<u32>, cpu: Cpu, instr: MemoryAccessInstruction) -> Seq<u32> {
    if writes_back(instr) {
        regs.update(instr.rn().index() as int, updated_base(cpu, instr))
    } else {
        regs
    }
}

/// A load of a word that read `data` from the transfer address. On success
/// `rd` gets the word, then the base is written back; on failure nothing
/// changes.
pub open spec fn load_post(
    old: Emulator,
    new: Emulator,
    instr: MemoryAccessInstruction,
    data: MemoryAccessResult<u32>,
    r: Result<(), ExecutionError>,
) -> bool {
    let cpu = old.cpu;
    &&& data == read32_spec(old.memory_bus@, transfer_address(cpu, instr), old.endian, data)
    &&& match data {
        Err(e) => r == Err::<(), ExecutionError>(ExecutionError::MemoryAccessError(e)) && new == old,
        Ok(v) => r == Ok::<(), ExecutionError>(()) && cpu_step(
            old,
            new,
            (with_write_back(cpu.registers@.update(instr.rd().index() as int, v), cpu, instr), cpu.cpsr.0),
        ),
    }
}

/// A store of the word in `rd` to the transfer address, which the memory
/// answered with `reply`. On success the base is written back; on failure
/// the registers are unchanged.
pub open spec fn store_post(
    old: Emulator,
    new: Emulator,
    instr: MemoryAccessInstruction,
    reply: MemoryAccessResult<()>,
    r: Result<(), ExecutionError>,
) -> bool {
    let cpu = old.cpu;
    let outcome = write32_spec(
        old.memory_bus@,
        transfer_address(cpu, instr),
        cpu.registers[instr.rd().index() as int],
        old.endian,
        reply,
    );
    &&& outcome.1 == reply
    &&& new.memory_bus@ == outcome.0
    &&& new.endian == old.endian
    &&& new.breakpoint_destructive == old.breakpoint_destructive
    &&& match reply {
        Err(e) => r == Err::<(), ExecutionError>(ExecutionError::MemoryAccessError(e)) && new.cpu == cpu,
        Ok(_) => r == Ok::<(), ExecutionError>(()) && crate::cpu::cpu_updated(
            cpu,
            new.cpu,
            with_write_back(cpu.registers@, cpu, instr),
            cpu.cpsr.0,
        ),
    }
}

impl MemoryAccessInstruction {
    /// The offset of the transfer.
    fn calculate_offset(&self, cpu: &Cpu) -> (r: u32)
        ensures
            r == transfer_offset(*cpu, *self),
    {
        match self.i() {
            OffsetType::Immediate => self.offset() as u32,
            OffsetType::Register => {
                let shifted_offset_data = ShiftedRegisterOffset::from(self.offset());
                let rm_val = cpu.register(shifted_offset_data.rm().index());
                let raw = shifted_offset_data.0;
                assert(((raw >> 7u16) & 0x1F) as u8 <= 31) by (bit_vector);
                let shift_amount: u32 = shifted_offset_data.shift_amount() as u32;
                shift(rm_val, shifted_offset_data.shift_type(), shift_amount, cpu.c()).0
            },
        }
    }
}

impl ExecutableInstruction for MemoryAccessInstruction {
    /// Byte transfers are not supported.
    open spec fn supported(&self) -> bool {
        self.b() == ByteWordFlag::Word
    }

    /// Transfers a word.
    fn execute_with(&self, emulator: &mut Emulator) -> (r: Result<(), ExecutionError>)
        ensures
            self.l() == LoadStoreFlag::Load ==> exists|data: MemoryAccessResult<u32>|
                #[trigger] load_post(*old(emulator), *final(emulator), *self, data, r),
            self.l() == LoadStoreFlag::Store ==> exists|reply: MemoryAccessResult<()>|
                #[trigger] store_post(*old(emulator), *final(emulator), *self, reply, r),
    {
        let ghost old_emulator = *emulator;
        let offset = self.calculate_offset(&emulator.cpu);
        let base_address = emulator.cpu.register(self.rn().index());
        let new_rn_val = match self.u() {
            UpDownFlag::Add => base_address.wrapping_add(offset),
            UpDownFlag::Sub => base_address.wrapping_sub(offset),
        };
        let memory_address = match self.p() {
            IndexFlag::Pre => new_rn_val,
            IndexFlag::Post => base_address,
        };
        match self.l() {
            LoadStoreFlag::Load => {
                let data = emulator.read32(memory_address);
                match data {
                    Ok(value) => {
                        emulator.cpu.set_register(self.rd().index(), value);
                    },
                    Err(e) => {
                        let r = Err(ExecutionError::MemoryAccessError(e));
                        assert(load_post(old_emulator, *emulator, *self, data, r));
                        return r;
                    },
                }
                if self.p() == IndexFlag::Post || self.w() == WriteBackFlag::Write {
                    emulator.cpu.set_register(self.rn().index(), new_rn_val);
                }
                assert(load_post(old_emulator, *emulator, *self, data, Ok(())));
                Ok(())
            },
            LoadStoreFlag::Store => {
                let data = emulator.cpu.register(self.rd().index());
                let reply = emulator.write32(memory_address, data);
                match reply {
                    Ok(_) => {},
                    Err(e) => {
                        let r = Err(ExecutionError::MemoryAccessError(e));
                        assert(store_post(old_emulator, *emulator, *self, reply, r));
                        return r;
                    },
                }
                if self.p() == IndexFlag::Post || self.w() == WriteBackFlag::Write {
                    emulator.cpu.set_register(self.rn().index(), new_rn_val);
                }
                assert(store_post(old_emulator, *emulator, *self, reply, Ok(())));
                Ok(())
            },
        }
    }
}

impl Sealed for MemoryAccessInstruction {

}


/// The base register moved by the offset, up or down as the U bit says,
/// modulo 2^32.
pub open spec fn moved_base(cpu: Cpu, instr: MemoryAccessInstruction) -> u32 {
    let base = cpu.registers[instr.rn().index() as int];
    match instr.u() {
        UpDownFlag::Add => base.wrapping_add(transfer_offset(cpu, instr)),
        UpDownFlag::Sub => base.wrapping_sub(transfer_offset(cpu, instr)),
    }
}

/// A store writes `rd` to the base address when post-indexed and to the
/// moved base when pre-indexed. Once it succeeds, a post-indexed store
/// leaves the moved base in the base register, and a pre-indexed one the
/// address it stored to with the write-back bit set and the base as it was
/// without; every other register stays. A store that fails changes no
/// register.
pub proof fn lemma_store_addressing(
    old: Emulator,
    new: Emulator,
    instr: MemoryAccessInstruction,
    reply: MemoryAccessResult<()>,
    r: Result<(), ExecutionError>,
)
    requires
        store_post(old, new, instr, reply, r),
    ensures
        ({
            let cpu = old.cpu;
            let rn = instr.rn().index() as int;
            let base = cpu.registers[rn];
            let moved = moved_base(cpu, instr);
            let addr = if instr.p() == IndexFlag::Post {
                base
            } else {
                moved
            };
            &&& new.memory_bus@ == write32_spec(
                old.memory_bus@,
                addr,
                cpu.registers[instr.rd().index() as int],
                old.endian,
                reply,
            ).0
            &&& reply is Err ==> new.cpu == cpu
            &&& reply is Ok && instr.p() == IndexFlag::Post ==> new.cpu.registers[rn] == moved
            &&& reply is Ok && instr.p() == IndexFlag::Pre && instr.w() == WriteBackFlag::Write
                ==> new.cpu.registers[rn] == addr
            &&& reply is Ok && instr.p() == IndexFlag::Pre && instr.w() == WriteBackFlag::NoModify
                ==> new.cpu.registers[rn] == base
            &&& forall|i: int| 0 <= i < 16 && i != rn ==> new.cpu.registers[i] == cpu.registers[i]
        }),
{
}

/// A load reads from the base address when post-indexed and from the moved
/// base when pre-indexed, and once it succeeds puts the word read in `rd`.
/// Where `rd` is not the base register, the base register then holds the
/// moved base when post-indexed, and when pre-indexed the address read with
/// the write-back bit set and the base as it was without; every other
/// register stays. A load that fails changes nothing.
pub proof fn lemma_load_addressing(
    old: Emulator,
    new: Emulator,
    instr: MemoryAccessInstruction,
    data: MemoryAccessResult<u32>,
    r: Result<(), ExecutionError>,
)
    requires
        load_post(old, new, instr, data, r),
    ensures
        ({
            let cpu = old.cpu;
            let rn = instr.rn().index() as int;
            let rd = instr.rd().index() as int;
            let base = cpu.registers[rn];
            let moved = moved_base(cpu, instr);
            let addr = if instr.p() == IndexFlag::Post {
                base
            } else {
                moved
            };
            &&& data == read32_spec(old.memory_bus@, addr, old.endian, data)
            &&& data is Err ==> new == old
            &&& data is Ok && rd != rn ==> {
                &&& new.cpu.registers[rd] == data->Ok_0
                &&& instr.p() == IndexFlag::Post ==> new.cpu.registers[rn] == moved
                &&& instr.p() == IndexFlag::Pre && instr.w() == WriteBackFlag::Write
                    ==> new.cpu.registers[rn] == addr
                &&& instr.p() == IndexFlag::Pre && instr.w() == WriteBackFlag::NoModify
                    ==> new.cpu.registers[rn] == base
            }
            &&& data is Ok ==> forall|i: int|
                0 <= i < 16 && i != rn && i != rd ==> new.cpu.registers[i] == cpu.registers[i]
        }),
{
}

} // verus!
