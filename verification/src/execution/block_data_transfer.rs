//! Block data transfer (LDM, STM, and so PUSH and POP).
//!
//! The listed registers are transferred lowest first, to or from
//! consecutive words starting at the lowest address of the block; a failed
//! transfer stops the instruction, keeping the transfers before it.

use super::private::Sealed;
use super::{ExecutableInstruction, ExecutionError};
use crate::cpu::Cpu;
use crate::emulator::{cpu_step, Emulator};
use crate::instructions::fields::{IndexFlag, LoadStoreFlag, UpDownFlag, WriteBackFlag};
use crate::instructions::BlockDataTransferInstruction;
use crate::memory::bus::{read32_spec, write32_spec};
use crate::memory::{Endian, MemModel, MemoryAccessResult};
use vstd::prelude::*;

verus! {

/// Whether register `i` is in the register list.
pub open spec fn listed(list: u16, i: int) -> bool {
    (list >> (i as u16)) & 1 == 1
}

/// How many of the registers from `i` to 15 are in the register list.
pub open spec fn list_count(list: u16, i: int) -> nat
    decreases 16 - i,
{
    if i >= 16 {
        0
    } else {
        (if listed(list, i) {
            1nat
        } else {
            0nat
        }) + list_count(list, i + 1)
    }
}

/// The listed registers from `i` on, lowest first, each with the address it
/// is transferred to; the addresses go up by 4 from `addr`, modulo 2^32.
pub open spec fn transfer_slots(list: u16, i: int, addr: u32) -> Seq<(u32, u8)>
    decreases 16 - i,
{
    if i >= 16 {
        Seq::empty()
    } else if listed(list, i) {
        seq![(addr, i as u8)] + transfer_slots(list, i + 1, addr.wrapping_add(4))
    } else {
        transfer_slots(list, i + 1, addr)
    }
}

/// The lowest address of the block: increment after (IA) starts at the
/// base, increment before (IB) one word above it, decrement after (DA) and
/// decrement before (DB) `total` bytes below, plus one word for DA.
pub open spec fn first_address(base: u32, u: UpDownFlag, p: IndexFlag, total: u32) -> u32 {
    match (u, p) {
        (UpDownFlag::Add, IndexFlag::Post) => base,
        (UpDownFlag::Add, IndexFlag::Pre) => base.wrapping_add(4),
        (UpDownFlag::Sub, IndexFlag::Post) => base.wrapping_sub(total).wrapping_add(4),
        (UpDownFlag::Sub, IndexFlag::Pre) => base.wrapping_sub(total),
    }
}

/// The number of bytes the instruction transfers.
pub open spec fn block_bytes(instr: BlockDataTransferInstruction) -> u32 {
    (4 * list_count(instr.register_list(), 0)) as u32
}

/// The registers the instruction transfers, lowest first, with their
/// addresses.
pub open spec fn block_slots(cpu: Cpu, instr: BlockDataTransferInstruction) -> Seq<(u32, u8)> {
    let base = cpu.registers[instr.rn().index() as int];
    transfer_slots(
        instr.register_list(),
        0,
        first_address(base, instr.u(), instr.p(), block_bytes(instr)),
    )
}

/// `regs` with the base register moved past the block, if the write-back
/// bit is set.
pub open spec fn block_write_back(regs: Seq<u32>, cpu: Cpu, instr: BlockDataTransferInstruction) -> Seq<
    u32,
> {
    let base = cpu.registers[instr.rn().index() as int];
    if instr.w() == WriteBackFlag::Write {
        regs.update(
            instr.rn().index() as int,
            match instr.u() {
                UpDownFlag::Add => base.wrapping_add(block_bytes(instr)),
                UpDownFlag::Sub => base.wrapping_sub(block_bytes(instr)),
            },
        )
    } else {
        regs
    }
}

/// The registers after the first `k` loads, each of which wrote the word it
/// read, if it read one.
pub open spec fn loaded_registers(
    regs: Seq<u32>,
    slots: Seq<(u32, u8)>,
    replies: Seq<MemoryAccessResult<u32>>,
    k: int,
) -> Seq<u32>
    decreases k,
{
    if k <= 0 {
        regs
    } else {
        let prev = loaded_registers(regs, slots, replies, k - 1);
        match replies[k - 1] {
            Ok(v) => prev.update(slots[k - 1].1 as int, v),
            Err(_) => prev,
        }
    }
}

/// The memory after the first `k` stores, each of the register of its slot
/// and answered by its reply.
pub open spec fn stored_memory(
    m: MemModel,
    endian: Endian,
    slots: Seq<(u32, u8)>,
    regs: Seq<u32>,
    replies: Seq<MemoryAccessResult<()>>,
    k: int,
) -> MemModel
    decreases k,
{
    if k <= 0 {
        m
    } else {
        write32_spec(
            stored_memory(m, endian, slots, regs, replies, k - 1),
            slots[k - 1].0,
            regs[slots[k - 1].1 as int],
            endian,
            replies[k - 1],
        ).0
    }
}

/// A load multiple whose loads read `replies`, in order. Every load but the
/// last read a word. If the last failed, the instruction failed with its
/// error, keeping the loads before it; otherwise all listed registers were
/// loaded and the base written back.
pub open spec fn block_load_post(
    old: Emulator,
    new: Emulator,
    instr: BlockDataTransferInstruction,
    replies: Seq<MemoryAccessResult<u32>>,
    r: Result<(), ExecutionError>,
) -> bool {
    let cpu = old.cpu;
    let slots = block_slots(cpu, instr);
    let n = replies.len() as int;
    &&& n <= slots.len()
    &&& forall|j: int|
        0 <= j < n ==> #[trigger] replies[j] == read32_spec(
            old.memory_bus@,
            slots[j].0,
            old.endian,
            replies[j],
        )
    &&& forall|j: int| 0 <= j < n - 1 ==> (#[trigger] replies[j]) is Ok
    &&& if n > 0 && replies[n - 1] is Err {
        &&& r == Err::<(), ExecutionError>(ExecutionError::MemoryAccessError(replies[n - 1]->Err_0))
        &&& cpu_step(old, new, (loaded_registers(cpu.registers@, slots, replies, n), cpu.cpsr.0))
    } else {
        &&& n == slots.len()
        &&& r == Ok::<(), ExecutionError>(())
        &&& cpu_step(
            old,
            new,
            (
                block_write_back(loaded_registers(cpu.registers@, slots, replies, n), cpu, instr),
                cpu.cpsr.0,
            ),
        )
    }
}

/// A store multiple whose stores were answered with `replies`, in order.
/// Every store but the last succeeded. If the last failed, the instruction
/// failed with its error, keeping the stores before it; otherwise all listed
/// registers were stored and the base written back.
pub open spec fn block_store_post(
    old: Emulator,
    new: Emulator,
    instr: BlockDataTransferInstruction,
    replies: Seq<MemoryAccessResult<()>>,
    r: Result<(), ExecutionError>,
) -> bool {
    let cpu = old.cpu;
    let regs = cpu.registers@;
    let slots = block_slots(cpu, instr);
    let n = replies.len() as int;
    &&& n <= slots.len()
    &&& forall|j: int|
        0 <= j < n ==> #[trigger] replies[j] == write32_spec(
            stored_memory(old.memory_bus@, old.endian, slots, regs, replies, j),
            slots[j].0,
            regs[slots[j].1 as int],
            old.endian,
            replies[j],
        ).1
    &&& forall|j: int| 0 <= j < n - 1 ==> (#[trigger] replies[j]) is Ok
    &&& new.memory_bus@ == stored_memory(old.memory_bus@, old.endian, slots, regs, replies, n)
    &&& new.endian == old.endian
    &&& new.breakpoint_destructive == old.breakpoint_destructive
    &&& if n > 0 && replies[n - 1] is Err {
        &&& r == Err::<(), ExecutionError>(ExecutionError::MemoryAccessError(replies[n - 1]->Err_0))
        &&& new.cpu == cpu
    } else {
        &&& n == slots.len()
        &&& r == Ok::<(), ExecutionError>(())
        &&& crate::cpu::cpu_updated(cpu, new.cpu, block_write_back(regs, cpu, instr), cpu.cpsr.0)
    }
}

/// The loads or stores of a block transfer, before any write-back.
pub open spec fn load_run(
    old: Emulator,
    new: Emulator,
    instr: BlockDataTransferInstruction,
    replies: Seq<MemoryAccessResult<u32>>,
    r: Result<(), ExecutionError>,
) -> bool {
    &&& replies.len() <= block_slots(old.cpu, instr).len()
    &&& forall|j: int|
        0 <= j < replies.len() ==> #[trigger] replies[j] == read32_spec(
            old.memory_bus@,
            block_slots(old.cpu, instr)[j].0,
            old.endian,
            replies[j],
        )
    &&& forall|j: int| 0 <= j < replies.len() - 1 ==> (#[trigger] replies[j]) is Ok
    &&& cpu_step(
        old,
        new,
        (
            loaded_registers(
                old.cpu.registers@,
                block_slots(old.cpu, instr),
                replies,
                replies.len() as int,
            ),
            old.cpu.cpsr.0,
        ),
    )
    &&& if replies.len() > 0 && replies[replies.len() - 1] is Err {
        r == Err::<(), ExecutionError>(
            ExecutionError::MemoryAccessError(replies[replies.len() - 1]->Err_0),
        )
    } else {
        replies.len() == block_slots(old.cpu, instr).len() && r == Ok::<
            (),
            ExecutionError,
        >(())
    }
}

/// The loads or stores of a block transfer, before any write-back.
pub open spec fn store_run(
    old: Emulator,
    new: Emulator,
    instr: BlockDataTransferInstruction,
    replies: Seq<MemoryAccessResult<()>>,
    r: Result<(), ExecutionError>,
) -> bool {
    &&& replies.len() <= block_slots(old.cpu, instr).len()
    &&& forall|j: int|
        0 <= j < replies.len() ==> #[trigger] replies[j] == write32_spec(
            stored_memory(
                old.memory_bus@,
                old.endian,
                block_slots(old.cpu, instr),
                old.cpu.registers@,
                replies,
                j,
            ),
            block_slots(old.cpu, instr)[j].0,
            old.cpu.registers@[block_slots(old.cpu, instr)[j].1 as int],
            old.endian,
            replies[j],
        ).1
    &&& forall|j: int| 0 <= j < replies.len() - 1 ==> (#[trigger] replies[j]) is Ok
    &&& new.memory_bus@ == stored_memory(
        old.memory_bus@,
        old.endian,
        block_slots(old.cpu, instr),
        old.cpu.registers@,
        replies,
        replies.len() as int,
    )
    &&& new.cpu == old.cpu
    &&& new.endian == old.endian
    &&& new.breakpoint_destructive == old.breakpoint_destructive
    &&& if replies.len() > 0 && replies[replies.len() - 1] is Err {
        r == Err::<(), ExecutionError>(
            ExecutionError::MemoryAccessError(replies[replies.len() - 1]->Err_0),
        )
    } else {
        replies.len() == block_slots(old.cpu, instr).len() && r == Ok::<
            (),
            ExecutionError,
        >(())
    }
}

/// The slots from any register on number the listed registers from there.
proof fn lemma_slots_len(list: u16, i: int, addr: u32)
    ensures
        transfer_slots(list, i, addr).len() == list_count(list, i),
        list_count(list, i) <= if i >= 16 {
            0
        } else {
            16 - i
        },
    decreases 16 - i,
{
    if i < 16 {
        lemma_slots_len(list, i + 1, addr.wrapping_add(4));
        lemma_slots_len(list, i + 1, addr);
    }
}

/// The registers after `k` loads depend only on the first `k` replies.
proof fn lemma_loaded_prefix(
    regs: Seq<u32>,
    slots: Seq<(u32, u8)>,
    replies: Seq<MemoryAccessResult<u32>>,
    extra: MemoryAccessResult<u32>,
    k: int,
)
    requires
        0 <= k <= replies.len(),
    ensures
        loaded_registers(regs, slots, replies.push(extra), k) == loaded_registers(
            regs,
            slots,
            replies,
            k,
        ),
    decreases k,
{
    if k > 0 {
        lemma_loaded_prefix(regs, slots, replies, extra, k - 1);
        assert(replies.push(extra)[k - 1] == replies[k - 1]);
    }
}

/// The memory after `k` stores depends only on the first `k` replies.
proof fn lemma_stored_prefix(
    m: MemModel,
    endian: Endian,
    slots: Seq<(u32, u8)>,
    regs: Seq<u32>,
    replies: Seq<MemoryAccessResult<()>>,
    extra: MemoryAccessResult<()>,
    k: int,
)
    requires
        0 <= k <= replies.len(),
    ensures
        stored_memory(m, endian, slots, regs, replies.push(extra), k) == stored_memory(
            m,
            endian,
            slots,
            regs,
            replies,
            k,
        ),
    decreases k,
{
    if k > 0 {
        lemma_stored_prefix(m, endian, slots, regs, replies, extra, k - 1);
        assert(replies.push(extra)[k - 1] == replies[k - 1]);
    }
}

/// How many registers the list names.
fn count_registers(list: u16) -> (r: u32)
    ensures
        r == list_count(list, 0),
        r <= 16,
{
    proof {
        lemma_slots_len(list, 0, 0);
    }
    let mut n: u32 = 0;
    let mut i: u16 = 0;
    while i < 16
        invariant
            i <= 16,
            n + list_count(list, i as int) == list_count(list, 0),
            list_count(list, 0) <= 16,
        decreases 16 - i,
    {
        if (list >> i) & 1 == 1 {
            n = n + 1;
        }
        i = i + 1;
    }
    n
}

impl BlockDataTransferInstruction {
    /// Loads the listed registers.
    fn load_registers(&self, emulator: &mut Emulator, start_address: u32) -> (r: Result<
        (),
        ExecutionError,
    >)
        requires
            start_address == first_address(
                old(emulator).cpu.registers[self.rn().index() as int],
                self.u(),
                self.p(),
                block_bytes(*self),
            ),
        ensures
            exists|replies: Seq<MemoryAccessResult<u32>>|
                #[trigger] load_run(*old(emulator), *final(emulator), *self, replies, r),
    {
        let ghost old_emulator = *emulator;
        let ghost slots = block_slots(old_emulator.cpu, *self);
        let ghost regs0 = old_emulator.cpu.registers@;
        let register_list = self.register_list();
        let mut current_address = start_address;
        let ghost mut replies: Seq<MemoryAccessResult<u32>> = Seq::empty();
        let mut i: u8 = 0;
        proof {
            assert(slots.subrange(0, slots.len() as int) =~= slots);
        }
        while i < 16
            invariant
                i <= 16,
                old_emulator == *old(emulator),
                register_list == self.register_list(),
                slots == block_slots(old_emulator.cpu, *self),
                regs0 == old_emulator.cpu.registers@,
                replies.len() <= slots.len(),
                slots.subrange(replies.len() as int, slots.len() as int) == transfer_slots(
                    register_list,
                    i as int,
                    current_address,
                ),
                forall|j: int|
                    0 <= j < replies.len() ==> #[trigger] replies[j] == read32_spec(
                        old_emulator.memory_bus@,
                        slots[j].0,
                        old_emulator.endian,
                        replies[j],
                    ),
                forall|j: int| 0 <= j < replies.len() ==> (#[trigger] replies[j]) is Ok,
                cpu_step(
                    old_emulator,
                    *emulator,
                    (loaded_registers(regs0, slots, replies, replies.len() as int), old_emulator.cpu.cpsr.0),
                ),
            decreases 16 - i,
        {
            if (register_list >> (i as u16)) & 1 == 1 {
                let ghost k = replies.len() as int;
                proof {
                    assert(listed(register_list, i as int));
                    assert(transfer_slots(register_list, i as int, current_address) == seq![
                        (current_address, i),
                    ] + transfer_slots(register_list, i + 1, current_address.wrapping_add(4)));
                    assert(slots.subrange(k, slots.len() as int).len() >= 1);
                    assert(slots[k] == slots.subrange(k, slots.len() as int)[0]);
                    assert(slots[k] == (current_address, i));
                }
                let value = emulator.read32(current_address);
                proof {
                    lemma_loaded_prefix(regs0, slots, replies, value, k);
                    replies = replies.push(value);
                }
                match value {
                    Ok(v) => {
                        emulator.cpu.set_register(i, v);
                    },
                    Err(e) => {
                        let r = Err(ExecutionError::MemoryAccessError(e));
                        assert(load_run(old_emulator, *emulator, *self, replies, r));
                        return r;
                    },
                }
                proof {
                    assert(slots.subrange(replies.len() as int, slots.len() as int) =~= slots.subrange(
                        k,
                        slots.len() as int,
                    ).subrange(1, slots.len() - k));
                }
                current_address = current_address.wrapping_add(4);
            }
            i = i + 1;
        }
        proof {
            assert(transfer_slots(register_list, i as int, current_address).len() == 0);
            assert(load_run(old_emulator, *emulator, *self, replies, Ok(())));
        }
        Ok(())
    }

    /// Stores the listed registers.
    fn store_registers(&self, emulator: &mut Emulator, start_address: u32) -> (r: Result<
        (),
        ExecutionError,
    >)
        requires
            start_address == first_address(
                old(emulator).cpu.registers[self.rn().index() as int],
                self.u(),
                self.p(),
                block_bytes(*self),
            ),
        ensures
            exists|replies: Seq<MemoryAccessResult<()>>|
                #[trigger] store_run(*old(emulator), *final(emulator), *self, replies, r),
    {
        let ghost old_emulator = *emulator;
        let ghost slots = block_slots(old_emulator.cpu, *self);
        let ghost regs0 = old_emulator.cpu.registers@;
        let ghost m0 = old_emulator.memory_bus@;
        let register_list = self.register_list();
        let mut current_address = start_address;
        let ghost mut replies: Seq<MemoryAccessResult<()>> = Seq::empty();
        let mut i: u8 = 0;
        proof {
            assert(slots.subrange(0, slots.len() as int) =~= slots);
        }
        while i < 16
            invariant
                i <= 16,
                old_emulator == *old(emulator),
                register_list == self.register_list(),
                slots == block_slots(old_emulator.cpu, *self),
                regs0 == old_emulator.cpu.registers@,
                m0 == old_emulator.memory_bus@,
                replies.len() <= slots.len(),
                slots.subrange(replies.len() as int, slots.len() as int) == transfer_slots(
                    register_list,
                    i as int,
                    current_address,
                ),
                forall|j: int|
                    0 <= j < replies.len() ==> #[trigger] replies[j] == write32_spec(
                        stored_memory(m0, old_emulator.endian, slots, regs0, replies, j),
                        slots[j].0,
                        regs0[slots[j].1 as int],
                        old_emulator.endian,
                        replies[j],
                    ).1,
                forall|j: int| 0 <= j < replies.len() ==> (#[trigger] replies[j]) is Ok,
                emulator.memory_bus@ == stored_memory(
                    m0,
                    old_emulator.endian,
                    slots,
                    regs0,
                    replies,
                    replies.len() as int,
                ),
                emulator.cpu == old_emulator.cpu,
                emulator.endian == old_emulator.endian,
                emulator.breakpoint_destructive == old_emulator.breakpoint_destructive,
            decreases 16 - i,
        {
            if (register_list >> (i as u16)) & 1 == 1 {
                let ghost k = replies.len() as int;
                proof {
                    assert(listed(register_list, i as int));
                    assert(transfer_slots(register_list, i as int, current_address) == seq![
                        (current_address, i),
                    ] + transfer_slots(register_list, i + 1, current_address.wrapping_add(4)));
                    assert(slots.subrange(k, slots.len() as int).len() >= 1);
                    assert(slots[k] == slots.subrange(k, slots.len() as int)[0]);
                    assert(slots[k] == (current_address, i));
                }
                let value = emulator.cpu.register(i);
                let reply = emulator.write32(current_address, value);
                proof {
                    assert forall|j: int| 0 <= j <= k implies stored_memory(
                        m0,
                        old_emulator.endian,
                        slots,
                        regs0,
                        replies.push(reply),
                        j,
                    ) == stored_memory(m0, old_emulator.endian, slots, regs0, replies, j) by {
                        lemma_stored_prefix(m0, old_emulator.endian, slots, regs0, replies, reply, j);
                    }
                    replies = replies.push(reply);
                }
                match reply {
                    Ok(_) => {},
                    Err(e) => {
                        let r = Err(ExecutionError::MemoryAccessError(e));
                        assert(store_run(old_emulator, *emulator, *self, replies, r));
                        return r;
                    },
                }
                proof {
                    assert(slots.subrange(replies.len() as int, slots.len() as int) =~= slots.subrange(
                        k,
                        slots.len() as int,
                    ).subrange(1, slots.len() - k));
                }
                current_address = current_address.wrapping_add(4);
            }
            i = i + 1;
        }
        proof {
            assert(transfer_slots(register_list, i as int, current_address).len() == 0);
            assert(store_run(old_emulator, *emulator, *self, replies, Ok(())));
        }
        Ok(())
    }
}

impl ExecutableInstruction for BlockDataTransferInstruction {
    open spec fn supported(&self) -> bool {
        true
    }

    fn execute_with(&self, emulator: &mut Emulator) -> (r: Result<(), ExecutionError>)
        ensures
            self.l() == LoadStoreFlag::Load ==> exists|replies: Seq<MemoryAccessResult<u32>>|
                #[trigger] block_load_post(*old(emulator), *final(emulator), *self, replies, r),
            self.l() == LoadStoreFlag::Store ==> exists|replies: Seq<MemoryAccessResult<()>>|
                #[trigger] block_store_post(*old(emulator), *final(emulator), *self, replies, r),
    {
        let ghost old_emulator = *emulator;
        let rn = self.rn().index();
        let base_address = emulator.cpu.register(rn);
        let num_registers = count_registers(self.register_list());
        let total_bytes = num_registers * 4;
        let start_address = match (self.u(), self.p()) {
            (UpDownFlag::Add, IndexFlag::Post) => base_address,
            (UpDownFlag::Add, IndexFlag::Pre) => base_address.wrapping_add(4),
            (UpDownFlag::Sub, IndexFlag::Post) => base_address.wrapping_sub(total_bytes).wrapping_add(4),
            (UpDownFlag::Sub, IndexFlag::Pre) => base_address.wrapping_sub(total_bytes),
        };
        let is_load = self.l() == LoadStoreFlag::Load;
        let result = if is_load {
            self.load_registers(emulator, start_address)
        } else {
            self.store_registers(emulator, start_address)
        };
        let ghost mid = *emulator;
        let ghost load_replies = choose|replies: Seq<MemoryAccessResult<u32>>|
            #[trigger] load_run(old_emulator, mid, *self, replies, result);
        let ghost store_replies = choose|replies: Seq<MemoryAccessResult<()>>|
            #[trigger] store_run(old_emulator, mid, *self, replies, result);
        match result {
            Ok(()) => {},
            Err(e) => {
                proof {
                    if is_load {
                        assert(block_load_post(old_emulator, *emulator, *self, load_replies, result));
                    } else {
                        assert(block_store_post(old_emulator, *emulator, *self, store_replies, result));
                    }
                }
                return Err(e);
            },
        }
        if self.w() == WriteBackFlag::Write {
            let new_base = match self.u() {
                UpDownFlag::Add => base_address.wrapping_add(total_bytes),
                UpDownFlag::Sub => base_address.wrapping_sub(total_bytes),
            };
            emulator.cpu.set_register(rn, new_base);
        }
        proof {
            if is_load {
                assert(block_load_post(old_emulator, *emulator, *self, load_replies, Ok(())));
            } else {
                assert(block_store_post(old_emulator, *emulator, *self, store_replies, Ok(())));
            }
        }
        Ok(())
    }
}

impl Sealed for BlockDataTransferInstruction {

}


/// Every slot of a block holds a listed register, from `i` up to 15.
proof fn lemma_slots_hold_listed(list: u16, i: int, addr: u32, k: int)
    requires
        0 <= i,
        0 <= k < transfer_slots(list, i, addr).len(),
    ensures
        listed(list, transfer_slots(list, i, addr)[k].1 as int),
        i <= transfer_slots(list, i, addr)[k].1 < 16,
    decreases 16 - i,
{
    if i < 16 {
        if listed(list, i) {
            if k > 0 {
                lemma_slots_hold_listed(list, i + 1, addr.wrapping_add(4), k - 1);
                assert(transfer_slots(list, i, addr)[k] == transfer_slots(
                    list,
                    i + 1,
                    addr.wrapping_add(4),
                )[k - 1]);
            }
        } else {
            lemma_slots_hold_listed(list, i + 1, addr, k);
        }
    }
}

/// Loads into other registers leave register `x` as it was.
proof fn lemma_loaded_keeps(
    regs: Seq<u32>,
    slots: Seq<(u32, u8)>,
    replies: Seq<MemoryAccessResult<u32>>,
    k: int,
    x: int,
)
    requires
        0 <= x < regs.len(),
        forall|j: int| 0 <= j < k ==> (#[trigger] slots[j]).1 as int != x && slots[j].1 < regs.len(),
    ensures
        loaded_registers(regs, slots, replies, k).len() == regs.len(),
        loaded_registers(regs, slots, replies, k)[x] == regs[x],
    decreases k,
{
    if k > 0 {
        lemma_loaded_keeps(regs, slots, replies, k - 1, x);
        let _ = slots[k - 1];
    }
}

/// The base register after a block transfer that does not list it: as it
/// was without write-back or when a transfer failed; otherwise moved past
/// the block, up or down by four bytes per listed register, modulo 2^32.
pub open spec fn base_after_block(
    old: Cpu,
    instr: BlockDataTransferInstruction,
    failed: bool,
) -> u32 {
    let base = old.registers[instr.rn().index() as int];
    let size = (4 * list_count(instr.register_list(), 0)) as u32;
    if instr.w() == WriteBackFlag::NoModify || failed {
        base
    } else {
        match instr.u() {
            UpDownFlag::Add => base.wrapping_add(size),
            UpDownFlag::Sub => base.wrapping_sub(size),
        }
    }
}

/// A load multiple that does not list its base register leaves the base as
/// it was when the write-back bit is clear or a load failed, and otherwise
/// moves it past the block: up or down by four bytes per listed register.
pub proof fn lemma_block_load_base(
    old: Emulator,
    new: Emulator,
    instr: BlockDataTransferInstruction,
    replies: Seq<MemoryAccessResult<u32>>,
    r: Result<(), ExecutionError>,
)
    requires
        block_load_post(old, new, instr, replies, r),
        !listed(instr.register_list(), instr.rn().index() as int),
    ensures
        new.cpu.registers[instr.rn().index() as int] == base_after_block(old.cpu, instr, r is Err),
{
    let cpu = old.cpu;
    let rn = instr.rn().index() as int;
    let slots = block_slots(cpu, instr);
    let n = replies.len() as int;
    let list = instr.register_list();
    let base = cpu.registers[rn];
    let first = first_address(base, instr.u(), instr.p(), block_bytes(instr));
    assert forall|j: int| 0 <= j < n implies (#[trigger] slots[j]).1 as int != rn && slots[j].1
        < cpu.registers@.len() by {
        lemma_slots_hold_listed(list, 0, first, j);
    }
    lemma_loaded_keeps(cpu.registers@, slots, replies, n, rn);
}

/// A store multiple leaves every register but its base as it was; the base
/// stays when the write-back bit is clear or a store failed, and otherwise
/// moves past the block: up or down by four bytes per listed register.
pub proof fn lemma_block_store_registers(
    old: Emulator,
    new: Emulator,
    instr: BlockDataTransferInstruction,
    replies: Seq<MemoryAccessResult<()>>,
    r: Result<(), ExecutionError>,
)
    requires
        block_store_post(old, new, instr, replies, r),
    ensures
        new.cpu.registers@ == old.cpu.registers@.update(
            instr.rn().index() as int,
            base_after_block(old.cpu, instr, r is Err),
        ),
{
    assert(new.cpu.registers@ =~= old.cpu.registers@.update(
        instr.rn().index() as int,
        base_after_block(old.cpu, instr, r is Err),
    ));
}

} // verus!
