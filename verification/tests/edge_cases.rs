//! Edge cases, error variants and exact values of the formulas.

use emulator::cpu::registers::{LR, PC, R0, R1, R2, R3, R7, SP};
use emulator::cpu::{Cpu, CpuError, CpuFlags, ExecutionState, ExitStatus, Mode, ModeError};
use emulator::execution::ExecutionError;
use emulator::instructions::{
    BlockDataTransferInstruction, BranchExchangeInstruction, DataProcessingInstruction,
    MemoryAccessInstruction, SupervisorCallInstruction,
};
use emulator::memory::{
    UnmanagedReadOnlyChunk, UnmanagedReadWriteChunk,
    big_endian_to_native, u32_from_native_bytes, u32_to_native_bytes, Bus, Endian, MemoryAccessError, MemoryMappedPeripheral, Peripheral,
    WordBytes,
};
use emulator::peripherals::gpio::{bsrr, led_on, GpioPort};
use emulator::system::rng::{get_random_bytes, get_random_u32, get_random_u64};
use emulator::testing::to_bytes;
use emulator::Emulator;
use std::sync::Arc;

fn cpu_emulator() -> Emulator {
    Emulator::new(Cpu::new(), Bus::new(0, 0, 0), Endian::Little)
}

#[test]
fn bus_errors() {
    let mut bus = Bus::new(8, 8, 8);
    assert_eq!(bus.read32_le(2), Err(MemoryAccessError::UnalignedAccess));
    assert_eq!(bus.write32_be(0x2000_0001, 1), Err(MemoryAccessError::UnalignedAccess));
    assert_eq!(
        bus.read32_le(0x2000_0008),
        Err(MemoryAccessError::InvalidReadPermission { addr: 0x2000_0008 })
    );
    assert_eq!(
        bus.write32_le(0x6000_0008, 5),
        Err(MemoryAccessError::InvalidWritePermission { addr: 0x6000_0008 })
    );
    assert_eq!(
        bus.read32_be(0x4000_0000),
        Err(MemoryAccessError::InvalidReadPermission { addr: 0x4000_0000 })
    );
    assert_eq!(
        bus.write32_be(0x4000_0000, 5),
        Err(MemoryAccessError::InvalidWritePermission { addr: 0x4000_0000 })
    );
    assert_eq!(bus.read_byte_be(8), Err(MemoryAccessError::InvalidReadPermission { addr: 8 }));
    assert_eq!(bus.write_byte_be(9, 1), Err(MemoryAccessError::InvalidWritePermission { addr: 9 }));
    // A byte access to SRAM or external memory is indexed by its offset
    // into the region.
    assert_eq!(bus.write_byte_le(0x2000_0001, 0x5A), Ok(()));
    assert_eq!(bus.read_byte_le(0x2000_0001), Ok(0x5A));
    assert_eq!(bus.get_read_write_memory_view().iter().filter(|b| **b != 0).count(), 1);
    assert_eq!(bus.write_byte_be(0x6000_0007, 7), Ok(()));
    assert_eq!(bus.read_byte_be(0x6000_0007), Ok(7));
    assert_eq!(
        bus.read_byte_be(0x2000_0008),
        Err(MemoryAccessError::InvalidReadPermission { addr: 0x2000_0008 })
    );
}

#[test]
fn bus_regions_load_reserve_reset_and_stack_pointer() {
    let mut bus = Bus::new(4, 4, 4);
    assert_eq!(bus.get_sp_default_addr(), 0x2000_0004);
    bus.load_code(&[1, 2, 3, 4, 5]);
    assert_eq!(bus.get_read_only_memory_view(), &[1, 2, 3, 4, 5]);
    bus.load_sram(&[9, 9]);
    bus.reserve_exact_sram(6);
    let sram = bus.get_read_write_memory_view();
    assert_eq!(sram.len(), 6);
    assert_eq!(&sram[..2], &[9, 9]);
    assert!(sram[2..].iter().all(|b| *b == 0));
    bus.load_external(&[7, 7, 7, 7]);
    assert_eq!(bus.read32_le(0x6000_0000).unwrap(), 0x0707_0707);
    bus.get_read_only_memory_view_mut()[0] = 0xFF;
    assert_eq!(bus.read_byte_be(0).unwrap(), 0xFF);
    bus.reset();
    assert!(bus.get_read_only_memory_view().is_empty());
    assert!(bus.get_mapped_peripherals().is_empty());
    assert_eq!(bus.get_sp_default_addr(), Bus::SRAM_BEGIN);
    let default_bus = Bus::default();
    assert_eq!(default_bus.get_read_write_memory_view().len(), 1024 * 1024);
}

#[test]
fn bus_routes_to_the_first_matching_peripheral() {
    let gpio = Arc::new(GpioPort::new());
    let mapped: MemoryMappedPeripheral = MemoryMappedPeripheral::new(0x4002_0000..=0x4002_03FF, gpio.clone());
    let mut bus = Bus::with_ram_and_peripherals(vec![], vec![], vec![mapped], vec![]);
    bus.write32_le(0x4002_0000, 0x0000_0400).unwrap();
    bus.write32_le(0x4002_0014, 0x20).unwrap();
    assert!(gpio.is_led_on());
    assert_eq!(bus.read32_be(0x4002_0014).unwrap(), 0x20);
    assert_eq!(
        bus.read32_le(0x4002_0004),
        Err(MemoryAccessError::InvalidPeripheralRead { offset: 4 })
    );
    assert_eq!(
        bus.write32_le(0x4002_0008, 1),
        Err(MemoryAccessError::InvalidPeripheralWrite { offset: 8 })
    );
    assert_eq!(bus.get_mapped_peripherals().len(), 1);
}

#[test]
fn gpio_registers_bsrr_and_bytes() {
    let gpio = GpioPort::new();
    assert!(!gpio.is_led_on());
    gpio.write32(0x00, 1 << 10).unwrap();
    gpio.write32(0x18, 1 << 5).unwrap();
    assert!(gpio.is_led_on());
    assert_eq!(gpio.read32(0x14).unwrap(), 0x20);
    gpio.write32(0x18, (1 << 21) | 1).unwrap();
    assert_eq!(gpio.read32(0x14).unwrap(), 1);
    assert!(!gpio.is_led_on());
    assert_eq!(gpio.read_byte(0x15), Ok(to_bytes(1)[1]));
    gpio.write_byte(0x14, 0xFF).unwrap();
    let mut expected = to_bytes(1);
    expected[0] = 0xFF;
    assert_eq!(gpio.read32(0x14).unwrap(), u32::from_ne_bytes(expected));
    assert_eq!(gpio.read32(0x04), Err(MemoryAccessError::InvalidPeripheralRead { offset: 4 }));
    assert_eq!(gpio.write_byte(0x19, 1), Err(MemoryAccessError::InvalidPeripheralRead { offset: 0x18 }));
    gpio.reset();
    assert_eq!(gpio.read32(0x00).unwrap(), 0);
    assert_eq!(gpio.read32(0x14).unwrap(), 0);
    assert_eq!(bsrr(0b1010, 0x0003_0004), 0b1100);
    assert!(led_on(0x400, 0x20));
    assert!(!led_on(0xC00, 0x20));
}

#[test]
fn word_bytes_and_native_order() {
    let mut word = WordBytes::new();
    word.write32_be(0x1122_3344).unwrap();
    assert_eq!(word.read32_be().unwrap(), 0x1122_3344);
    assert_eq!(word.read32_le().unwrap(), 0x4433_2211);
    word.write32_le(0x1122_3344).unwrap();
    assert_eq!(word.read32_le().unwrap(), 0x1122_3344);
    assert_eq!(WordBytes::default(), WordBytes::new());
    assert_eq!(to_bytes(big_endian_to_native(0x0A0B_0C0D)), [0x0A, 0x0B, 0x0C, 0x0D]);
    assert_eq!(u32_from_native_bytes([1, 2, 3, 4]), u32::from_ne_bytes([1, 2, 3, 4]));
    assert_eq!(u32_to_native_bytes(0x0102_0304), 0x0102_0304u32.to_ne_bytes());
}

#[test]
fn cpu_modes_spsr_and_errors() {
    let mut cpu = Cpu::new();
    assert_eq!(cpu.spsr(), Ok(CpuFlags(0)));
    *cpu.spsr_mut().unwrap() = CpuFlags(0x55);
    assert_eq!(cpu.spsr_svc, CpuFlags(0x55));
    cpu.set_mode(Mode::Irq);
    assert_eq!(cpu.spsr(), Ok(CpuFlags(0)));
    cpu.set_mode(Mode::User);
    assert_eq!(cpu.spsr(), Err(CpuError::UnprivilegedAccess));
    assert_eq!(Mode::try_from(CpuFlags(0b10111)), Ok(Mode::Abort));
    assert_eq!(Mode::try_from(CpuFlags(0)), Err(ModeError::InvalidModeBits));
    assert_eq!(CpuFlags(0b1100) & CpuFlags(0b1010), CpuFlags(0b1000));
    assert_eq!(CpuFlags(0b1100) | CpuFlags(0b1010), CpuFlags(0b1110));
    assert_eq!(!CpuFlags(0), CpuFlags(u32::MAX));
    assert_eq!(CpuFlags::from(Mode::System), CpuFlags(0b11111));
    cpu.set_register(R3, 9);
    cpu.set_t(true);
    cpu.set_exit(ExitStatus { exit_code: 3 });
    assert!(cpu.is_halted() && cpu.is_finished());
    cpu.reset();
    assert_eq!(cpu.register(R3), 0);
    assert!(!cpu.t());
    assert_eq!(cpu.cpsr, CpuFlags(Cpu::DEFAULT_CPSR));
    assert_eq!(cpu.state, ExecutionState::Halted);
    assert_eq!(cpu.spsr_svc, CpuFlags(0x55));
}

#[test]
fn shifter_special_amounts() {
    let mut emulator = cpu_emulator();
    // MOVS R0, R1, LSR #32
    emulator.cpu.set_register(R1, 0x8000_0001);
    emulator.execute_data_processing_instruction(DataProcessingInstruction(0xE1B0_0021)).unwrap();
    assert_eq!(emulator.cpu.register(R0), 0);
    assert!(emulator.cpu.c() && emulator.cpu.z());
    // MOVS R0, R1, ASR #32
    emulator.execute_data_processing_instruction(DataProcessingInstruction(0xE1B0_0041)).unwrap();
    assert_eq!(emulator.cpu.register(R0), 0xFFFF_FFFF);
    assert!(emulator.cpu.c() && emulator.cpu.n());
    // MOVS R0, R1, RRX (carry in is set)
    emulator.execute_data_processing_instruction(DataProcessingInstruction(0xE1B0_0061)).unwrap();
    assert_eq!(emulator.cpu.register(R0), 0xC000_0000);
    assert!(emulator.cpu.c());
    // MOVS R0, R1, ASR #4
    emulator.execute_data_processing_instruction(DataProcessingInstruction(0xE1B0_0241)).unwrap();
    assert_eq!(emulator.cpu.register(R0), 0xF800_0000);
    assert!(!emulator.cpu.c());
    // MOVS R0, #0xFF000000 (0xFF rotated right by 8): carry is bit 31
    emulator.execute_data_processing_instruction(DataProcessingInstruction(0xE3B0_04FF)).unwrap();
    assert_eq!(emulator.cpu.register(R0), 0xFF00_0000);
    assert!(emulator.cpu.c() && emulator.cpu.n());
}

#[test]
fn arithmetic_with_carry_and_reverse() {
    let mut emulator = cpu_emulator();
    emulator.cpu.set_register(R1, 10);
    emulator.cpu.set_register(R2, 3);
    // RSCS R0, R1, R2 with C clear: 3 - 10 - 1
    emulator.cpu.set_c(false);
    emulator.execute_data_processing_instruction(DataProcessingInstruction(0xE0F1_0002)).unwrap();
    assert_eq!(emulator.cpu.register(R0), (-8i32) as u32);
    assert!(!emulator.cpu.c() && emulator.cpu.n());
    // BICS R0, R1, R2: 10 & !3
    emulator.execute_data_processing_instruction(DataProcessingInstruction(0xE1D1_0002)).unwrap();
    assert_eq!(emulator.cpu.register(R0), 8);
    // ORR R0, R1, R2
    emulator.execute_data_processing_instruction(DataProcessingInstruction(0xE181_0002)).unwrap();
    assert_eq!(emulator.cpu.register(R0), 11);
    // ADCS R0, R1, R2 with C set: 0xFFFFFFFF + 0 + 1
    emulator.cpu.set_register(R1, 0xFFFF_FFFF);
    emulator.cpu.set_register(R2, 0);
    emulator.cpu.set_c(true);
    emulator.execute_data_processing_instruction(DataProcessingInstruction(0xE0B1_0002)).unwrap();
    assert_eq!(emulator.cpu.register(R0), 0);
    assert!(emulator.cpu.c() && emulator.cpu.z());
}

#[test]
fn branch_exchange_and_supervisor_call() {
    let mut emulator = cpu_emulator();
    emulator.cpu.set_register(R3, 0x1235);
    // BX R3
    emulator.execute_branch_exchange_instruction(BranchExchangeInstruction(0xE12F_FF13)).unwrap();
    assert_eq!(emulator.cpu.pc(), 0x1234);
    // SVC with R7 = 4 does nothing
    emulator.cpu.set_register(R7, 4);
    emulator.execute_supervisor_call_instruction(SupervisorCallInstruction(0xEF00_0000)).unwrap();
    assert!(!emulator.is_done());
    assert_eq!(emulator.get_exit_status(), None);
    // SVC with R7 = 1 exits with R0
    emulator.cpu.set_register(R7, 1);
    emulator.cpu.set_register(R0, (-2i32) as u32);
    emulator.execute_supervisor_call_instruction(SupervisorCallInstruction(0xEF00_0000)).unwrap();
    assert!(emulator.is_done() && emulator.is_finished() && emulator.is_halted());
    assert_eq!(emulator.get_exit_status(), Some(ExitStatus { exit_code: -2 }));
}

#[test]
fn memory_transfer_errors_keep_state() {
    let mut emulator = Emulator::new(Cpu::new(), Bus::new(0, 8, 0), Endian::Little);
    emulator.cpu.set_register(R1, 0x2000_0004);
    let registers = emulator.cpu.registers;
    // LDR R0, [R1, #4]! reads past SRAM
    let result = emulator.execute_memory_access_instruction(MemoryAccessInstruction(0xE5B1_0004));
    assert_eq!(
        result,
        Err(ExecutionError::MemoryAccessError(MemoryAccessError::InvalidReadPermission {
            addr: 0x2000_0008
        }))
    );
    assert_eq!(emulator.cpu.registers, registers);
    // LDMIA R1!, {R2, R3}: the first load succeeds, the second fails
    emulator.write32(0x2000_0004, 77).unwrap();
    let result = emulator.execute_block_data_transfer_instruction(BlockDataTransferInstruction(0xE8B1_000C));
    assert!(result.is_err());
    assert_eq!(emulator.cpu.register(R2), 77);
    assert_eq!(emulator.cpu.register(R1), 0x2000_0004);
    // STMDB R1, {R0, R1}: both stores fit
    emulator.cpu.set_register(R0, 5);
    emulator.cpu.set_register(R1, 0x2000_0008);
    emulator.execute_block_data_transfer_instruction(BlockDataTransferInstruction(0xE901_0003)).unwrap();
    assert_eq!(emulator.read32(0x2000_0000).unwrap(), 5);
    assert_eq!(emulator.read32(0x2000_0004).unwrap(), 0x2000_0008);
    // STR at an unaligned address
    emulator.cpu.set_register(R1, 0x2000_0001);
    let result = emulator.execute_memory_access_instruction(MemoryAccessInstruction(0xE581_0000));
    assert_eq!(result, Err(ExecutionError::MemoryAccessError(MemoryAccessError::UnalignedAccess)));
}

#[test]
fn program_loading_and_stepping() {
    let mut emulator = Emulator::new(Cpu::new(), Bus::default(), Endian::Little);
    // MOVEQ R0, #1 (not taken), MOV R7, #1, SVC #0
    let code: [u8; 12] = [0x01, 0x00, 0xA0, 0x03, 0x01, 0x70, 0xA0, 0xE3, 0x00, 0x00, 0x00, 0xEF];
    emulator.load_program(&code, Some(&[1, 2, 3]), None);
    assert_eq!(emulator.cpu.sp(), Bus::SRAM_BEGIN + emulator.memory_bus.get_read_write_memory_view().len() as u32);
    assert!(emulator.memory_bus.get_read_write_memory_view().len() >= 64 * 1024);
    assert!(emulator.can_step());
    emulator.step().unwrap();
    assert_eq!(emulator.cpu.register(R0), 0);
    assert_eq!(emulator.cpu.pc(), 4);
    emulator.step().unwrap();
    emulator.step().unwrap();
    assert!(emulator.is_done());
    // Once finished, a step does nothing.
    let pc = emulator.cpu.pc();
    emulator.step().unwrap();
    assert_eq!(emulator.cpu.pc(), pc);
    emulator.reset_cpu();
    assert_eq!(emulator.cpu.pc(), 0);
    assert_eq!(emulator.cpu.state, ExecutionState::Halted);
    emulator.reset();
    assert!(emulator.get_read_only_memory_view().is_empty());
    // Fetching from nowhere fails.
    assert_eq!(
        emulator.step(),
        Err(ExecutionError::MemoryAccessError(MemoryAccessError::InvalidReadPermission { addr: 0 }))
    );
    emulator.use_big_endian();
    assert_eq!(emulator.endian, Endian::Big);
    emulator.use_little_endian();
    assert_eq!(emulator.max_address(), u32::MAX);
    // Running from nowhere stops at the first step, with its error.
    assert_eq!(
        emulator.execute(),
        Some(Err(ExecutionError::MemoryAccessError(MemoryAccessError::InvalidReadPermission { addr: 0 })))
    );
}

#[test]
fn execute_runs_until_finished_or_unsupported() {
    let mut emulator = Emulator::new(Cpu::new(), Bus::default(), Endian::Little);
    // MOV R0, #3 ; MOV R7, #1 ; SVC #0
    let code: [u8; 12] = [0x03, 0x00, 0xA0, 0xE3, 0x01, 0x70, 0xA0, 0xE3, 0x00, 0x00, 0x00, 0xEF];
    emulator.load_program(&code, None, None);
    assert_eq!(emulator.execute(), Some(Ok(())));
    assert!(emulator.is_done());
    assert_eq!(emulator.cpu.register(R0), 3);
    // A byte load is not supported: the run stops before it.
    let mut emulator = Emulator::new(Cpu::new(), Bus::default(), Endian::Little);
    let code: [u8; 8] = [0x01, 0x00, 0xA0, 0xE3, 0x00, 0x00, 0xD1, 0xE5];
    emulator.load_program(&code, None, None);
    assert_eq!(emulator.execute(), None);
    assert_eq!(emulator.cpu.pc(), 4);
    assert_eq!(emulator.try_step(), None);
}

#[test]
fn adding_a_breakpoint_twice_keeps_the_saved_word() {
    let mut emulator = Emulator::new(Cpu::new(), Bus::new(16, 0, 0), Endian::Little);
    emulator.write32(0, 0xE3A0_002D).unwrap();
    emulator.add_breakpoint_at(0).unwrap();
    emulator.add_breakpoint_at(0).unwrap();
    assert_eq!(emulator.breakpoint_destructive.get(&0), Some(&0xE3A0_002D));
    assert_eq!(emulator.read32(0), Ok(0xE120_0070));
    emulator.remove_breakpoint_at(0).unwrap();
    assert_eq!(emulator.read32(0), Ok(0xE3A0_002D));
}

#[test]
fn breakpoints_step_over_and_restore() {
    let mut emulator = Emulator::new(Cpu::new(), Bus::new(16, 0, 0), Endian::Little);
    // MOV R0, #45 ; MOV R1, #1
    emulator.write32(0, 0xE3A0_002D).unwrap();
    emulator.write32(4, 0xE3A0_1001).unwrap();
    emulator.add_breakpoint_at(0).unwrap();
    emulator.step().unwrap();
    assert!(matches!(emulator.cpu.state, ExecutionState::Breakpoint(bp) if bp.addr == 0));
    assert!(emulator.can_step_over_breakpoint());
    emulator.step_over_breakpoint().unwrap();
    assert_eq!(emulator.cpu.register(R0), 45);
    assert_eq!(emulator.cpu.pc(), 4);
    assert_eq!(emulator.cpu.state, ExecutionState::Running);
    assert_eq!(emulator.read32(0).unwrap(), 0xE120_0070);
    emulator.restore_instruction_at(0).unwrap();
    assert_eq!(emulator.read32(0).unwrap(), 0xE3A0_002D);
    assert_eq!(
        emulator.restore_instruction_at(0),
        Err(MemoryAccessError::InvalidReadPermission { addr: 0 })
    );
    assert_eq!(emulator.remove_breakpoint_at(0), Ok(()));
    // Not at a breakpoint: stepping over one does nothing.
    assert_eq!(emulator.step_over_breakpoint(), Ok(()));
    // A breakpoint instruction with nothing saved for it.
    emulator.patch_instruction_at(4, 0xE120_0070).unwrap();
    emulator.cpu.set_pc(4);
    assert_eq!(
        emulator.step(),
        Err(ExecutionError::MemoryAccessError(MemoryAccessError::InvalidReadPermission { addr: 4 }))
    );
    // Restoring the breakpoint the CPU is stopped at sets it running.
    emulator.save_breakpoint_at(4, 0xE3A0_1001);
    emulator.step().unwrap();
    emulator.restore_instruction_at(4).unwrap();
    assert_eq!(emulator.cpu.state, ExecutionState::Running);
    assert_eq!(emulator.patch_breakpoint_at(4), Ok(0xE3A0_1001));
    let _ = (SP, LR, PC);
}

#[test]
fn random_numbers() {
    let a = get_random_u64().unwrap();
    let b = get_random_u64().unwrap();
    assert_ne!(a, b);
    let _ = get_random_u32().unwrap();
    let mut bytes = [0u8; 32];
    get_random_bytes(&mut bytes).unwrap();
    assert!(bytes.iter().any(|b| *b != 0));
}

#[test]
fn host_memory_chunks() {
    let data = [1u8, 2, 3, 4, 5];
    let chunk = UnmanagedReadOnlyChunk::new(&data);
    assert_eq!(chunk.len(), 5);
    assert_eq!(&chunk[1..4], &[2, 3, 4]);
    let mut buffer = [0u8; 3];
    let chunk = UnmanagedReadWriteChunk::new(&mut buffer);
    assert_eq!(chunk.len(), 3);
    assert_eq!(&chunk[0..3], &[0, 0, 0]);
}

#[test]
fn can_step_refuses_peripheral_pc_and_byte_transfers() {
    let mut emulator = Emulator::new(Cpu::new(), Bus::default(), Endian::Little);
    // LDRB R0, [R1]: a byte load that is not supported.
    let code: [u8; 4] = [0x00, 0x00, 0xD1, 0xE5];
    emulator.load_program(&code, None, None);
    assert!(!emulator.can_step());
    // A PC in the peripheral region is refused.
    emulator.cpu.set_register(PC, Bus::PERIPHERAL_BEGIN);
    assert!(!emulator.can_step());
    // A fetch that fails can be stepped: it reports the error.
    emulator.cpu.set_register(PC, 0xF000_0000);
    assert!(emulator.can_step());
}

#[test]
fn sram_is_reserved_to_the_exact_size() {
    let mut bus = Bus::new(0, 0, 0);
    let mut sram = Vec::with_capacity(100);
    sram.extend_from_slice(&[1u8, 2, 3]);
    bus.load_sram(&sram);
    bus.reserve_sram(5);
    assert_eq!(bus.get_read_write_memory_view(), &[1, 2, 3, 0, 0, 0, 0, 0]);
    bus.reserve_exact_sram(4);
    assert_eq!(bus.get_read_write_memory_view().len(), 8);
    let mut emulator = Emulator::new(Cpu::new(), Bus::default(), Endian::Little);
    emulator.load_program(&[0; 4], Some(&[5, 6]), None);
    assert_eq!(emulator.memory_bus.get_read_write_memory_view().len(), 64 * 1024);
    assert_eq!(emulator.cpu.sp(), Bus::SRAM_BEGIN + 64 * 1024);
}

#[test]
fn stepping_over_a_breakpoint_honours_the_condition() {
    let mut emulator = Emulator::new(Cpu::new(), Bus::new(16, 0, 0), Endian::Little);
    // MOVEQ R0, #1 with Z clear: not executed, the PC moves on.
    emulator.write32(0, 0x03A0_0001).unwrap();
    emulator.add_breakpoint_at(0).unwrap();
    emulator.step().unwrap();
    assert!(matches!(emulator.cpu.state, ExecutionState::Breakpoint(bp) if bp.addr == 0));
    assert!(emulator.can_step_over_breakpoint());
    emulator.step_over_breakpoint().unwrap();
    assert_eq!(emulator.cpu.register(R0), 0);
    assert_eq!(emulator.cpu.pc(), 4);
    assert_eq!(emulator.read32(0), Ok(0xE120_0070));
    assert_eq!(emulator.breakpoint_destructive.get(&0), Some(&0x03A0_0001));
    assert_eq!(emulator.cpu.state, ExecutionState::Running);
}
