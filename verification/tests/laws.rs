//! The library's laws, each checked on concrete values.

use emulator::cpu::{Cpu, CpuFlags, Mode};
use emulator::instructions::fields::Register;
use emulator::instructions::{DataProcessingInstruction, Instruction};
use emulator::memory::{
    u32_from_native_bytes, u32_to_native_bytes, Bus, Endian, MemoryAccessError,
};
use emulator::Emulator;

#[test]
fn law_bus_word_reads_back_in_both_byte_orders() {
    let mut bus = Bus::new(64, 64, 64);
    for addr in [0x0000_0010u32, 0x2000_0020, 0x6000_0030] {
        bus.write32_le(addr, 0x0102_0304).unwrap();
        assert_eq!(bus.read32_le(addr).unwrap(), 0x0102_0304);
        assert_eq!(bus.read32_be(addr).unwrap(), 0x0403_0201);
        bus.write32_be(addr, 0xA1B2_C3D4).unwrap();
        assert_eq!(bus.read32_be(addr).unwrap(), 0xA1B2_C3D4);
        assert_eq!(bus.read32_le(addr).unwrap(), 0xD4C3_B2A1);
    }
}

#[test]
fn law_bus_write_leaves_other_words() {
    let mut bus = Bus::new(16, 16, 0);
    bus.write32_le(0x0, 0x1111_1111).unwrap();
    bus.write32_le(0x4, 0x2222_2222).unwrap();
    bus.write32_le(0x2000_0000, 0x3333_3333).unwrap();
    bus.write32_le(0x4, 0x4444_4444).unwrap();
    assert_eq!(bus.read32_le(0x0).unwrap(), 0x1111_1111);
    assert_eq!(bus.read32_le(0x2000_0000).unwrap(), 0x3333_3333);
    assert_eq!(bus.read32_le(0x4).unwrap(), 0x4444_4444);
}

#[test]
fn law_bus_byte_reads_back() {
    let mut bus = Bus::new(8, 0, 0);
    bus.write_byte_be(5, 0xAB).unwrap();
    assert_eq!(bus.read_byte_be(5).unwrap(), 0xAB);
    bus.write_byte_le(1, 0xCD).unwrap();
    assert_eq!(bus.read_byte_le(1).unwrap(), 0xCD);
    // A single byte has no byte order: it lands at its own address.
    assert_eq!(bus.get_read_only_memory_view()[1], 0xCD);
    bus.write32_le(0, 0xAABB_CCDD).unwrap();
    assert_eq!(bus.read_byte_le(0).unwrap(), 0xDD);
    assert_eq!(bus.read_byte_le(3).unwrap(), 0xAA);
    assert_eq!(bus.read_byte_be(0).unwrap(), 0xDD);
}

#[test]
fn law_decode_then_encode_gives_the_word() {
    for raw in [0xE3A0_002Du32, 0xE591_0004, 0xE92D_4030, 0xEB00_0008, 0xE12F_FF11, 0xE120_0070] {
        let inst = Instruction::try_from(raw).unwrap();
        assert_eq!(u32::from(inst), raw);
        assert_eq!(Instruction::try_from(u32::from(inst)).unwrap(), inst);
    }
}

#[test]
fn law_flag_reads_back_and_leaves_other_flags() {
    let mut cpu = Cpu::new();
    cpu.set_c(true);
    cpu.set_n(true);
    assert!(cpu.n() && cpu.c() && !cpu.z() && !cpu.v());
    cpu.set_c(false);
    assert!(cpu.n() && !cpu.c());
    assert!(cpu.i() && cpu.f() && !cpu.t());
    cpu.set_flag(CpuFlags(1 << 8), true);
    assert!(cpu.flag(CpuFlags(1 << 8)));
    assert_eq!(cpu.mode(), Mode::Supervisor);
}

#[test]
fn law_mode_reads_back() {
    let mut cpu = Cpu::new();
    for mode in [Mode::User, Mode::Fiq, Mode::Irq, Mode::Supervisor, Mode::Abort, Mode::Undefined, Mode::System] {
        cpu.set_n(true);
        cpu.set_mode(mode);
        assert_eq!(cpu.mode(), mode);
        assert!(cpu.n());
    }
}

#[test]
fn law_conditions_are_complementary() {
    let mut cpu = Cpu::new();
    for bits in 0u32..16 {
        cpu.set_n(bits & 8 != 0);
        cpu.set_z(bits & 4 != 0);
        cpu.set_c(bits & 2 != 0);
        cpu.set_v(bits & 1 != 0);
        assert_eq!(cpu.eq(), !cpu.ne());
        assert_eq!(cpu.hs(), !cpu.lo());
        assert_eq!(cpu.mi(), !cpu.pl());
        assert_eq!(cpu.vs(), !cpu.vc());
        assert_eq!(cpu.hi(), !cpu.ls());
        assert_eq!(cpu.ge(), !cpu.lt());
        assert_eq!(cpu.gt(), !cpu.le());
        assert_eq!(cpu.al(), !cpu.nv());
    }
}

#[test]
fn law_add_then_remove_breakpoint_restores_memory() {
    let mut emulator = Emulator::new(Cpu::new(), Bus::new(16, 0, 0), Endian::Little);
    emulator.write32(8, 0xE3A0_002D).unwrap();
    let before = emulator.get_read_only_memory_view().to_vec();
    emulator.add_breakpoint_at(8).unwrap();
    assert_eq!(emulator.read32(8).unwrap(), 0xE120_0070);
    assert_eq!(emulator.breakpoint_destructive.get(&8), Some(&0xE3A0_002D));
    emulator.remove_breakpoint_at(8).unwrap();
    assert_eq!(emulator.get_read_only_memory_view(), &before[..]);
    assert!(emulator.breakpoint_destructive.is_empty());
}

#[test]
fn law_native_bytes_round_trip() {
    for value in [0u32, 1, 0x1234_5678, 0xFFFF_FFFF] {
        assert_eq!(u32_from_native_bytes(u32_to_native_bytes(value)), value);
    }
}

#[test]
fn law_without_s_bit_flags_unchanged_and_compare_writes_nothing() {
    let mut emulator = Emulator::new(Cpu::new(), Bus::new(0, 0, 0), Endian::Little);
    emulator.cpu.set_register(Register::R1 as u8, 7);
    emulator.cpu.set_register(Register::R2 as u8, 9);
    let flags = emulator.cpu.cpsr;
    // ADD R0, R1, R2
    emulator
        .execute_data_processing_instruction(DataProcessingInstruction(0xE081_0002))
        .unwrap();
    assert_eq!(emulator.cpu.register(0), 16);
    assert_eq!(emulator.cpu.cpsr, flags);
    // CMP R1, R2
    let registers = emulator.cpu.registers;
    emulator
        .execute_data_processing_instruction(DataProcessingInstruction(0xE151_0002))
        .unwrap();
    assert_eq!(emulator.cpu.registers, registers);
    assert!(emulator.cpu.n() && !emulator.cpu.c());
}

#[test]
fn law_step_at_breakpoint_reports_it_and_changes_nothing() {
    let mut emulator = Emulator::new(Cpu::new(), Bus::new(16, 0, 0), Endian::Little);
    emulator.write32(0, 0xE3A0_002D).unwrap();
    emulator.add_breakpoint_at(0).unwrap();
    emulator.cpu.set_running();
    emulator.step().unwrap();
    let stopped = emulator.cpu.state;
    let pc = emulator.cpu.pc();
    let result = emulator.step();
    assert!(matches!(result, Err(emulator::execution::ExecutionError::Breakpoint(bp)) if bp.addr == 0));
    assert_eq!(emulator.cpu.state, stopped);
    assert_eq!(emulator.cpu.pc(), pc);
    let _ = MemoryAccessError::UnalignedAccess;
}
