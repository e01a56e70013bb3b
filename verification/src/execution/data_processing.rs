//! Data-processing instructions: arithmetic, logical, move, test and
//! compare.

use super::private::Sealed;
use super::{eval_op2, with_nz, ExecutableInstruction, ExecutionError};
use crate::cpu::{condition_holds, cpu_updated, flag_set, with_flag, Cpu};
use crate::execution::multiply::signed32;
use crate::instructions::fields::Condition;
use crate::emulator::{cpu_step, Emulator};
use crate::instructions::fields::{Opcode, SetFlags};
use crate::instructions::DataProcessingInstruction;
use vstd::prelude::*;

verus! {

/// `x` reduced modulo 2^32.
pub open spec fn wrap32(x: int) -> u32 {
    (x % 0x1_0000_0000) as u32
}

/// The V (signed overflow) flag of the addition `rn + op2 = result`: two
/// operands of one sign gave a result of the other.
pub open spec fn v_flag_add(rn: u32, op2: u32, result: u32) -> bool {
    (rn ^ result) & (op2 ^ result) & 0x8000_0000 != 0
}

/// The V (signed overflow) flag of the subtraction `rn - op2 = result`:
/// operands of different signs gave a result whose sign differs from `rn`.
pub open spec fn v_flag_sub(rn: u32, op2: u32, result: u32) -> bool {
    (rn ^ op2) & (rn ^ result) & 0x8000_0000 != 0
}

/// Registers and status register after a logical operation: `result` goes
/// to `rd` if `write`; with `set_flags`, N and Z follow the result and C the
/// shifter's carry, if it gave one. V is unaffected.
pub open spec fn logical_effect(
    regs: Seq<u32>,
    psr: u32,
    rd: int,
    result: u32,
    carry: Option<bool>,
    set_flags: bool,
    write: bool,
) -> (Seq<u32>, u32) {
    (
        if write {
            regs.update(rd, result)
        } else {
            regs
        },
        if set_flags {
            match carry {
                Some(c) => with_flag(with_nz(psr, result), 0x2000_0000, c),
                None => with_nz(psr, result),
            }
        } else {
            psr
        },
    )
}

/// Registers and status register after an arithmetic operation: `result`
/// goes to `rd` if `write`; with `set_flags`, N and Z follow the result, C is
/// `carry` and V is `overflow`.
pub open spec fn arithmetic_effect(
    regs: Seq<u32>,
    psr: u32,
    rd: int,
    result: u32,
    carry: bool,
    overflow: bool,
    set_flags: bool,
    write: bool,
) -> (Seq<u32>, u32) {
    (
        if write {
            regs.update(rd, result)
        } else {
            regs
        },
        if set_flags {
            with_flag(with_flag(with_nz(psr, result), 0x2000_0000, carry), 0x1000_0000, overflow)
        } else {
            psr
        },
    )
}

/// The registers and status register after executing a data-processing
/// instruction. Subtractions set C when no borrow occurs. The test and
/// compare opcodes write no register.
pub open spec fn data_processing_effect(cpu: Cpu, instr: DataProcessingInstruction) -> (
    Seq<u32>,
    u32,
) {
    let regs = cpu.registers@;
    let psr = cpu.cpsr.0;
    let rd = instr.rd().index() as int;
    let rn = regs[instr.rn().index() as int];
    let op2 = eval_op2(instr.op2(), cpu).0;
    let shifter_carry = eval_op2(instr.op2(), cpu).1;
    let s = instr.s() == SetFlags::Yes;
    let c_in: int = if flag_set(psr, 0x2000_0000) {
        1
    } else {
        0
    };
    match instr.opcode() {
        Opcode::ADD => arithmetic_effect(
            regs,
            psr,
            rd,
            wrap32(rn + op2),
            rn + op2 > u32::MAX,
            v_flag_add(rn, op2, wrap32(rn + op2)),
            s,
            true,
        ),
        Opcode::SUB => arithmetic_effect(
            regs,
            psr,
            rd,
            wrap32(rn - op2),
            rn >= op2,
            v_flag_sub(rn, op2, wrap32(rn - op2)),
            s,
            true,
        ),
        Opcode::RSB => arithmetic_effect(
            regs,
            psr,
            rd,
            wrap32(op2 - rn),
            op2 >= rn,
            v_flag_sub(rn, op2, wrap32(op2 - rn)),
            s,
            true,
        ),
        Opcode::ADC => arithmetic_effect(
            regs,
            psr,
            rd,
            wrap32(rn + op2 + c_in),
            rn + op2 + c_in > u32::MAX,
            v_flag_add(rn, op2, wrap32(rn + op2 + c_in)),
            s,
            true,
        ),
        Opcode::SBC => arithmetic_effect(
            regs,
            psr,
            rd,
            wrap32(rn - op2 - (1 - c_in)),
            rn - op2 - (1 - c_in) >= 0,
            v_flag_sub(rn, op2, wrap32(rn - op2 - (1 - c_in))),
            s,
            true,
        ),
        Opcode::RSC => arithmetic_effect(
            regs,
            psr,
            rd,
            wrap32(op2 - rn - (1 - c_in)),
            op2 - rn - (1 - c_in) >= 0,
            v_flag_sub(rn, op2, wrap32(op2 - rn - (1 - c_in))),
            s,
            true,
        ),
        Opcode::AND => logical_effect(regs, psr, rd, rn & op2, shifter_carry, s, true),
        Opcode::ORR => logical_effect(regs, psr, rd, rn | op2, shifter_carry, s, true),
        Opcode::EOR => logical_effect(regs, psr, rd, rn ^ op2, shifter_carry, s, true),
        Opcode::BIC => logical_effect(regs, psr, rd, rn & !op2, shifter_carry, s, true),
        Opcode::MOV => logical_effect(regs, psr, rd, op2, shifter_carry, s, true),
        Opcode::MVN => logical_effect(regs, psr, rd, !op2, shifter_carry, s, true),
        Opcode::TST => logical_effect(regs, psr, rd, rn & op2, shifter_carry, s, false),
        Opcode::TEQ => logical_effect(regs, psr, rd, rn ^ op2, shifter_carry, s, false),
        Opcode::CMP => arithmetic_effect(
            regs,
            psr,
            rd,
            wrap32(rn - op2),
            rn >= op2,
            v_flag_sub(rn, op2, wrap32(rn - op2)),
            s,
            false,
        ),
        Opcode::CMN => arithmetic_effect(
            regs,
            psr,
            rd,
            wrap32(rn + op2),
            rn + op2 > u32::MAX,
            v_flag_add(rn, op2, wrap32(rn + op2)),
            s,
            false,
        ),
    }
}

/// Without the S bit, a data-processing instruction leaves the status
/// register as it was.
pub proof fn lemma_without_s_flags_unchanged(cpu: Cpu, instr: DataProcessingInstruction)
    requires
        instr.s() == SetFlags::No,
    ensures
        data_processing_effect(cpu, instr).1 == cpu.cpsr.0,
{
}

/// The test and compare opcodes write no register.
pub proof fn lemma_test_and_compare_write_nothing(cpu: Cpu, instr: DataProcessingInstruction)
    requires
        instr.opcode() == Opcode::TST || instr.opcode() == Opcode::TEQ || instr.opcode()
            == Opcode::CMP || instr.opcode() == Opcode::CMN,
    ensures
        data_processing_effect(cpu, instr).0 == cpu.registers@,
{
}

/// Every other opcode writes its result to `rd` and no other register.
pub proof fn lemma_other_opcodes_write_rd(cpu: Cpu, instr: DataProcessingInstruction, i: int)
    requires
        !(instr.opcode() == Opcode::TST || instr.opcode() == Opcode::TEQ || instr.opcode()
            == Opcode::CMP || instr.opcode() == Opcode::CMN),
        0 <= i < 16,
        i != instr.rd().index() as int,
    ensures
        data_processing_effect(cpu, instr).0.len() == 16,
        data_processing_effect(cpu, instr).0[i] == cpu.registers@[i],
{
}

/// `a + b + carry_in` modulo 2^32, and whether it carried out of 32 bits.
fn add_with_carry(a: u32, b: u32, carry_in: u32) -> (r: (u32, bool))
    requires
        carry_in <= 1,
    ensures
        r.0 == wrap32(a + b + carry_in),
        r.1 == (a + b + carry_in > u32::MAX),
{
    let sum: u64 = a as u64 + b as u64 + carry_in as u64;
    ((sum % 0x1_0000_0000u64) as u32, sum > 0xFFFF_FFFFu64)
}

/// `a - b - borrow_in` modulo 2^32, and whether no borrow occurred.
fn sub_with_borrow(a: u32, b: u32, borrow_in: u32) -> (r: (u32, bool))
    requires
        borrow_in <= 1,
    ensures
        r.0 == wrap32(a - b - borrow_in),
        r.1 == (a - b - borrow_in >= 0),
{
    let subtrahend: u64 = b as u64 + borrow_in as u64;
    if a as u64 >= subtrahend {
        ((a as u64 - subtrahend) as u32, true)
    } else {
        ((a as u64 + 0x1_0000_0000u64 - subtrahend) as u32, false)
    }
}

/// The V flag of an addition.
fn v_flag_of_add(rn: u32, op2: u32, result: u32) -> (r: bool)
    ensures
        r == v_flag_add(rn, op2, result),
{
    ((rn ^ result) & (op2 ^ result) & 0x8000_0000) != 0
}

/// The V flag of a subtraction.
fn v_flag_of_sub(rn: u32, op2: u32, result: u32) -> (r: bool)
    ensures
        r == v_flag_sub(rn, op2, result),
{
    ((rn ^ op2) & (rn ^ result) & 0x8000_0000) != 0
}

impl DataProcessingInstruction {
    /// Writes the result of a logical operation and, with the S bit, sets N,
    /// Z and (if the shifter gave one) C.
    fn execute_logical_op(&self, cpu: &mut Cpu, result: u32, carry: Option<bool>, write: bool)
        ensures
            cpu_updated(
                *old(cpu),
                *final(cpu),
                logical_effect(
                    old(cpu).registers@,
                    old(cpu).cpsr.0,
                    self.rd().index() as int,
                    result,
                    carry,
                    self.s() == SetFlags::Yes,
                    write,
                ).0,
                logical_effect(
                    old(cpu).registers@,
                    old(cpu).cpsr.0,
                    self.rd().index() as int,
                    result,
                    carry,
                    self.s() == SetFlags::Yes,
                    write,
                ).1,
            ),
    {
        if write {
            cpu.set_register(self.rd().index(), result);
        }
        if self.s() == SetFlags::Yes {
            cpu.set_n((result >> 31u32) & 1 == 1);
            cpu.set_z(result == 0);
            if let Some(carry) = carry {
                cpu.set_c(carry);
            }
        }
    }

    /// Writes the result of an arithmetic operation and, with the S bit, sets
    /// N, Z, C and V.
    fn execute_arithmetic_op(
        &self,
        cpu: &mut Cpu,
        result: u32,
        carry: bool,
        overflow: bool,
        write: bool,
    )
        ensures
            cpu_updated(
                *old(cpu),
                *final(cpu),
                arithmetic_effect(
                    old(cpu).registers@,
                    old(cpu).cpsr.0,
                    self.rd().index() as int,
                    result,
                    carry,
                    overflow,
                    self.s() == SetFlags::Yes,
                    write,
                ).0,
                arithmetic_effect(
                    old(cpu).registers@,
                    old(cpu).cpsr.0,
                    self.rd().index() as int,
                    result,
                    carry,
                    overflow,
                    self.s() == SetFlags::Yes,
                    write,
                ).1,
            ),
    {
        if write {
            cpu.set_register(self.rd().index(), result);
        }
        if self.s() == SetFlags::Yes {
            cpu.set_n((result >> 31u32) & 1 == 1);
            cpu.set_z(result == 0);
            cpu.set_c(carry);
            cpu.set_v(overflow);
        }
    }

    /// Executes the instruction on a CPU.
    pub fn execute_on(&self, cpu: &mut Cpu)
        ensures
            cpu_updated(
                *old(cpu),
                *final(cpu),
                data_processing_effect(*old(cpu), *self).0,
                data_processing_effect(*old(cpu), *self).1,
            ),
    {
        let rn = cpu.register(self.rn().index());
        let (op2, shifter_carry) = self.op2().eval(cpu);
        let c_in: u32 = if cpu.c() {
            1
        } else {
            0
        };
        match self.opcode() {
            Opcode::ADD => {
                let (result, carry) = add_with_carry(rn, op2, 0);
                let v = v_flag_of_add(rn, op2, result);
                self.execute_arithmetic_op(cpu, result, carry, v, true);
            },
            Opcode::SUB => {
                let (result, carry) = sub_with_borrow(rn, op2, 0);
                let v = v_flag_of_sub(rn, op2, result);
                self.execute_arithmetic_op(cpu, result, carry, v, true);
            },
            Opcode::RSB => {
                let (result, carry) = sub_with_borrow(op2, rn, 0);
                let v = v_flag_of_sub(rn, op2, result);
                self.execute_arithmetic_op(cpu, result, carry, v, true);
            },
            Opcode::ADC => {
                let (result, carry) = add_with_carry(rn, op2, c_in);
                let v = v_flag_of_add(rn, op2, result);
                self.execute_arithmetic_op(cpu, result, carry, v, true);
            },
            Opcode::SBC => {
                let (result, carry) = sub_with_borrow(rn, op2, 1 - c_in);
                let v = v_flag_of_sub(rn, op2, result);
                self.execute_arithmetic_op(cpu, result, carry, v, true);
            },
            Opcode::RSC => {
                let (result, carry) = sub_with_borrow(op2, rn, 1 - c_in);
                let v = v_flag_of_sub(rn, op2, result);
                self.execute_arithmetic_op(cpu, result, carry, v, true);
            },
            Opcode::AND => self.execute_logical_op(cpu, rn & op2, shifter_carry, true),
            Opcode::ORR => self.execute_logical_op(cpu, rn | op2, shifter_carry, true),
            Opcode::EOR => self.execute_logical_op(cpu, rn ^ op2, shifter_carry, true),
            Opcode::BIC => self.execute_logical_op(cpu, rn & !op2, shifter_carry, true),
            Opcode::MOV => self.execute_logical_op(cpu, op2, shifter_carry, true),
            Opcode::MVN => self.execute_logical_op(cpu, !op2, shifter_carry, true),
            Opcode::TST => self.execute_logical_op(cpu, rn & op2, shifter_carry, false),
            Opcode::TEQ => self.execute_logical_op(cpu, rn ^ op2, shifter_carry, false),
            Opcode::CMP => {
                let (result, carry) = sub_with_borrow(rn, op2, 0);
                let v = v_flag_of_sub(rn, op2, result);
                self.execute_arithmetic_op(cpu, result, carry, v, false);
            },
            Opcode::CMN => {
                let (result, carry) = add_with_carry(rn, op2, 0);
                let v = v_flag_of_add(rn, op2, result);
                self.execute_arithmetic_op(cpu, result, carry, v, false);
            },
        }
    }
}

impl ExecutableInstruction for DataProcessingInstruction {
    open spec fn supported(&self) -> bool {
        true
    }

    fn execute_with(&self, emulator: &mut Emulator) -> (r: Result<(), ExecutionError>)
        ensures
            r == Ok::<(), ExecutionError>(()),
            cpu_step(*old(emulator), *final(emulator), data_processing_effect(old(emulator).cpu, *self)),
    {
        self.execute_on(&mut emulator.cpu);
        Ok(())
    }
}

impl Sealed for DataProcessingInstruction {

}


/// Setting one of the N, Z, C, V flags changes that flag only.
proof fn lemma_with_flag_get(p: u32, f: u32, g: u32, v: bool)
    requires
        f == 0x8000_0000u32 || f == 0x4000_0000u32 || f == 0x2000_0000u32 || f == 0x1000_0000u32,
        g == 0x8000_0000u32 || g == 0x4000_0000u32 || g == 0x2000_0000u32 || g == 0x1000_0000u32,
    ensures
        flag_set(with_flag(p, f, v), g) == if f == g {
            v
        } else {
            flag_set(p, g)
        },
{
    if v {
        assert(((p | f) & g == g) == (if f == g {
            true
        } else {
            p & g == g
        })) by (bit_vector)
            requires
                f == 0x8000_0000u32 || f == 0x4000_0000u32 || f == 0x2000_0000u32 || f
                    == 0x1000_0000u32,
                g == 0x8000_0000u32 || g == 0x4000_0000u32 || g == 0x2000_0000u32 || g
                    == 0x1000_0000u32,
        ;
    } else {
        assert(((p & !f) & g == g) == (if f == g {
            false
        } else {
            p & g == g
        })) by (bit_vector)
            requires
                f == 0x8000_0000u32 || f == 0x4000_0000u32 || f == 0x2000_0000u32 || f
                    == 0x1000_0000u32,
                g == 0x8000_0000u32 || g == 0x4000_0000u32 || g == 0x2000_0000u32 || g
                    == 0x1000_0000u32,
        ;
    }
}

/// The flags an arithmetic operation leaves: N the top bit of the result,
/// Z whether it is zero, C the carry and V the overflow.
proof fn lemma_arithmetic_flags(psr: u32, result: u32, carry: bool, overflow: bool)
    ensures
        ({
            let p = with_flag(
                with_flag(with_nz(psr, result), 0x2000_0000, carry),
                0x1000_0000,
                overflow,
            );
            &&& flag_set(p, 0x8000_0000) == (result >= 0x8000_0000)
            &&& flag_set(p, 0x4000_0000) == (result == 0)
            &&& flag_set(p, 0x2000_0000) == carry
            &&& flag_set(p, 0x1000_0000) == overflow
        }),
{
    let p1 = with_flag(psr, 0x8000_0000, super::negative(result));
    let p2 = with_flag(p1, 0x4000_0000, result == 0);
    let p3 = with_flag(p2, 0x2000_0000, carry);
    let p4 = with_flag(p3, 0x1000_0000, overflow);
    assert(super::negative(result) == (result >= 0x8000_0000)) by {
        assert(((result >> 31u32) & 1 == 1) == (result >= 0x8000_0000)) by (bit_vector);
    }
    let flags = seq![0x8000_0000u32, 0x4000_0000u32, 0x2000_0000u32, 0x1000_0000u32];
    assert forall|k: int| 0 <= k < 4 implies {
        let g = #[trigger] flags[k];
        &&& flag_set(p4, g) == flag_set(p3, g) || g == 0x1000_0000u32
        &&& flag_set(p3, g) == flag_set(p2, g) || g == 0x2000_0000u32
        &&& flag_set(p2, g) == flag_set(p1, g) || g == 0x4000_0000u32
    } by {
        let g = flags[k];
        lemma_with_flag_get(p3, 0x1000_0000, g, overflow);
        lemma_with_flag_get(p2, 0x2000_0000, g, carry);
        lemma_with_flag_get(p1, 0x4000_0000, g, result == 0);
    }
    assert(flags[0] == 0x8000_0000u32 && flags[1] == 0x4000_0000u32);
    assert(flags[2] == 0x2000_0000u32 && flags[3] == 0x1000_0000u32);
    lemma_with_flag_get(psr, 0x8000_0000, 0x8000_0000, super::negative(result));
    lemma_with_flag_get(p1, 0x4000_0000, 0x4000_0000, result == 0);
    lemma_with_flag_get(p2, 0x2000_0000, 0x2000_0000, carry);
    lemma_with_flag_get(p3, 0x1000_0000, 0x1000_0000, overflow);
}

/// The overflow flag of a subtraction is set exactly when the difference
/// of the operands, read as signed numbers, does not fit in 32 bits.
proof fn lemma_v_flag_sub_overflow(a: u32, b: u32)
    ensures
        v_flag_sub(a, b, wrap32(a - b)) <==> !(-0x8000_0000 <= signed32(a) - signed32(b)
            < 0x8000_0000),
{
    let res = wrap32(a - b);
    assert(res == if a >= b {
        a - b
    } else {
        a - b + 0x1_0000_0000
    });
    assert(v_flag_sub(a, b, res) == ((a >= 0x8000_0000) != (b >= 0x8000_0000) && (a
        >= 0x8000_0000) != (res >= 0x8000_0000))) by (bit_vector);
}

/// A compare sets the flags so that every condition code answers the
/// comparison it names, of the first operand `a` against the second `b`:
/// EQ and NE their equality, HS, LO, HI and LS their unsigned order, GE,
/// LT, GT and LE their signed order; VS tells whether `a - b` overflows as
/// a signed subtraction, and MI whether its 32-bit result is negative.
pub proof fn lemma_compare_conditions(cpu: Cpu, instr: DataProcessingInstruction)
    requires
        instr.opcode() == Opcode::CMP,
        instr.s() == SetFlags::Yes,
    ensures
        ({
            let a = cpu.registers@[instr.rn().index() as int];
            let b = eval_op2(instr.op2(), cpu).0;
            let psr = data_processing_effect(cpu, instr).1;
            &&& condition_holds(Condition::EQ, psr) <==> a == b
            &&& condition_holds(Condition::NE, psr) <==> a != b
            &&& condition_holds(Condition::HS, psr) <==> a >= b
            &&& condition_holds(Condition::LO, psr) <==> a < b
            &&& condition_holds(Condition::HI, psr) <==> a > b
            &&& condition_holds(Condition::LS, psr) <==> a <= b
            &&& condition_holds(Condition::GE, psr) <==> signed32(a) >= signed32(b)
            &&& condition_holds(Condition::LT, psr) <==> signed32(a) < signed32(b)
            &&& condition_holds(Condition::GT, psr) <==> signed32(a) > signed32(b)
            &&& condition_holds(Condition::LE, psr) <==> signed32(a) <= signed32(b)
            &&& condition_holds(Condition::VS, psr) <==> !(-0x8000_0000 <= signed32(a) - signed32(b)
                < 0x8000_0000)
            &&& condition_holds(Condition::MI, psr) <==> (if a >= b {
                a - b
            } else {
                a - b + 0x1_0000_0000
            }) >= 0x8000_0000
        }),
{
    let a = cpu.registers@[instr.rn().index() as int];
    let b = eval_op2(instr.op2(), cpu).0;
    let res = wrap32(a - b);
    lemma_arithmetic_flags(cpu.cpsr.0, res, a >= b, v_flag_sub(a, b, res));
    lemma_v_flag_sub_overflow(a, b);
    assert(res == if a >= b {
        a - b
    } else {
        a - b + 0x1_0000_0000
    });
}


/// The overflow flag of an addition is set exactly when the sum of the
/// operands, read as signed numbers, does not fit in 32 bits.
proof fn lemma_v_flag_add_overflow(a: u32, b: u32)
    ensures
        v_flag_add(a, b, wrap32(a + b)) <==> !(-0x8000_0000 <= signed32(a) + signed32(b)
            < 0x8000_0000),
{
    let res = wrap32(a + b);
    assert(res == if a + b < 0x1_0000_0000 {
        a + b
    } else {
        a + b - 0x1_0000_0000
    });
    assert(v_flag_add(a, b, res) == ((a >= 0x8000_0000) == (b >= 0x8000_0000) && (a
        >= 0x8000_0000) != (res >= 0x8000_0000))) by (bit_vector);
}

/// An addition that sets the flags (ADDS, CMN), of `a` and `b`: EQ holds
/// when the 32-bit sum is zero, HS when the sum carries out of 32 bits, VS
/// when it overflows as a signed addition, MI when the 32-bit sum is
/// negative. ADDS writes that sum to `rd`; CMN writes no register.
pub proof fn lemma_add_conditions(cpu: Cpu, instr: DataProcessingInstruction)
    requires
        instr.opcode() == Opcode::ADD || instr.opcode() == Opcode::CMN,
        instr.s() == SetFlags::Yes,
    ensures
        ({
            let a = cpu.registers@[instr.rn().index() as int];
            let b = eval_op2(instr.op2(), cpu).0;
            let sum: int = if a + b < 0x1_0000_0000 {
                a + b
            } else {
                a + b - 0x1_0000_0000
            };
            let (regs, psr) = data_processing_effect(cpu, instr);
            &&& condition_holds(Condition::EQ, psr) <==> sum == 0
            &&& condition_holds(Condition::HS, psr) <==> a + b >= 0x1_0000_0000
            &&& condition_holds(Condition::VS, psr) <==> !(-0x8000_0000 <= signed32(a) + signed32(b)
                < 0x8000_0000)
            &&& condition_holds(Condition::MI, psr) <==> sum >= 0x8000_0000
            &&& instr.opcode() == Opcode::ADD ==> regs == cpu.registers@.update(
                instr.rd().index() as int,
                sum as u32,
            )
            &&& instr.opcode() == Opcode::CMN ==> regs == cpu.registers@
        }),
{
    let a = cpu.registers@[instr.rn().index() as int];
    let b = eval_op2(instr.op2(), cpu).0;
    let res = wrap32(a + b);
    lemma_arithmetic_flags(cpu.cpsr.0, res, a + b > u32::MAX, v_flag_add(a, b, res));
    lemma_v_flag_add_overflow(a, b);
    assert(res == if a + b < 0x1_0000_0000 {
        a + b
    } else {
        a + b - 0x1_0000_0000
    });
}

/// A subtraction that sets the flags (SUBS) leaves them as a compare (CMP)
/// of the same operands does, and writes the 32-bit difference to `rd`.
pub proof fn lemma_subtract_flags_as_compare(
    cpu: Cpu,
    sub: DataProcessingInstruction,
    compare: DataProcessingInstruction,
)
    requires
        sub.opcode() == Opcode::SUB,
        compare.opcode() == Opcode::CMP,
        sub.s() == SetFlags::Yes,
        compare.s() == SetFlags::Yes,
        sub.rn() == compare.rn(),
        sub.op2() == compare.op2(),
    ensures
        data_processing_effect(cpu, sub).1 == data_processing_effect(cpu, compare).1,
        ({
            let a = cpu.registers@[sub.rn().index() as int];
            let b = eval_op2(sub.op2(), cpu).0;
            data_processing_effect(cpu, sub).0 == cpu.registers@.update(
                sub.rd().index() as int,
                (if a >= b {
                    a - b
                } else {
                    a - b + 0x1_0000_0000
                }) as u32,
            )
        }),
{
    let a = cpu.registers@[sub.rn().index() as int];
    let b = eval_op2(sub.op2(), cpu).0;
    assert(wrap32(a - b) == if a >= b {
        a - b
    } else {
        a - b + 0x1_0000_0000
    });
}

} // verus!
