//! Multiply (MUL, MLA) and multiply long (UMULL, UMLAL, SMULL, SMLAL).

use super::private::Sealed;
use super::{with_nz, ExecutableInstruction, ExecutionError};
use super::data_processing::wrap32;
use crate::cpu::{with_flag, Cpu};
use crate::emulator::{cpu_step, Emulator};
use crate::instructions::fields::{AccumulateFlag, SetFlags, SignedFlag};
use crate::instructions::{MultiplyInstruction, MultiplyLongInstruction};
use vstd::prelude::*;

verus! {

/// `x` read as a signed 32-bit number.
pub open spec fn signed32(x: u32) -> int {
    if x >= 0x8000_0000 {
        x - 0x1_0000_0000
    } else {
        x as int
    }
}

/// `x` reduced modulo 2^64.
pub open spec fn wrap64(x: int) -> u64 {
    (x % 0x1_0000_0000_0000_0000) as u64
}

/// The registers and status register after a multiply: `rd` gets
/// `rm * rs` (plus `rn` when accumulating) modulo 2^32; with the S bit, N
/// and Z follow the result. C and V are unaffected.
pub open spec fn multiply_effect(cpu: Cpu, instr: MultiplyInstruction) -> (Seq<u32>, u32) {
    let regs = cpu.registers@;
    let rm = regs[instr.rm().index() as int];
    let rs = regs[instr.rs().index() as int];
    let rn = regs[instr.rn().index() as int];
    let result = if instr.a() == AccumulateFlag::Accumulate {
        wrap32(wrap32(rm * rs) + rn)
    } else {
        wrap32(rm * rs)
    };
    (
        regs.update(instr.rd().index() as int, result),
        if instr.s() == SetFlags::Yes {
            with_nz(cpu.cpsr.0, result)
        } else {
            cpu.cpsr.0
        },
    )
}

/// The 64-bit result of a multiply long: the product of `rm` and `rs`, as
/// signed or unsigned numbers, plus, when accumulating, the 64-bit value
/// held in `rd_hi:rd_lo`, modulo 2^64.
pub open spec fn multiply_long_result(cpu: Cpu, instr: MultiplyLongInstruction) -> u64 {
    let regs = cpu.registers@;
    let rm = regs[instr.rm().index() as int];
    let rs = regs[instr.rs().index() as int];
    let product = match instr.u() {
        SignedFlag::Signed => wrap64(signed32(rm) * signed32(rs)),
        SignedFlag::Unsigned => wrap64(rm * rs),
    };
    if instr.a() == AccumulateFlag::Accumulate {
        let lo = regs[instr.rd_lo().index() as int];
        let hi = regs[instr.rd_hi().index() as int];
        wrap64(product + hi * 0x1_0000_0000 + lo)
    } else {
        product
    }
}

/// The registers and status register after a multiply long: `rd_lo` gets
/// the low word of the result, then `rd_hi` the high word; with the S bit,
/// N is bit 63 of the result and Z whether it is zero.
pub open spec fn multiply_long_effect(cpu: Cpu, instr: MultiplyLongInstruction) -> (Seq<u32>, u32) {
    let result = multiply_long_result(cpu, instr);
    (
        cpu.registers@.update(instr.rd_lo().index() as int, (result % 0x1_0000_0000) as u32).update(
            instr.rd_hi().index() as int,
            (result / 0x1_0000_0000) as u32,
        ),
        if instr.s() == SetFlags::Yes {
            with_flag(
                with_flag(cpu.cpsr.0, 0x8000_0000, result >= 0x8000_0000_0000_0000),
                0x4000_0000,
                result == 0,
            )
        } else {
            cpu.cpsr.0
        },
    )
}

/// `a * b` modulo 2^32.
fn mul_low(a: u32, b: u32) -> (r: u32)
    ensures
        r == wrap32(a * b),
{
    a.wrapping_mul(b)
}

/// `a + b` modulo 2^32.
fn add_low(a: u32, b: u32) -> (r: u32)
    ensures
        r == wrap32(a + b),
{
    a.wrapping_add(b)
}

impl MultiplyInstruction {
    /// Executes the instruction on a CPU.
    pub fn execute_on(&self, cpu: &mut Cpu)
        ensures
            crate::cpu::cpu_updated(
                *old(cpu),
                *final(cpu),
                multiply_effect(*old(cpu), *self).0,
                multiply_effect(*old(cpu), *self).1,
            ),
    {
        let rm = cpu.register(self.rm().index());
        let rs = cpu.register(self.rs().index());
        let product = mul_low(rm, rs);
        let result = if self.a() == AccumulateFlag::Accumulate {
            let rn = cpu.register(self.rn().index());
            add_low(product, rn)
        } else {
            product
        };
        cpu.set_register(self.rd().index(), result);
        if self.s() == SetFlags::Yes {
            cpu.set_n((result >> 31u32) & 1 == 1);
            cpu.set_z(result == 0);
        }
    }
}

impl ExecutableInstruction for MultiplyInstruction {
    open spec fn supported(&self) -> bool {
        true
    }

    fn execute_with(&self, emulator: &mut Emulator) -> (r: Result<(), ExecutionError>)
        ensures
            r == Ok::<(), ExecutionError>(()),
            cpu_step(*old(emulator), *final(emulator), multiply_effect(old(emulator).cpu, *self)),
    {
        self.execute_on(&mut emulator.cpu);
        Ok(())
    }
}

/// `x` as a signed 64-bit number.
fn sign_extend(x: u32) -> (r: i64)
    ensures
        r == signed32(x),
{
    if x >= 0x8000_0000 {
        x as i64 - 0x1_0000_0000i64
    } else {
        x as i64
    }
}

/// `x` modulo 2^64.
fn to_u64_wrapping(x: i64) -> (r: u64)
    ensures
        r == wrap64(x as int),
{
    if x >= 0 {
        x as u64
    } else {
        let below = (-(x + 1)) as u64;
        u64::MAX - below
    }
}

/// The product of `a` and `b` read as signed numbers, modulo 2^64.
fn signed_product(a: u32, b: u32) -> (r: u64)
    ensures
        r == wrap64(signed32(a) * signed32(b)),
{
    let x = sign_extend(a);
    let y = sign_extend(b);
    assert(-0x4000_0000_0000_0000 <= x * y <= 0x4000_0000_0000_0000) by (nonlinear_arith)
        requires
            -0x8000_0000 <= x < 0x8000_0000,
            -0x8000_0000 <= y < 0x8000_0000,
    ;
    to_u64_wrapping(x * y)
}

/// The product of `a` and `b`, which never exceeds 64 bits.
fn unsigned_product(a: u32, b: u32) -> (r: u64)
    ensures
        r == wrap64(a * b),
{
    assert(0 <= a as u64 * b as u64 <= 0xFFFF_FFFE_0000_0001) by (nonlinear_arith)
        requires
            a <= 0xFFFF_FFFF,
            b <= 0xFFFF_FFFF,
    ;
    a as u64 * b as u64
}

/// `product` plus the 64-bit value `hi:lo`, modulo 2^64.
fn accumulate(product: u64, hi: u32, lo: u32) -> (r: u64)
    ensures
        r == wrap64(product + hi * 0x1_0000_0000 + lo),
{
    let current = hi as u64 * 0x1_0000_0000u64 + lo as u64;
    product.wrapping_add(current)
}

impl MultiplyLongInstruction {
    /// Executes the instruction on a CPU.
    pub fn execute_on(&self, cpu: &mut Cpu)
        ensures
            crate::cpu::cpu_updated(
                *old(cpu),
                *final(cpu),
                multiply_long_effect(*old(cpu), *self).0,
                multiply_long_effect(*old(cpu), *self).1,
            ),
    {
        let rm = cpu.register(self.rm().index());
        let rs = cpu.register(self.rs().index());
        let product: u64 = match self.u() {
            SignedFlag::Signed => signed_product(rm, rs),
            SignedFlag::Unsigned => unsigned_product(rm, rs),
        };
        let result = if self.a() == AccumulateFlag::Accumulate {
            let lo = cpu.register(self.rd_lo().index());
            let hi = cpu.register(self.rd_hi().index());
            accumulate(product, hi, lo)
        } else {
            product
        };
        cpu.set_register(self.rd_lo().index(), (result % 0x1_0000_0000u64) as u32);
        cpu.set_register(self.rd_hi().index(), (result / 0x1_0000_0000u64) as u32);
        if self.s() == SetFlags::Yes {
            cpu.set_n(result >= 0x8000_0000_0000_0000u64);
            cpu.set_z(result == 0);
        }
    }
}

impl ExecutableInstruction for MultiplyLongInstruction {
    open spec fn supported(&self) -> bool {
        true
    }

    fn execute_with(&self, emulator: &mut Emulator) -> (r: Result<(), ExecutionError>)
        ensures
            r == Ok::<(), ExecutionError>(()),
            cpu_step(*old(emulator), *final(emulator), multiply_long_effect(old(emulator).cpu, *self)),
    {
        self.execute_on(&mut emulator.cpu);
        Ok(())
    }
}

impl Sealed for MultiplyInstruction {

}

impl Sealed for MultiplyLongInstruction {

}


/// A multiply long writes the 64-bit product of `rm` and `rs` (as unsigned
/// numbers, or signed ones) into `rd_hi:rd_lo`; accumulating, it adds the
/// 64-bit value `rd_hi:rd_lo` held before, high word and low word both;
/// all modulo 2^64.
pub proof fn lemma_multiply_long_result(cpu: Cpu, instr: MultiplyLongInstruction)
    requires
        instr.rd_lo().index() != instr.rd_hi().index(),
    ensures
        ({
            let regs = cpu.registers@;
            let after = multiply_long_effect(cpu, instr).0;
            let lo = instr.rd_lo().index() as int;
            let hi = instr.rd_hi().index() as int;
            let rm = regs[instr.rm().index() as int];
            let rs = regs[instr.rs().index() as int];
            let product: int = match instr.u() {
                SignedFlag::Signed => signed32(rm) * signed32(rs),
                SignedFlag::Unsigned => rm * rs,
            };
            let held: int = if instr.a() == AccumulateFlag::Accumulate {
                regs[hi] * 0x1_0000_0000 + regs[lo]
            } else {
                0
            };
            after[hi] * 0x1_0000_0000 + after[lo] == (product + held) % 0x1_0000_0000_0000_0000
        }),
{
    let m: int = 0x1_0000_0000_0000_0000;
    let regs = cpu.registers@;
    let lo = instr.rd_lo().index() as int;
    let hi = instr.rd_hi().index() as int;
    let rm = regs[instr.rm().index() as int];
    let rs = regs[instr.rs().index() as int];
    let product: int = match instr.u() {
        SignedFlag::Signed => signed32(rm) * signed32(rs),
        SignedFlag::Unsigned => rm * rs,
    };
    let result = multiply_long_result(cpu, instr);
    vstd::arithmetic::div_mod::lemma_mod_bound(product, m);
    if instr.a() == AccumulateFlag::Accumulate {
        let held: int = regs[hi] * 0x1_0000_0000 + regs[lo];
        vstd::arithmetic::div_mod::lemma_small_mod(held as nat, m as nat);
        vstd::arithmetic::div_mod::lemma_add_mod_noop(product, held, m);
        vstd::arithmetic::div_mod::lemma_mod_bound(product % m + held, m);
        assert(result == (product + held) % m);
    } else {
        assert(result == product % m);
    }
    vstd::arithmetic::div_mod::lemma_fundamental_div_mod(result as int, 0x1_0000_0000);
    vstd::arithmetic::div_mod::lemma_div_pos_is_pos(result as int, 0x1_0000_0000);
    assert(result as int / 0x1_0000_0000 < 0x1_0000_0000) by {
        vstd::arithmetic::div_mod::lemma_div_is_ordered(result as int, m - 1, 0x1_0000_0000);
    }
}


/// A multiply writes `rm * rs` into `rd`, plus `rn` when accumulating,
/// modulo 2^32.
pub proof fn lemma_multiply_result(cpu: Cpu, instr: MultiplyInstruction)
    ensures
        ({
            let regs = cpu.registers@;
            let rm = regs[instr.rm().index() as int];
            let rs = regs[instr.rs().index() as int];
            let added: int = if instr.a() == AccumulateFlag::Accumulate {
                regs[instr.rn().index() as int] as int
            } else {
                0
            };
            multiply_effect(cpu, instr).0[instr.rd().index() as int] == (rm * rs + added)
                % 0x1_0000_0000
        }),
{
    let m: int = 0x1_0000_0000;
    let regs = cpu.registers@;
    let rm = regs[instr.rm().index() as int];
    let rs = regs[instr.rs().index() as int];
    let p: int = rm * rs;
    vstd::arithmetic::div_mod::lemma_mod_bound(p, m);
    if instr.a() == AccumulateFlag::Accumulate {
        let rn: int = regs[instr.rn().index() as int] as int;
        vstd::arithmetic::div_mod::lemma_small_mod(rn as nat, m as nat);
        vstd::arithmetic::div_mod::lemma_add_mod_noop(p, rn, m);
        vstd::arithmetic::div_mod::lemma_mod_bound(p % m + rn, m);
    }
}

} // verus!
