//! CPU state: the general-purpose registers, the program status registers,
//! the processor mode, the condition flags and the execution state.

use crate::emulator::Breakpoint;
use crate::instructions::fields::Condition;
use crate::instructions::Instruction;
use crate::memory::MemoryAccessError;
use std::ops::{BitAnd, BitOr, Index, Not};
use vstd::prelude::*;

/// Register indices for the CPU.
pub mod registers;

verus! {

/// Processor execution mode.
///
/// ARM processors have several privilege levels called modes. These modes
/// determine which registers are accessible and what operations are allowed.
#[derive(Debug, Clone, Copy, PartialEq, Eq, Structural)]
pub enum Mode {
    /// User mode - unprivileged mode for applications
    User,
    /// FIQ (Fast Interrupt Request) mode - high priority interrupts
    Fiq,
    /// IRQ (Interrupt Request) mode - standard interrupt handling
    Irq,
    /// Supervisor mode - software interrupt or reset
    Supervisor,
    /// Abort mode - memory access violation handling
    Abort,
    /// Undefined mode - undefined instruction handling
    Undefined,
    /// System mode - privileged user mode
    System,
}

impl Mode {
    /// The mode bits (bits 0-4 of a program status register) of this mode.
    #[verifier::allow_in_spec]
    pub fn bits(self) -> u32
        returns
            (match self {
                Mode::User => 0b10000u32,
                Mode::Fiq => 0b10001u32,
                Mode::Irq => 0b10010u32,
                Mode::Supervisor => 0b10011u32,
                Mode::Abort => 0b10111u32,
                Mode::Undefined => 0b11011u32,
                Mode::System => 0b11111u32,
            }),
    {
        match self {
            Mode::User => 0b10000u32,
            Mode::Fiq => 0b10001u32,
            Mode::Irq => 0b10010u32,
            Mode::Supervisor => 0b10011u32,
            Mode::Abort => 0b10111u32,
            Mode::Undefined => 0b11011u32,
            Mode::System => 0b11111u32,
        }
    }
}

/// The mode whose bits are `bits`, if any.
pub open spec fn mode_from_bits(bits: u8) -> Option<Mode> {
    if bits == 0b10000 {
        Some(Mode::User)
    } else if bits == 0b10001 {
        Some(Mode::Fiq)
    } else if bits == 0b10010 {
        Some(Mode::Irq)
    } else if bits == 0b10011 {
        Some(Mode::Supervisor)
    } else if bits == 0b10111 {
        Some(Mode::Abort)
    } else if bits == 0b11011 {
        Some(Mode::Undefined)
    } else if bits == 0b11111 {
        Some(Mode::System)
    } else {
        None
    }
}

/// The program is ready to exit, with the given `exit_code`.
#[derive(Debug, Clone, Copy, PartialEq, Eq, Structural)]
pub struct ExitStatus {
    /// The exit code of the program.
    /// i.e. the equival of `return 0`
    pub exit_code: i32,
}

/// A supervisor call (SVC) is currently active.
#[derive(Debug, Clone, Copy, PartialEq, Eq, Structural)]
pub struct SupervisorCall {
    /// The code of the active supervisor call.
    pub code: u32,
}

/// An exception that occurred during execution.
#[derive(Debug, Clone, Copy, PartialEq, Eq, Structural)]
pub enum Exception {
    MemoryAccess(MemoryAccessError),
    CpuError(CpuError),
}

/// Execution state of the CPU.
///
/// Represents what the CPU is currently doing or what has caused it to stop.
#[derive(Debug, Clone, Copy, PartialEq, Eq, Structural)]
pub enum ExecutionState {
    /// The CPU is stopped; the initial state.
    Halted,
    Running,
    /// This is an active [`Breakpoint`].
    Breakpoint(Breakpoint),
    /// There is an active [`Exception`].
    Exception(Exception),
    /// Finished executing, and returned the exit code.
    FinishedExecution(ExitStatus),
    /// Supervisor call handler (SVC)
    SupervisorCall(SupervisorCall),
}

/// Error when converting CPSR bits to a valid [`Mode`].
#[derive(Debug, Clone, Copy, PartialEq, Eq, Structural)]
pub enum ModeError {
    /// The mode bits in CPSR did not match any known mode
    InvalidModeBits,
}

/// CPU-specific errors that can occur during emulation.
#[derive(Debug, Clone, Copy, PartialEq, Eq, Structural)]
pub enum CpuError {
    /// Attempted to access SPSR in an unprivileged mode (User or System)
    UnprivilegedAccess,
    /// Attempted to access invalid or protected memory address
    Segfault { addr: u32 },
    /// Attempted to access memory with invalid alignment
    UnalignedAccess,
}

/// CPU flags stored in a program status register.
///
/// - N (bit 31): Negative/Less than flag
/// - Z (bit 30): Zero flag
/// - C (bit 29): Carry flag
/// - V (bit 28): Overflow flag
/// - I (bit 7): IRQ disable
/// - F (bit 6): FIQ disable
/// - T (bit 5): Thumb state
/// - Mode bits (bits 0-4): Processor mode
#[derive(Debug, Clone, Copy, PartialEq, Eq, Structural)]
pub struct CpuFlags(pub u32);

/// Holds the state of the CPU, including the registers and CPSR.
///
/// - R0-R12: General-purpose registers
/// - R13 (SP): Stack Pointer
/// - R14 (LR): Link Register
/// - R15 (PC): Program Counter
#[derive(Debug, Clone, Copy)]
pub struct Cpu {
    /// General-purpose registers R0-R15
    pub registers: [u32; 16],
    /// Current Program Status Register
    pub cpsr: CpuFlags,
    /// SPSR for Supervisor mode
    pub spsr_svc: CpuFlags,
    /// SPSR for Abort mode
    pub spsr_abt: CpuFlags,
    /// SPSR for Undefined mode
    pub spsr_und: CpuFlags,
    /// SPSR for IRQ mode
    pub spsr_irq: CpuFlags,
    /// SPSR for FIQ mode
    pub spsr_fiq: CpuFlags,
    /// Current execution state
    pub state: ExecutionState,
}


impl Cpu {
    /// Default CPSR value after reset (0x000000D3): Supervisor mode, IRQs and
    /// FIQs disabled, ARM state.
    pub const DEFAULT_CPSR: u32 = 0x000000D3;

    /// Bitmask for the N (Negative) flag (bit 31).
    pub const N_FLAG: u32 = 0x8000_0000;

    /// Bitmask for the Z (Zero) flag (bit 30).
    pub const Z_FLAG: u32 = 0x4000_0000;

    /// Bitmask for the C (Carry) flag (bit 29).
    pub const C_FLAG: u32 = 0x2000_0000;

    /// Bitmask for the V (Overflow) flag (bit 28).
    pub const V_FLAG: u32 = 0x1000_0000;

    /// Bitmask for the I (IRQ Disable) flag (bit 7).
    pub const I_FLAG: u32 = 0x80;

    /// Bitmask for the F (FIQ Disable) flag (bit 6).
    pub const F_FLAG: u32 = 0x40;

    /// Bitmask for the T (Thumb State) flag (bit 5).
    pub const T_FLAG: u32 = 0x20;

    /// Bitmask for the mode bits (bits 0-4).
    pub const MODE_MASK: u32 = 0x1F;
}

/// Whether every bit of `flag` is set in `psr`.
pub open spec fn flag_set(psr: u32, flag: u32) -> bool {
    psr & flag == flag
}

/// `psr` with the bits of `flag` set, or cleared.
pub open spec fn with_flag(psr: u32, flag: u32, value: bool) -> u32 {
    if value {
        psr | flag
    } else {
        psr & !flag
    }
}

/// `psr` with its mode bits replaced by those of `mode`.
pub open spec fn with_mode(psr: u32, mode: Mode) -> u32 {
    (psr & !0x1Fu32) | mode.bits()
}

/// The mode that the mode bits of `psr` name, if any.
pub open spec fn mode_of(psr: u32) -> Option<Mode> {
    mode_from_bits((psr & 0x1F) as u8)
}

/// Whether an instruction with condition `cond` executes under the flags of
/// `psr`.
pub open spec fn condition_holds(cond: Condition, psr: u32) -> bool {
    let n = flag_set(psr, 0x8000_0000);
    let z = flag_set(psr, 0x4000_0000);
    let c = flag_set(psr, 0x2000_0000);
    let v = flag_set(psr, 0x1000_0000);
    match cond {
        Condition::EQ => z,
        Condition::NE => !z,
        Condition::HS => c,
        Condition::LO => !c,
        Condition::MI => n,
        Condition::PL => !n,
        Condition::VS => v,
        Condition::VC => !v,
        Condition::HI => c && !z,
        Condition::LS => !c || z,
        Condition::GE => n == v,
        Condition::LT => n != v,
        Condition::GT => !z && n == v,
        Condition::LE => z || n != v,
        Condition::AL => true,
        Condition::NV => false,
    }
}

/// `new` is `old` with the registers `regs` and the status register `psr`,
/// and nothing else changed.
pub open spec fn cpu_updated(old: Cpu, new: Cpu, regs: Seq<u32>, psr: u32) -> bool {
    &&& new.registers@ == regs
    &&& new == (Cpu { registers: new.registers, cpsr: CpuFlags(psr), ..old })
}

/// Sixteen zero registers.
pub open spec fn zero_registers() -> Seq<u32> {
    Seq::new(16, |_i: int| 0u32)
}

/// `new` is `old` just after reset: zeroed registers, the default CPSR,
/// halted, and the saved status registers of `old`.
pub open spec fn is_reset_of(new: Cpu, old: Cpu) -> bool {
    &&& new.registers@ == zero_registers()
    &&& new == (Cpu {
        registers: new.registers,
        cpsr: CpuFlags(0x000000D3),
        state: ExecutionState::Halted,
        ..old
    })
}

/// `cpu` is a CPU as it is created: zeroed registers, the default CPSR,
/// zeroed saved status registers, halted.
pub open spec fn is_initial(cpu: Cpu) -> bool {
    &&& cpu.registers@ == zero_registers()
    &&& cpu == (Cpu {
        registers: cpu.registers,
        cpsr: CpuFlags(0x000000D3),
        spsr_svc: CpuFlags(0),
        spsr_abt: CpuFlags(0),
        spsr_und: CpuFlags(0),
        spsr_irq: CpuFlags(0),
        spsr_fiq: CpuFlags(0),
        state: ExecutionState::Halted,
    })
}

/// Setting a flag and then reading it gives the value set (a flag of no bits
/// always reads as set), and leaves every flag disjoint from it as it was.
pub proof fn lemma_set_flag_then_flag(psr: u32, flag: u32, other: u32, value: bool)
    requires
        flag != 0,
        flag & other == 0,
    ensures
        flag_set(with_flag(psr, flag, value), flag) == value,
        flag_set(with_flag(psr, flag, value), other) == flag_set(psr, other),
{
    assert((psr | flag) & flag == flag) by (bit_vector);
    assert(flag != 0 ==> (psr & !flag) & flag != flag) by (bit_vector);
    assert(flag & other == 0 ==> ((psr | flag) & other == other <==> psr & other == other))
        by (bit_vector);
    assert(flag & other == 0 ==> ((psr & !flag) & other == other <==> psr & other == other))
        by (bit_vector);
}

/// Setting the mode and then reading it gives the mode set, and leaves the
/// other bits of the status register as they were.
pub proof fn lemma_set_mode_then_mode(psr: u32, mode: Mode)
    ensures
        mode_of(with_mode(psr, mode)) == Some(mode),
        with_mode(psr, mode) & !0x1Fu32 == psr & !0x1Fu32,
{
    let b = mode.bits();
    assert(b <= 0x1F);
    assert(b <= 0x1F ==> (((psr & !0x1Fu32) | b) & 0x1F) == b) by (bit_vector);
    assert(b <= 0x1F ==> (((psr & !0x1Fu32) | b) & !0x1Fu32) == psr & !0x1Fu32) by (bit_vector);
}

/// Each condition holds exactly when its opposite does not.
pub proof fn lemma_conditions_complement(psr: u32)
    ensures
        condition_holds(Condition::EQ, psr) == !condition_holds(Condition::NE, psr),
        condition_holds(Condition::HS, psr) == !condition_holds(Condition::LO, psr),
        condition_holds(Condition::MI, psr) == !condition_holds(Condition::PL, psr),
        condition_holds(Condition::VS, psr) == !condition_holds(Condition::VC, psr),
        condition_holds(Condition::HI, psr) == !condition_holds(Condition::LS, psr),
        condition_holds(Condition::GE, psr) == !condition_holds(Condition::LT, psr),
        condition_holds(Condition::GT, psr) == !condition_holds(Condition::LE, psr),
        condition_holds(Condition::AL, psr) == !condition_holds(Condition::NV, psr),
{
}

impl Default for CpuFlags {
    fn default() -> (r: Self)
        ensures
            r == CpuFlags(0),
    {
        CpuFlags(0)
    }
}

impl From<u32> for CpuFlags {
    fn from(value: u32) -> (r: CpuFlags) {
        CpuFlags(value)
    }
}

impl vstd::std_specs::convert::FromSpecImpl<u32> for CpuFlags {
    open spec fn obeys_from_spec() -> bool {
        true
    }

    open spec fn from_spec(value: u32) -> CpuFlags {
        CpuFlags(value)
    }
}

impl From<CpuFlags> for u32 {
    fn from(value: CpuFlags) -> (r: u32) {
        value.0
    }
}

impl vstd::std_specs::convert::FromSpecImpl<CpuFlags> for u32 {
    open spec fn obeys_from_spec() -> bool {
        true
    }

    open spec fn from_spec(value: CpuFlags) -> u32 {
        value.0
    }
}

impl From<Mode> for CpuFlags {
    fn from(value: Mode) -> (r: CpuFlags) {
        CpuFlags(value.bits())
    }
}

impl vstd::std_specs::convert::FromSpecImpl<Mode> for CpuFlags {
    open spec fn obeys_from_spec() -> bool {
        true
    }

    open spec fn from_spec(value: Mode) -> CpuFlags {
        CpuFlags(value.bits())
    }
}

impl BitAnd for CpuFlags {
    type Output = CpuFlags;

    fn bitand(self, rhs: CpuFlags) -> (r: CpuFlags) {
        CpuFlags(self.0 & rhs.0)
    }
}

impl vstd::std_specs::ops::BitAndSpecImpl for CpuFlags {
    open spec fn obeys_bitand_spec() -> bool {
        true
    }

    open spec fn bitand_req(self, rhs: CpuFlags) -> bool {
        true
    }

    open spec fn bitand_spec(self, rhs: CpuFlags) -> CpuFlags {
        CpuFlags(self.0 & rhs.0)
    }
}

impl BitOr for CpuFlags {
    type Output = CpuFlags;

    fn bitor(self, rhs: CpuFlags) -> (r: CpuFlags) {
        CpuFlags(self.0 | rhs.0)
    }
}

impl vstd::std_specs::ops::BitOrSpecImpl for CpuFlags {
    open spec fn obeys_bitor_spec() -> bool {
        true
    }

    open spec fn bitor_req(self, rhs: CpuFlags) -> bool {
        true
    }

    open spec fn bitor_spec(self, rhs: CpuFlags) -> CpuFlags {
        CpuFlags(self.0 | rhs.0)
    }
}

impl Not for CpuFlags {
    type Output = CpuFlags;

    fn not(self) -> (r: CpuFlags) {
        CpuFlags(!self.0)
    }
}

impl vstd::std_specs::ops::NotSpecImpl for CpuFlags {
    open spec fn obeys_not_spec() -> bool {
        true
    }

    open spec fn not_req(self) -> bool {
        true
    }

    open spec fn not_spec(self) -> CpuFlags {
        CpuFlags(!self.0)
    }
}

impl TryFrom<CpuFlags> for Mode {
    type Error = ModeError;

    fn try_from(value: CpuFlags) -> (r: Result<Mode, ModeError>) {
        let bits = (value.0 & 0xFF) as u8;
        if bits == 0b10000 {
            Ok(Mode::User)
        } else if bits == 0b10001 {
            Ok(Mode::Fiq)
        } else if bits == 0b10010 {
            Ok(Mode::Irq)
        } else if bits == 0b10011 {
            Ok(Mode::Supervisor)
        } else if bits == 0b10111 {
            Ok(Mode::Abort)
        } else if bits == 0b11011 {
            Ok(Mode::Undefined)
        } else if bits == 0b11111 {
            Ok(Mode::System)
        } else {
            Err(ModeError::InvalidModeBits)
        }
    }
}

impl vstd::std_specs::convert::TryFromSpecImpl<CpuFlags> for Mode {
    open spec fn obeys_try_from_spec() -> bool {
        true
    }

    open spec fn try_from_spec(value: CpuFlags) -> Result<Mode, ModeError> {
        match mode_from_bits((value.0 & 0xFF) as u8) {
            Some(m) => Ok(m),
            None => Err(ModeError::InvalidModeBits),
        }
    }
}

impl Default for ExecutionState {
    fn default() -> (r: Self)
        ensures
            r == ExecutionState::Halted,
    {
        ExecutionState::Halted
    }
}

impl From<Breakpoint> for ExecutionState {
    fn from(value: Breakpoint) -> (r: ExecutionState) {
        ExecutionState::Breakpoint(value)
    }
}

impl vstd::std_specs::convert::FromSpecImpl<Breakpoint> for ExecutionState {
    open spec fn obeys_from_spec() -> bool {
        true
    }

    open spec fn from_spec(value: Breakpoint) -> ExecutionState {
        ExecutionState::Breakpoint(value)
    }
}

impl From<Exception> for ExecutionState {
    fn from(value: Exception) -> (r: ExecutionState) {
        ExecutionState::Exception(value)
    }
}

impl vstd::std_specs::convert::FromSpecImpl<Exception> for ExecutionState {
    open spec fn obeys_from_spec() -> bool {
        true
    }

    open spec fn from_spec(value: Exception) -> ExecutionState {
        ExecutionState::Exception(value)
    }
}

impl From<ExitStatus> for ExecutionState {
    fn from(value: ExitStatus) -> (r: ExecutionState) {
        ExecutionState::FinishedExecution(value)
    }
}

impl vstd::std_specs::convert::FromSpecImpl<ExitStatus> for ExecutionState {
    open spec fn obeys_from_spec() -> bool {
        true
    }

    open spec fn from_spec(value: ExitStatus) -> ExecutionState {
        ExecutionState::FinishedExecution(value)
    }
}

impl From<SupervisorCall> for ExecutionState {
    fn from(value: SupervisorCall) -> (r: ExecutionState) {
        ExecutionState::SupervisorCall(value)
    }
}

impl vstd::std_specs::convert::FromSpecImpl<SupervisorCall> for ExecutionState {
    open spec fn obeys_from_spec() -> bool {
        true
    }

    open spec fn from_spec(value: SupervisorCall) -> ExecutionState {
        ExecutionState::SupervisorCall(value)
    }
}

impl From<MemoryAccessError> for Exception {
    fn from(value: MemoryAccessError) -> (r: Exception) {
        Exception::MemoryAccess(value)
    }
}

impl vstd::std_specs::convert::FromSpecImpl<MemoryAccessError> for Exception {
    open spec fn obeys_from_spec() -> bool {
        true
    }

    open spec fn from_spec(value: MemoryAccessError) -> Exception {
        Exception::MemoryAccess(value)
    }
}

impl From<CpuError> for Exception {
    fn from(value: CpuError) -> (r: Exception) {
        Exception::CpuError(value)
    }
}

impl vstd::std_specs::convert::FromSpecImpl<CpuError> for Exception {
    open spec fn obeys_from_spec() -> bool {
        true
    }

    open spec fn from_spec(value: CpuError) -> Exception {
        Exception::CpuError(value)
    }
}

impl Default for Cpu {
    fn default() -> (r: Self)
        ensures
            is_initial(r),
    {
        let r = Cpu {
            registers: [0u32; 16],
            cpsr: CpuFlags(Cpu::DEFAULT_CPSR),
            spsr_svc: CpuFlags(0),
            spsr_abt: CpuFlags(0),
            spsr_und: CpuFlags(0),
            spsr_irq: CpuFlags(0),
            spsr_fiq: CpuFlags(0),
            state: ExecutionState::Halted,
        };
        assert(r.registers@ =~= zero_registers());
        r
    }
}

impl Index<u8> for Cpu {
    type Output = u32;

    fn index(&self, index: u8) -> (r: &u32)
        ensures
            *r == self.registers[index as int],
    {
        &self.registers[index as usize]
    }
}

impl vstd::std_specs::core::IndexSpecImpl<u8> for Cpu {
    open spec fn index_req(&self, index: &u8) -> bool {
        *index < 16
    }
}

impl Cpu {
    pub fn new() -> (r: Self)
        ensures
            is_initial(r),
    {
        Cpu::default()
    }

    pub fn is_halted(&self) -> (r: bool)
        ensures
            r == (self.state is Halted || self.state is FinishedExecution),
    {
        match self.state {
            ExecutionState::Halted | ExecutionState::FinishedExecution(_) => true,
            _ => false,
        }
    }

    pub fn is_finished(&self) -> (r: bool)
        ensures
            r == self.state is FinishedExecution,
    {
        match self.state {
            ExecutionState::FinishedExecution(_) => true,
            _ => false,
        }
    }

    pub fn set_halted(&mut self)
        ensures
            *final(self) == (Cpu { state: ExecutionState::Halted, ..*old(self) }),
    {
        self.state = ExecutionState::Halted;
    }

    pub fn set_running(&mut self)
        ensures
            *final(self) == (Cpu { state: ExecutionState::Running, ..*old(self) }),
    {
        self.state = ExecutionState::Running;
    }

    pub fn set_breakpoint(&mut self, breakpoint: Breakpoint)
        ensures
            *final(self) == (Cpu { state: ExecutionState::Breakpoint(breakpoint), ..*old(self) }),
    {
        self.state = ExecutionState::from(breakpoint);
    }

    pub fn set_exception(&mut self, error: Exception)
        ensures
            *final(self) == (Cpu { state: ExecutionState::Exception(error), ..*old(self) }),
    {
        self.state = ExecutionState::from(error);
    }

    pub fn set_exit(&mut self, status: ExitStatus)
        ensures
            *final(self) == (Cpu {
                state: ExecutionState::FinishedExecution(status),
                ..*old(self)
            }),
    {
        self.state = ExecutionState::from(status);
    }

    pub fn set_supervisor_call(&mut self, svc: SupervisorCall)
        ensures
            *final(self) == (Cpu { state: ExecutionState::SupervisorCall(svc), ..*old(self) }),
    {
        self.state = ExecutionState::from(svc);
    }

    /// Gets the current processor mode. The mode bits of the CPSR must name
    /// a mode.
    pub fn mode(&self) -> (r: Mode)
        requires
            mode_of(self.cpsr.0) is Some,
        ensures
            mode_of(self.cpsr.0) == Some(r),
    {
        let psr = self.cpsr.0;
        let masked = psr & Self::MODE_MASK;
        assert(masked & 0xFF == masked) by (bit_vector)
            requires
                masked == psr & 0x1F,
        ;
        let bits = CpuFlags(masked);
        match Mode::try_from(bits) {
            Ok(mode) => mode,
            Err(_) => {
                proof {
                    assert(false);
                }
                Mode::User
            },
        }
    }

    /// Sets the processor mode.
    pub fn set_mode(&mut self, mode: Mode)
        ensures
            *final(self) == (Cpu { cpsr: CpuFlags(with_mode(old(self).cpsr.0, mode)), ..*old(self) }),
    {
        // Clear the current mode bits
        self.cpsr = CpuFlags(self.cpsr.0 & !Self::MODE_MASK);
        // Set the new mode bits
        self.cpsr = CpuFlags(self.cpsr.0 | mode.bits());
    }

    /// The SPSR of the current mode, to be changed in place. User and System
    /// mode have none: there, a caller may not ask for it.
    pub fn spsr_mut(&mut self) -> (r: Result<&mut CpuFlags, CpuError>)
        requires
            mode_of(old(self).cpsr.0) is Some,
            mode_of(old(self).cpsr.0) != Some(Mode::User),
            mode_of(old(self).cpsr.0) != Some(Mode::System),
        ensures
            match mode_of(old(self).cpsr.0) {
                Some(Mode::Supervisor) => r matches Ok(f) && *f == old(self).spsr_svc
                    && *final(self) == (Cpu { spsr_svc: *final(f), ..*old(self) }),
                Some(Mode::Abort) => r matches Ok(f) && *f == old(self).spsr_abt
                    && *final(self) == (Cpu { spsr_abt: *final(f), ..*old(self) }),
                Some(Mode::Undefined) => r matches Ok(f) && *f == old(self).spsr_und
                    && *final(self) == (Cpu { spsr_und: *final(f), ..*old(self) }),
                Some(Mode::Irq) => r matches Ok(f) && *f == old(self).spsr_irq
                    && *final(self) == (Cpu { spsr_irq: *final(f), ..*old(self) }),
                Some(Mode::Fiq) => r matches Ok(f) && *f == old(self).spsr_fiq
                    && *final(self) == (Cpu { spsr_fiq: *final(f), ..*old(self) }),
                _ => r == Err::<&mut CpuFlags, CpuError>(CpuError::UnprivilegedAccess)
                    && *final(self) == *old(self),
            },
    {
        match self.mode() {
            Mode::Supervisor => Ok(&mut self.spsr_svc),
            Mode::Abort => Ok(&mut self.spsr_abt),
            Mode::Undefined => Ok(&mut self.spsr_und),
            Mode::Irq => Ok(&mut self.spsr_irq),
            Mode::Fiq => Ok(&mut self.spsr_fiq),
            Mode::User | Mode::System => Err(CpuError::UnprivilegedAccess),
        }
    }

    /// The SPSR of the current mode. User and System mode have none.
    pub fn spsr(&self) -> (r: Result<CpuFlags, CpuError>)
        requires
            mode_of(self.cpsr.0) is Some,
        ensures
            r == match mode_of(self.cpsr.0) {
                Some(Mode::Supervisor) => Ok::<CpuFlags, CpuError>(self.spsr_svc),
                Some(Mode::Abort) => Ok(self.spsr_abt),
                Some(Mode::Undefined) => Ok(self.spsr_und),
                Some(Mode::Irq) => Ok(self.spsr_irq),
                Some(Mode::Fiq) => Ok(self.spsr_fiq),
                _ => Err(CpuError::UnprivilegedAccess),
            },
    {
        match self.mode() {
            Mode::Supervisor => Ok(self.spsr_svc),
            Mode::Abort => Ok(self.spsr_abt),
            Mode::Undefined => Ok(self.spsr_und),
            Mode::Irq => Ok(self.spsr_irq),
            Mode::Fiq => Ok(self.spsr_fiq),
            Mode::User | Mode::System => Err(CpuError::UnprivilegedAccess),
        }
    }

    /// Resets the registers, the CPSR and the execution state. The saved
    /// status registers keep their values.
    pub fn reset(&mut self)
        ensures
            is_reset_of(*final(self), *old(self)),
    {
        self.reset_registers();
        self.reset_cpsr();
        self.state = ExecutionState::Halted;
    }

    /// Zeroes all registers.
    pub fn reset_registers(&mut self)
        ensures
            final(self).registers@ == zero_registers(),
            *final(self) == (Cpu { registers: final(self).registers, ..*old(self) }),
    {
        self.registers = [0u32; 16];
        assert(self.registers@ =~= zero_registers());
    }

    /// Resets the CPSR to its default value [Self::DEFAULT_CPSR].
    pub fn reset_cpsr(&mut self)
        ensures
            *final(self) == (Cpu { cpsr: CpuFlags(0x000000D3), ..*old(self) }),
    {
        self.set_cpsr(CpuFlags(Self::DEFAULT_CPSR));
    }

    /// Assigns a new value to the CPSR.
    pub fn set_cpsr(&mut self, cpsr: CpuFlags)
        ensures
            *final(self) == (Cpu { cpsr, ..*old(self) }),
    {
        self.cpsr = cpsr;
    }

    /// Sets the bits of a flag in the CPSR, or clears them.
    pub fn set_flag(&mut self, flag: CpuFlags, value: bool)
        ensures
            *final(self) == (Cpu {
                cpsr: CpuFlags(with_flag(old(self).cpsr.0, flag.0, value)),
                ..*old(self)
            }),
    {
        if value {
            self.cpsr = CpuFlags(self.cpsr.0 | flag.0);
        } else {
            self.cpsr = CpuFlags(self.cpsr.0 & !flag.0);
        }
    }

    /// Whether every bit of a flag is set in the CPSR.
    pub fn flag(&self, flag: CpuFlags) -> (r: bool)
        ensures
            r == flag_set(self.cpsr.0, flag.0),
    {
        self.cpsr.0 & flag.0 == flag.0
    }

    /// Sets the I (IRQ Disable) flag.
    pub fn set_i(&mut self, value: bool)
        ensures
            *final(self) == (Cpu {
                cpsr: CpuFlags(with_flag(old(self).cpsr.0, 0x80, value)),
                ..*old(self)
            }),
    {
        self.set_flag(CpuFlags(Self::I_FLAG), value);
    }

    /// Reads the I (IRQ Disable) flag.
    pub fn i(&self) -> (r: bool)
        ensures
            r == flag_set(self.cpsr.0, 0x80),
    {
        self.flag(CpuFlags(Self::I_FLAG))
    }

    /// Sets the F (FIQ Disable) flag.
    pub fn set_f(&mut self, value: bool)
        ensures
            *final(self) == (Cpu {
                cpsr: CpuFlags(with_flag(old(self).cpsr.0, 0x40, value)),
                ..*old(self)
            }),
    {
        self.set_flag(CpuFlags(Self::F_FLAG), value);
    }

    /// Reads the F (FIQ Disable) flag.
    pub fn f(&self) -> (r: bool)
        ensures
            r == flag_set(self.cpsr.0, 0x40),
    {
        self.flag(CpuFlags(Self::F_FLAG))
    }

    /// Sets the T (Thumb State) bit.
    pub fn set_t(&mut self, value: bool)
        ensures
            *final(self) == (Cpu {
                cpsr: CpuFlags(with_flag(old(self).cpsr.0, 0x20, value)),
                ..*old(self)
            }),
    {
        self.set_flag(CpuFlags(Self::T_FLAG), value);
    }

    /// Reads the T (Thumb State) bit.
    pub fn t(&self) -> (r: bool)
        ensures
            r == flag_set(self.cpsr.0, 0x20),
    {
        self.flag(CpuFlags(Self::T_FLAG))
    }

    /// Sets the N flag (Negative).
    pub fn set_n(&mut self, value: bool)
        ensures
            *final(self) == (Cpu {
                cpsr: CpuFlags(with_flag(old(self).cpsr.0, 0x8000_0000, value)),
                ..*old(self)
            }),
    {
        self.set_flag(CpuFlags(Self::N_FLAG), value);
    }

    /// Reads the N flag (Negative).
    pub fn n(&self) -> (r: bool)
        ensures
            r == flag_set(self.cpsr.0, 0x8000_0000),
    {
        self.flag(CpuFlags(Self::N_FLAG))
    }

    /// Sets the Z flag (Zero).
    pub fn set_z(&mut self, value: bool)
        ensures
            *final(self) == (Cpu {
                cpsr: CpuFlags(with_flag(old(self).cpsr.0, 0x4000_0000, value)),
                ..*old(self)
            }),
    {
        self.set_flag(CpuFlags(Self::Z_FLAG), value);
    }

    /// Reads the Z flag (Zero).
    pub fn z(&self) -> (r: bool)
        ensures
            r == flag_set(self.cpsr.0, 0x4000_0000),
    {
        self.flag(CpuFlags(Self::Z_FLAG))
    }

    /// Sets the C flag (Carry).
    pub fn set_c(&mut self, value: bool)
        ensures
            *final(self) == (Cpu {
                cpsr: CpuFlags(with_flag(old(self).cpsr.0, 0x2000_0000, value)),
                ..*old(self)
            }),
    {
        self.set_flag(CpuFlags(Self::C_FLAG), value);
    }

    /// Reads the C flag (Carry).
    pub fn c(&self) -> (r: bool)
        ensures
            r == flag_set(self.cpsr.0, 0x2000_0000),
    {
        self.flag(CpuFlags(Self::C_FLAG))
    }

    /// Sets the V flag (Overflow).
    pub fn set_v(&mut self, value: bool)
        ensures
            *final(self) == (Cpu {
                cpsr: CpuFlags(with_flag(old(self).cpsr.0, 0x1000_0000, value)),
                ..*old(self)
            }),
    {
        self.set_flag(CpuFlags(Self::V_FLAG), value);
    }

    /// Reads the V flag (Overflow).
    pub fn v(&self) -> (r: bool)
        ensures
            r == flag_set(self.cpsr.0, 0x1000_0000),
    {
        self.flag(CpuFlags(Self::V_FLAG))
    }
}

/// Condition tests for the cpu.
impl Cpu {
    /// Equal.
    pub fn eq(&self) -> (r: bool)
        ensures
            r == condition_holds(Condition::EQ, self.cpsr.0),
    {
        self.z()
    }

    /// Not equal.
    pub fn ne(&self) -> (r: bool)
        ensures
            r == condition_holds(Condition::NE, self.cpsr.0),
    {
        !self.z()
    }

    /// Unsigned higher or same (or carry set).
    pub fn hs(&self) -> (r: bool)
        ensures
            r == condition_holds(Condition::HS, self.cpsr.0),
    {
        self.cs()
    }

    /// Carry set.
    pub fn cs(&self) -> (r: bool)
        ensures
            r == condition_holds(Condition::HS, self.cpsr.0),
    {
        self.c()
    }

    /// Unsigned lower (or carry clear).
    pub fn lo(&self) -> (r: bool)
        ensures
            r == condition_holds(Condition::LO, self.cpsr.0),
    {
        !self.c()
    }

    /// Carry clear.
    pub fn cc(&self) -> (r: bool)
        ensures
            r == condition_holds(Condition::LO, self.cpsr.0),
    {
        self.lo()
    }

    /// Negative. The mnemonic stands for "minus".
    pub fn mi(&self) -> (r: bool)
        ensures
            r == condition_holds(Condition::MI, self.cpsr.0),
    {
        self.n()
    }

    /// Positive or zero. The mnemonic stands for "plus".
    pub fn pl(&self) -> (r: bool)
        ensures
            r == condition_holds(Condition::PL, self.cpsr.0),
    {
        !self.n()
    }

    /// Signed overflow. The mnemonic stands for "V set".
    pub fn vs(&self) -> (r: bool)
        ensures
            r == condition_holds(Condition::VS, self.cpsr.0),
    {
        self.v()
    }

    /// No signed overflow. The mnemonic stands for "V clear".
    pub fn vc(&self) -> (r: bool)
        ensures
            r == condition_holds(Condition::VC, self.cpsr.0),
    {
        !self.v()
    }

    /// Unsigned higher.
    pub fn hi(&self) -> (r: bool)
        ensures
            r == condition_holds(Condition::HI, self.cpsr.0),
    {
        self.c() && !self.z()
    }

    /// Unsigned lower or same.
    pub fn ls(&self) -> (r: bool)
        ensures
            r == condition_holds(Condition::LS, self.cpsr.0),
    {
        !self.c() || self.z()
    }

    /// Signed greater than or equal.
    pub fn ge(&self) -> (r: bool)
        ensures
            r == condition_holds(Condition::GE, self.cpsr.0),
    {
        self.n() == self.v()
    }

    /// Signed less than.
    pub fn lt(&self) -> (r: bool)
        ensures
            r == condition_holds(Condition::LT, self.cpsr.0),
    {
        self.n() != self.v()
    }

    /// Signed greater than.
    pub fn gt(&self) -> (r: bool)
        ensures
            r == condition_holds(Condition::GT, self.cpsr.0),
    {
        !self.z() && self.ge()
    }

    /// Signed less than or equal.
    pub fn le(&self) -> (r: bool)
        ensures
            r == condition_holds(Condition::LE, self.cpsr.0),
    {
        self.z() || self.lt()
    }

    /// Always executed.
    pub fn al(&self) -> (r: bool)
        ensures
            r == condition_holds(Condition::AL, self.cpsr.0),
    {
        true
    }

    /// Never executed.
    pub fn nv(&self) -> (r: bool)
        ensures
            r == condition_holds(Condition::NV, self.cpsr.0),
    {
        false
    }

    /// Whether `instr` executes under the current flags.
    pub(crate) fn should_execute(&self, instr: Instruction) -> (r: bool)
        ensures
            r == condition_holds(instr.cond(), self.cpsr.0),
    {
        match instr.cond() {
            Condition::AL => self.al(),
            Condition::EQ => self.eq(),
            Condition::NE => self.ne(),
            Condition::HS => self.hs(),
            Condition::LO => self.lo(),
            Condition::VS => self.vs(),
            Condition::VC => self.vc(),
            Condition::HI => self.hi(),
            Condition::LS => self.ls(),
            Condition::GE => self.ge(),
            Condition::LT => self.lt(),
            Condition::GT => self.gt(),
            Condition::LE => self.le(),
            Condition::MI => self.mi(),
            Condition::PL => self.pl(),
            Condition::NV => self.nv(),
        }
    }

    pub fn pc(&self) -> (r: u32)
        ensures
            r == self.registers[15],
    {
        self.register(registers::PC)
    }

    pub fn lr(&self) -> (r: u32)
        ensures
            r == self.registers[14],
    {
        self.register(registers::LR)
    }

    pub fn sp(&self) -> (r: u32)
        ensures
            r == self.registers[13],
    {
        self.register(registers::SP)
    }

    /// The value of a register; there are 16.
    pub fn register(&self, register: u8) -> (r: u32)
        requires
            register < 16,
        ensures
            r == self.registers[register as int],
    {
        self.registers[register as usize]
    }

    pub fn set_pc(&mut self, value: u32)
        ensures
            final(self).registers@ == old(self).registers@.update(15, value),
            *final(self) == (Cpu { registers: final(self).registers, ..*old(self) }),
    {
        self.set_register(registers::PC, value);
    }

    pub fn set_lr(&mut self, value: u32)
        ensures
            final(self).registers@ == old(self).registers@.update(14, value),
            *final(self) == (Cpu { registers: final(self).registers, ..*old(self) }),
    {
        self.set_register(registers::LR, value);
    }

    pub fn set_sp(&mut self, value: u32)
        ensures
            final(self).registers@ == old(self).registers@.update(13, value),
            *final(self) == (Cpu { registers: final(self).registers, ..*old(self) }),
    {
        self.set_register(registers::SP, value);
    }

    /// Sets a register; there are 16.
    pub fn set_register(&mut self, register: u8, value: u32)
        requires
            register < 16,
        ensures
            final(self).registers@ == old(self).registers@.update(register as int, value),
            *final(self) == (Cpu { registers: final(self).registers, ..*old(self) }),
    {
        self.registers[register as usize] = value;
    }
}

} // verus!
