//! An educational ARM emulator: CPU state, a memory bus with mapped
//! peripherals, instruction decoding and execution, and breakpoints.

pub mod cpu;
pub mod emulator;
pub mod execution;
pub mod instructions;
pub mod memory;
pub mod peripherals;
pub mod prelude;
pub mod system;
pub mod testing;

pub use emulator::{Breakpoint, BreakpointMappings, Emulator};
