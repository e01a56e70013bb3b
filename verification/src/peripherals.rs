//! Memory-mapped peripherals.

pub mod gpio;
