//! Services of the host system.

pub mod rng;
