//! Helpers for tests: instruction words in the byte order of the machine.

use crate::memory::native::native_endian;
use crate::memory::word_to_bytes;
use vstd::prelude::*;

pub use crate::memory::{big_endian_to_native, little_endian_to_native};

verus! {

/// The bytes of `value` in the byte order of the machine.
pub fn to_bytes(value: u32) -> (r: [u8; 4])
    ensures
        r@ == word_to_bytes(value, native_endian()),
{
    crate::memory::u32_to_native_bytes(value)
}

} // verus!
