//! GPIO (General Purpose Input/Output) peripheral.
//!
//! A simulated GPIO port like those of STM32 microcontrollers:
//! - MODER (offset 0x00): port mode configuration (input/output/alternate
//!   function), two bits per pin
//! - ODR (offset 0x14): output data register, one bit per pin
//! - BSRR (offset 0x18, write only): sets the ODR bits of its low half and
//!   clears those of its high half
//!
//! The registers are atomics, so that a UI thread can read them while the
//! emulator runs. Pin PA5 drives the LED of the demo.

use crate::memory::{
    u32_from_native_bytes, u32_to_native_bytes, MemoryAccessError, MemoryAccessResult, Peripheral,
    Word,
};
use std::sync::atomic::{AtomicU32, Ordering};
use vstd::prelude::*;

verus! {

/// Offset of the MODER register.
pub const MODER_OFFSET: u32 = 0x00;

/// Offset of the ODR register.
pub const ODR_OFFSET: u32 = 0x14;

/// Offset of the BSRR register.
pub const BSRR_OFFSET: u32 = 0x18;

/// Whether the LED on PA5 is lit: PA5 is configured as a general purpose
/// output (MODER bits 11:10 are 0b01) and its ODR bit is set.
pub open spec fn led_lit(moder: u32, odr: u32) -> bool {
    (moder >> 10u32) & 0b11 == 0b01 && odr & (1u32 << 5u32) != 0
}

/// The ODR after writing `value` to BSRR: the bits of its low half are set,
/// then those of its high half cleared.
pub open spec fn odr_after_bsrr(odr: u32, value: u32) -> u32 {
    (odr | (value & 0xFFFF)) & !((value >> 16u32) & 0xFFFF)
}

/// Whether a register can be read at `offset`.
pub open spec fn readable(offset: u32) -> bool {
    offset == 0x00 || offset == 0x14
}

/// Whether a register can be written at `offset`.
pub open spec fn writable(offset: u32) -> bool {
    offset == 0x00 || offset == 0x14 || offset == 0x18
}

/// Whether the LED on PA5 is lit, given the register values.
pub fn led_on(moder: u32, odr: u32) -> (r: bool)
    ensures
        r == led_lit(moder, odr),
{
    let is_output = (moder >> 10u32) & 0b11 == 0b01;
    let is_high = (odr & (1u32 << 5u32)) != 0;
    is_output && is_high
}

/// The ODR after a write of `value` to BSRR.
pub fn bsrr(odr: u32, value: u32) -> (r: u32)
    ensures
        r == odr_after_bsrr(odr, value),
{
    let set_bits = value & 0xFFFF;
    let reset_bits = (value >> 16u32) & 0xFFFF;
    (odr | set_bits) & !reset_bits
}

/// The internal state of the gpio port
struct GpioState {
    moder: AtomicU32,
    odr: AtomicU32,
}

impl GpioState {
    pub fn new(moder: u32, odr: u32) -> Self {
        Self { moder: AtomicU32::new(moder), odr: AtomicU32::new(odr) }
    }

    pub fn zero() -> Self {
        Self::new(0, 0)
    }
}

/// The public-facing struct representing a gpio port
pub struct GpioPort {
    state: GpioState,
}

impl GpioPort {
    /// A port with every register zero.
    pub fn new() -> Self {
        Self { state: GpioState::zero() }
    }

    /// Whether the LED on PA5 is lit, for a UI thread to read safely: [led_on]
    /// of the values the registers hold as they are read.
    pub fn is_led_on(&self) -> (r: bool) {
        let moder = self.state.moder.load(Ordering::Relaxed);
        let odr = self.state.odr.load(Ordering::Relaxed);
        led_on(moder, odr)
    }
}

impl Peripheral for GpioPort {
    /// MODER and ODR can be read; other offsets fail.
    open spec fn read32_answer(&self, offset: u32, r: MemoryAccessResult<u32>) -> bool {
        &&& readable(offset) <==> r is Ok
        &&& !readable(offset) ==> r == Err::<u32, MemoryAccessError>(
            MemoryAccessError::InvalidPeripheralRead { offset },
        )
    }

    /// MODER, ODR and BSRR can be written; other offsets fail.
    open spec fn write32_answer(&self, offset: u32, value: u32, r: MemoryAccessResult<()>) -> bool {
        &&& writable(offset) <==> r is Ok
        &&& !writable(offset) ==> r == Err::<(), MemoryAccessError>(
            MemoryAccessError::InvalidPeripheralWrite { offset },
        )
    }

    /// A byte of MODER or ODR can be read; other offsets fail with the
    /// offset of the word that holds them.
    open spec fn read_byte_answer(&self, offset: u32, r: MemoryAccessResult<u8>) -> bool {
        &&& readable((offset - offset % 4) as u32) <==> r is Ok
        &&& !readable((offset - offset % 4) as u32) ==> r == Err::<u8, MemoryAccessError>(
            MemoryAccessError::InvalidPeripheralRead { offset: (offset - offset % 4) as u32 },
        )
    }

    /// A byte of MODER or ODR can be written, the word that holds it being
    /// read first; other offsets fail as that read does.
    open spec fn write_byte_answer(&self, offset: u32, value: u8, r: MemoryAccessResult<()>) -> bool {
        &&& readable((offset - offset % 4) as u32) ==> r is Ok
        &&& !readable((offset - offset % 4) as u32) ==> r == Err::<(), MemoryAccessError>(
            MemoryAccessError::InvalidPeripheralRead { offset: (offset - offset % 4) as u32 },
        )
    }

    /// Reads MODER or ODR; other offsets fail.
    fn read32(&self, offset: Word) -> (r: MemoryAccessResult<u32>)
        ensures
            readable(offset) <==> r is Ok,
            !readable(offset) ==> r == Err::<u32, MemoryAccessError>(
                MemoryAccessError::InvalidPeripheralRead { offset },
            ),
    {
        if offset == MODER_OFFSET {
            Ok(self.state.moder.load(Ordering::Relaxed))
        } else if offset == ODR_OFFSET {
            Ok(self.state.odr.load(Ordering::Relaxed))
        } else {
            Err(MemoryAccessError::InvalidPeripheralRead { offset })
        }
    }

    /// Writes MODER or ODR, or sets and clears ODR bits through BSRR;
    /// other offsets fail.
    fn write32(&self, offset: Word, value: u32) -> (r: MemoryAccessResult<()>)
        ensures
            writable(offset) <==> r is Ok,
            !writable(offset) ==> r == Err::<(), MemoryAccessError>(
                MemoryAccessError::InvalidPeripheralWrite { offset },
            ),
    {
        if offset == MODER_OFFSET {
            self.state.moder.store(value, Ordering::Relaxed);
        } else if offset == ODR_OFFSET {
            self.state.odr.store(value, Ordering::Relaxed);
        } else if offset == BSRR_OFFSET {
            let set_bits = value & 0xFFFF;
            let previous = self.state.odr.fetch_or(set_bits, Ordering::Relaxed);
            self.state.odr.store(bsrr(previous, value), Ordering::Relaxed);
        } else {
            return Err(MemoryAccessError::InvalidPeripheralWrite { offset });
        }
        Ok(())
    }

    /// Reads one byte of the register holding `offset`, in the byte order of
    /// the machine.
    fn read_byte(&self, offset: u32) -> (r: MemoryAccessResult<u8>)
        ensures
            readable((offset - offset % 4) as u32) <==> r is Ok,
            !readable((offset - offset % 4) as u32) ==> r == Err::<u8, MemoryAccessError>(
                MemoryAccessError::InvalidPeripheralRead { offset: (offset - offset % 4) as u32 },
            ),
    {
        let spare = offset % 4;
        let offset = offset - spare;
        let value = match self.read32(offset) {
            Ok(value) => value,
            Err(e) => {
                return Err(e);
            },
        };
        let bytes = u32_to_native_bytes(value);
        Ok(bytes[spare as usize])
    }

    /// Writes one byte of the register holding `offset`, in the byte order
    /// of the machine, keeping its other bytes.
    fn write_byte(&self, offset: u32, value: u8) -> (r: MemoryAccessResult<()>)
        ensures
            !readable((offset - offset % 4) as u32) ==> r == Err::<(), MemoryAccessError>(
                MemoryAccessError::InvalidPeripheralRead { offset: (offset - offset % 4) as u32 },
            ),
            readable((offset - offset % 4) as u32) ==> r is Ok,
    {
        let spare = offset % 4;
        let offset = offset - spare;
        let v = match self.read32(offset) {
            Ok(v) => v,
            Err(e) => {
                return Err(e);
            },
        };
        let mut bytes = u32_to_native_bytes(v);
        bytes[spare as usize] = value;
        let v = u32_from_native_bytes(bytes);
        self.write32(offset, v)
    }

    /// Clears MODER and ODR, as a new port has them.
    fn reset(&self) {
        self.state.moder.store(0, Ordering::Relaxed);
        self.state.odr.store(0, Ordering::Relaxed);
    }
}

} // verus!
