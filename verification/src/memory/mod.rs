//! Memory for the emulator: the byte order of words, the memory bus that
//! routes reads and writes to RAM regions or to mapped peripherals, and
//! conversions between words and native bytes.

pub mod bus;
pub mod native;
pub mod unmanaged_chunk;

pub use bus::{Bus, MemModel, Region};
pub use unmanaged_chunk::{UnmanagedReadOnlyChunk, UnmanagedReadWriteChunk};
pub use native::{
    big_endian_to_native, little_endian_to_native, u32_from_native_bytes, u32_to_native_bytes,
};

use std::ops::RangeInclusive;
use std::sync::Arc;
use vstd::prelude::*;

verus! {

/// 1 KiB
pub const KIBIBYTE: Word = 1024;

/// 1 MiB
pub const MEBIBYTE: Word = 1024 * 1024;

/// 1 GiB
pub const GIBIBYTE: Word = 1024 * 1024 * 1024;

/// Give 1MiB memory by default.
/// This is for if no specific amount is given.
pub const DEFAULT_MEMORY_SIZE: Word = 1 * MEBIBYTE;

pub type Bytes = [u8];

/// System word type. On a 32-bit system, 32 bits
pub type Word = u32;

pub type Ram = Vec<u8>;

/// Why a memory access failed.
#[derive(Debug, Clone, Copy, PartialEq, Eq, Structural)]
pub enum MemoryAccessError {
    InvalidReadPermission { addr: Word },
    InvalidWritePermission { addr: Word },
    UnalignedAccess,
    InvalidOffset { offset: Word },
    InvalidPeripheralRead { offset: Word },
    InvalidPeripheralWrite { offset: Word },
}

pub type MemoryAccessResult<T> = Result<T, MemoryAccessError>;

/// The order in which the bytes of a word are laid out in memory.
#[derive(Debug, Clone, Copy, PartialEq, Eq, Structural)]
pub enum Endian {
    Little,
    Big,
}

/// Byte `k` (0 is the least significant) of a word.
pub open spec fn byte_of(v: u32, k: u32) -> u8 {
    ((v >> (8 * k)) & 0xFF) as u8
}

/// The word whose bytes, least significant first, are `b0` to `b3`.
pub open spec fn word_of(b0: u8, b1: u8, b2: u8, b3: u8) -> u32 {
    (b0 as u32) | ((b1 as u32) << 8u32) | ((b2 as u32) << 16u32) | ((b3 as u32) << 24u32)
}

/// The four bytes of `v` as they are laid out in memory.
pub open spec fn word_to_bytes(v: u32, endian: Endian) -> Seq<u8> {
    match endian {
        Endian::Little => seq![byte_of(v, 0), byte_of(v, 1), byte_of(v, 2), byte_of(v, 3)],
        Endian::Big => seq![byte_of(v, 3), byte_of(v, 2), byte_of(v, 1), byte_of(v, 0)],
    }
}

/// The word laid out in memory at `bytes[offset..offset + 4]`.
pub open spec fn word_from_bytes(bytes: Seq<u8>, offset: int, endian: Endian) -> u32 {
    match endian {
        Endian::Little => word_of(
            bytes[offset],
            bytes[offset + 1],
            bytes[offset + 2],
            bytes[offset + 3],
        ),
        Endian::Big => word_of(
            bytes[offset + 3],
            bytes[offset + 2],
            bytes[offset + 1],
            bytes[offset],
        ),
    }
}

/// `bytes` with the word `v` laid out at `bytes[offset..offset + 4]`.
pub open spec fn store_word(bytes: Seq<u8>, offset: int, v: u32, endian: Endian) -> Seq<u8> {
    let w = word_to_bytes(v, endian);
    bytes.update(offset, w[0]).update(offset + 1, w[1]).update(offset + 2, w[2]).update(
        offset + 3,
        w[3],
    )
}

/// The bytes of a word read back in either order give the word.
pub proof fn lemma_word_bytes_roundtrip(v: u32)
    ensures
        word_of(byte_of(v, 0), byte_of(v, 1), byte_of(v, 2), byte_of(v, 3)) == v,
{
    assert(word_of(byte_of(v, 0), byte_of(v, 1), byte_of(v, 2), byte_of(v, 3)) == v)
        by (bit_vector);
}

/// Reading back a word that was just stored gives the stored word.
pub proof fn lemma_store_then_load(bytes: Seq<u8>, offset: int, v: u32, endian: Endian)
    requires
        0 <= offset,
        offset + 4 <= bytes.len(),
    ensures
        word_from_bytes(store_word(bytes, offset, v, endian), offset, endian) == v,
        store_word(bytes, offset, v, endian).len() == bytes.len(),
        forall|i: int|
            0 <= i < bytes.len() && !(offset <= i < offset + 4) ==> #[trigger] store_word(
                bytes,
                offset,
                v,
                endian,
            )[i] == bytes[i],
{
    lemma_word_bytes_roundtrip(v);
}

/// A word stored in one byte order and read in the other has its bytes
/// reversed.
pub proof fn lemma_store_then_load_swapped(bytes: Seq<u8>, offset: int, v: u32)
    requires
        0 <= offset,
        offset + 4 <= bytes.len(),
    ensures
        word_from_bytes(store_word(bytes, offset, v, Endian::Little), offset, Endian::Big)
            == word_of(byte_of(v, 3), byte_of(v, 2), byte_of(v, 1), byte_of(v, 0)),
        word_from_bytes(store_word(bytes, offset, v, Endian::Big), offset, Endian::Little)
            == word_of(byte_of(v, 3), byte_of(v, 2), byte_of(v, 1), byte_of(v, 0)),
{
}

/// The byte `k` of a word, computed.
pub(crate) fn get_byte(v: u32, k: u32) -> (r: u8)
    requires
        k < 4,
    ensures
        r == byte_of(v, k),
{
    ((v >> (8 * k)) & 0xFF) as u8
}

/// The word made of four bytes, least significant first.
pub(crate) fn make_word(b0: u8, b1: u8, b2: u8, b3: u8) -> (r: u32)
    ensures
        r == word_of(b0, b1, b2, b3),
{
    (b0 as u32) | ((b1 as u32) << 8u32) | ((b2 as u32) << 16u32) | ((b3 as u32) << 24u32)
}

/// Reads the word at `bytes[offset..offset + 4]` in the given byte order.
pub(crate) fn load_word(bytes: &Bytes, offset: usize, endian: Endian) -> (r: u32)
    requires
        offset + 4 <= bytes@.len(),
    ensures
        r == word_from_bytes(bytes@, offset as int, endian),
{
    let n = bytes.len();
    match endian {
        Endian::Little => make_word(
            bytes[offset],
            bytes[offset + 1],
            bytes[offset + 2],
            bytes[offset + 3],
        ),
        Endian::Big => make_word(
            bytes[offset + 3],
            bytes[offset + 2],
            bytes[offset + 1],
            bytes[offset],
        ),
    }
}

/// Writes the word `v` at `bytes[offset..offset + 4]` in the given byte order.
pub(crate) fn put_word(bytes: &mut Bytes, offset: usize, v: u32, endian: Endian)
    requires
        offset + 4 <= old(bytes)@.len(),
    ensures
        final(bytes)@ == store_word(old(bytes)@, offset as int, v, endian),
{
    match endian {
        Endian::Little => {
            bytes[offset] = get_byte(v, 0);
            bytes[offset + 1] = get_byte(v, 1);
            bytes[offset + 2] = get_byte(v, 2);
            bytes[offset + 3] = get_byte(v, 3);
        },
        Endian::Big => {
            bytes[offset] = get_byte(v, 3);
            bytes[offset + 1] = get_byte(v, 2);
            bytes[offset + 2] = get_byte(v, 1);
            bytes[offset + 3] = get_byte(v, 0);
        },
    }
}

/// System word size (for ARM, 32 bits/4 bytes) amount of bytes
#[derive(Debug, Clone, Copy, PartialEq, Eq, PartialOrd, Ord)]
pub struct WordBytes {
    data: [u8; 4],
}

impl WordBytes {
    /// The four bytes, in memory order.
    pub closed spec fn bytes(&self) -> Seq<u8> {
        self.data@
    }

    /// Four zero bytes.
    pub fn new() -> (r: Self)
        ensures
            r.bytes() == seq![0u8, 0u8, 0u8, 0u8],
    {
        WordBytes { data: [0u8; 4] }
    }

    fn read32_with_reader<Reader: BasicRead>(self) -> (r: MemoryAccessResult<u32>)
        ensures
            r == Ok::<u32, MemoryAccessError>(word_from_bytes(self.bytes(), 0, Reader::endian())),
    {
        Reader::read32(&self.data, 0)
    }

    /// The four bytes read as a big-endian word.
    pub fn read32_be(self) -> (r: MemoryAccessResult<u32>)
        ensures
            r == Ok::<u32, MemoryAccessError>(word_from_bytes(self.bytes(), 0, Endian::Big)),
    {
        self.read32_with_reader::<BigEndian>()
    }

    /// The four bytes read as a little-endian word.
    pub fn read32_le(self) -> (r: MemoryAccessResult<u32>)
        ensures
            r == Ok::<u32, MemoryAccessError>(word_from_bytes(self.bytes(), 0, Endian::Little)),
    {
        self.read32_with_reader::<LittleEndian>()
    }

    fn write32_with_writer<Writer: BasicWrite>(&mut self, value: u32) -> (r: MemoryAccessResult<
        ()>)
        ensures
            r == Ok::<(), MemoryAccessError>(()),
            final(self).bytes() == store_word(old(self).bytes(), 0, value, Writer::endian()),
    {
        Writer::write32(&mut self.data, 0, value)
    }

    /// Stores `value` as a big-endian word.
    pub fn write32_be(&mut self, value: u32) -> (r: MemoryAccessResult<()>)
        ensures
            r == Ok::<(), MemoryAccessError>(()),
            final(self).bytes() == word_to_bytes(value, Endian::Big),
    {
        let r = self.write32_with_writer::<BigEndian>(value);
        assert(self.bytes() =~= word_to_bytes(value, Endian::Big));
        r
    }

    /// Stores `value` as a little-endian word.
    pub fn write32_le(&mut self, value: u32) -> (r: MemoryAccessResult<()>)
        ensures
            r == Ok::<(), MemoryAccessError>(()),
            final(self).bytes() == word_to_bytes(value, Endian::Little),
    {
        let r = self.write32_with_writer::<LittleEndian>(value);
        assert(self.bytes() =~= word_to_bytes(value, Endian::Little));
        r
    }
}

impl Default for WordBytes {
    fn default() -> (r: Self)
        ensures
            r.bytes() == seq![0u8, 0u8, 0u8, 0u8],
    {
        WordBytes::new()
    }
}

/// Reading and writing words in little-endian byte order.
/// See [BigEndian] for the big-endian version.
pub struct LittleEndian;

/// Reading and writing words in big-endian byte order.
/// See [LittleEndian] for the little-endian version.
pub struct BigEndian;

/// Reading words from bytes in a specific byte order.
pub trait BasicRead {
    /// The byte order this reader uses.
    spec fn endian() -> Endian;

    /// Read a 32 bit word from the given bytes.
    fn read32(bytes: &Bytes, offset: Word) -> (r: MemoryAccessResult<u32>)
        requires
            offset + 4 <= bytes@.len(),
        ensures
            r == Ok::<u32, MemoryAccessError>(word_from_bytes(
                bytes@,
                offset as int,
                Self::endian(),
            )),
    ;

    /// Read the byte at `offset` (below 4) of the word at the start of
    /// `bytes`. A single byte has no byte order: it is the byte at `offset`.
    fn read_byte(bytes: &Bytes, offset: Word) -> (r: MemoryAccessResult<u8>)
        requires
            offset < 4,
            offset < bytes@.len(),
        ensures
            r == Ok::<u8, MemoryAccessError>(bytes@[offset as int]),
    ;

}

/// Writing words to bytes in a specific byte order.
pub trait BasicWrite {
    /// The byte order this writer uses.
    spec fn endian() -> Endian;

    /// Write a 4 byte word to the given bytes.
    fn write32(bytes: &mut Bytes, offset: Word, value: u32) -> (r: MemoryAccessResult<()>)
        requires
            offset + 4 <= old(bytes)@.len(),
        ensures
            r == Ok::<(), MemoryAccessError>(()),
            final(bytes)@ == store_word(old(bytes)@, offset as int, value, Self::endian()),
    ;

    /// Write the byte at `offset` (below 4) of the word at the start of
    /// `bytes`. A single byte has no byte order: it is the byte at `offset`.
    fn write_byte(bytes: &mut Bytes, offset: Word, value: u8) -> (r: MemoryAccessResult<()>)
        requires
            offset < 4,
            offset < old(bytes)@.len(),
        ensures
            r == Ok::<(), MemoryAccessError>(()),
            final(bytes)@ == old(bytes)@.update(offset as int, value),
    ;

}

impl BasicRead for LittleEndian {
    open spec fn endian() -> Endian {
        Endian::Little
    }

    fn read32(bytes: &Bytes, offset: Word) -> (r: MemoryAccessResult<u32>) {
        Ok(load_word(bytes, offset as usize, Endian::Little))
    }

    fn read_byte(bytes: &Bytes, offset: Word) -> (r: MemoryAccessResult<u8>) {
        Ok(bytes[offset as usize])
    }
}

impl BasicWrite for LittleEndian {
    open spec fn endian() -> Endian {
        Endian::Little
    }

    fn write32(bytes: &mut Bytes, offset: Word, value: u32) -> (r: MemoryAccessResult<()>) {
        put_word(bytes, offset as usize, value, Endian::Little);
        Ok(())
    }

    fn write_byte(bytes: &mut Bytes, offset: Word, value: u8) -> (r: MemoryAccessResult<()>) {
        bytes[offset as usize] = value;
        Ok(())
    }
}

impl BasicRead for BigEndian {
    open spec fn endian() -> Endian {
        Endian::Big
    }

    fn read32(bytes: &Bytes, offset: Word) -> (r: MemoryAccessResult<u32>) {
        Ok(load_word(bytes, offset as usize, Endian::Big))
    }

    fn read_byte(bytes: &Bytes, offset: Word) -> (r: MemoryAccessResult<u8>) {
        Ok(bytes[offset as usize])
    }
}

impl BasicWrite for BigEndian {
    open spec fn endian() -> Endian {
        Endian::Big
    }

    fn write32(bytes: &mut Bytes, offset: Word, value: u32) -> (r: MemoryAccessResult<()>) {
        put_word(bytes, offset as usize, value, Endian::Big);
        Ok(())
    }

    fn write_byte(bytes: &mut Bytes, offset: Word, value: u8) -> (r: MemoryAccessResult<()>) {
        bytes[offset as usize] = value;
        Ok(())
    }
}

/// A memory-mapped peripheral.
///
/// Each peripheral handles the reads and writes to its own address space
/// and simulates its own internal logic and side effects. What it answers
/// is up to the peripheral; the bus passes it on unchanged.
pub trait Peripheral: Send + Sync {
    /// Whether `r` is an answer this peripheral may give to a word read at
    /// `offset`. A peripheral that says nothing of its answers allows any.
    open spec fn read32_answer(&self, offset: u32, r: MemoryAccessResult<u32>) -> bool {
        true
    }

    /// Whether `r` is an answer this peripheral may give to a write of the
    /// word `value` at `offset`.
    open spec fn write32_answer(&self, offset: u32, value: u32, r: MemoryAccessResult<()>) -> bool {
        true
    }

    /// Whether `r` is an answer this peripheral may give to a byte read at
    /// `offset`.
    open spec fn read_byte_answer(&self, offset: u32, r: MemoryAccessResult<u8>) -> bool {
        true
    }

    /// Whether `r` is an answer this peripheral may give to a write of the
    /// byte `value` at `offset`.
    open spec fn write_byte_answer(&self, offset: u32, value: u8, r: MemoryAccessResult<()>) -> bool {
        true
    }

    /// Handles a read from the peripheral's memory-mapped region.
    /// `offset` is the address relative to the start of this peripheral's region.
    fn read32(&self, offset: u32) -> (r: MemoryAccessResult<u32>)
        ensures
            self.read32_answer(offset, r),
    ;

    /// Handles a write to the peripheral's memory-mapped region.
    /// `offset` is the address relative to the start of this peripheral's region.
    fn write32(&self, offset: u32, value: u32) -> (r: MemoryAccessResult<()>)
        ensures
            self.write32_answer(offset, value, r),
    ;

    /// Handles a byte read from the peripheral's memory-mapped region.
    fn read_byte(&self, offset: u32) -> (r: MemoryAccessResult<u8>)
        ensures
            self.read_byte_answer(offset, r),
    ;

    /// Handles a byte write to the peripheral's memory-mapped region.
    fn write_byte(&self, offset: u32, value: u8) -> (r: MemoryAccessResult<()>)
        ensures
            self.write_byte_answer(offset, value, r),
    ;

    /// Returns the peripheral to its initial state.
    fn reset(&self);
}

/// A peripheral together with the address range it answers to.
///
/// The peripheral is shared behind an `Arc`; on the bus it is held as a
/// `dyn Peripheral`.
pub struct MemoryMappedPeripheral<P: ?Sized = dyn Peripheral> {
    pub range: RangeInclusive<u32>,
    pub peripheral: Arc<P>,
}

impl<P: ?Sized> MemoryMappedPeripheral<P> {
    pub fn new(range: RangeInclusive<u32>, peripheral: Arc<P>) -> (r: Self)
        ensures
            r.range == range,
            r.peripheral == peripheral,
    {
        Self { range, peripheral }
    }
}

/// `RangeInclusive::start` of std: a reference to the lower bound of the
/// range. Claimed: it is the lower bound that the range's model holds, the
/// one that `contains` compares with.
pub assume_specification<Idx>[ RangeInclusive::<Idx>::start ](range: &RangeInclusive<Idx>) -> (
    start: &Idx)
    ensures
        *start == range@.start,
;

} // verus!
