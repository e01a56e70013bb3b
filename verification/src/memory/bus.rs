//! The memory bus: four regions of the address space, three of them RAM and
//! one routed to mapped peripherals.

use super::{
    byte_of, word_of, store_word, word_from_bytes, BasicRead, BasicWrite, BigEndian, Bytes, Endian,
    LittleEndian, MemoryAccessError, MemoryAccessResult, MemoryMappedPeripheral, Word,
    DEFAULT_MEMORY_SIZE,
};
use std::ops::RangeInclusive;
use vstd::prelude::*;

verus! {

/// The part of the address space an address falls in.
#[derive(Debug, Clone, Copy, PartialEq, Eq, Structural)]
pub enum Region {
    Code,
    Sram,
    Peripheral,
    External,
}

/// What a [Bus] holds: the bytes of its three RAM regions and its mapped
/// peripherals, in the order they were added.
#[verifier::ext_equal]
pub struct MemModel {
    pub code: Seq<u8>,
    pub sram: Seq<u8>,
    pub external: Seq<u8>,
    pub peripherals: Seq<MemoryMappedPeripheral>,
}

/// Connects the CPU to RAM and peripherals.
/// Routes reads and writes to the appropriate location.
pub struct Bus {
    /// Main system RAM, represented as a simple byte vector.
    /// 0x00000000 - 0x1FFFFFFF
    code: Vec<u8>,
    /// .data, .bss, heap, stack.
    /// 0x20000000 - 0x3FFFFFFF
    sram: Vec<u8>,
    /// A list of peripherals and the address ranges they occupy.
    /// 0x40000000 - 0x5FFFFFFF
    peripherals: Vec<MemoryMappedPeripheral>,
    /// External memory and devices
    /// 0x60000000 -
    external: Vec<u8>,
}

impl View for Bus {
    type V = MemModel;

    closed spec fn view(&self) -> MemModel {
        MemModel {
            code: self.code@,
            sram: self.sram@,
            external: self.external@,
            peripherals: self.peripherals@,
        }
    }
}

impl Bus {
    pub const CODE_BEGIN: u32 = 0x00000000;

    pub const CODE_END: u32 = 0x1FFFFFFF;

    pub const CODE_SIZE: u32 = 0x20000000;

    pub const SRAM_BEGIN: u32 = 0x20000000;

    pub const SRAM_END: u32 = 0x3FFFFFFF;

    pub const SRAM_SIZE: u32 = 0x20000000;

    pub const PERIPHERAL_BEGIN: u32 = 0x40000000;

    pub const PERIPHERAL_END: u32 = 0x5FFFFFFF;

    pub const PERIPHERAL_SIZE: u32 = 0x20000000;

    pub const EXTERNAL_BEGIN: u32 = 0x60000000;

    pub const EXTERNAL_END: u32 = 0xFFFFFFFF;

    pub const EXTERNAL_SIZE: u32 = 0xA0000000;
}

/// The region of the address space that `addr` falls in.
pub open spec fn region_of(addr: u32) -> Region {
    if addr <= 0x1FFFFFFF {
        Region::Code
    } else if addr <= 0x3FFFFFFF {
        Region::Sram
    } else if addr <= 0x5FFFFFFF {
        Region::Peripheral
    } else {
        Region::External
    }
}

/// The first address of a region.
pub open spec fn region_begin(region: Region) -> u32 {
    match region {
        Region::Code => 0x00000000,
        Region::Sram => 0x20000000,
        Region::Peripheral => 0x40000000,
        Region::External => 0x60000000,
    }
}

/// The bytes of a RAM region (none for the peripheral region).
pub open spec fn region_pool(m: MemModel, region: Region) -> Seq<u8> {
    match region {
        Region::Code => m.code,
        Region::Sram => m.sram,
        Region::External => m.external,
        Region::Peripheral => Seq::empty(),
    }
}

/// `m` with the bytes of a RAM region replaced.
pub open spec fn with_region_pool(m: MemModel, region: Region, pool: Seq<u8>) -> MemModel {
    match region {
        Region::Code => MemModel { code: pool, ..m },
        Region::Sram => MemModel { sram: pool, ..m },
        Region::External => MemModel { external: pool, ..m },
        Region::Peripheral => m,
    }
}

/// Whether an inclusive range holds `addr`.
pub open spec fn range_holds(range: RangeInclusive<u32>, addr: u32) -> bool {
    range@.start <= addr && if range@.exhausted {
        addr < range@.end
    } else {
        addr <= range@.end
    }
}

/// The first peripheral, at position `i` or later, whose range holds `addr`.
pub open spec fn find_peripheral_from(
    ps: Seq<MemoryMappedPeripheral>,
    addr: u32,
    i: int,
) -> Option<int>
    decreases ps.len() - i,
{
    if i < 0 || i >= ps.len() {
        None
    } else if range_holds(ps[i].range, addr) {
        Some(i)
    } else {
        find_peripheral_from(ps, addr, i + 1)
    }
}

/// The first peripheral whose range holds `addr`: the one a read or write
/// at `addr` goes to.
pub open spec fn mapped_peripheral(ps: Seq<MemoryMappedPeripheral>, addr: u32) -> Option<int> {
    find_peripheral_from(ps, addr, 0)
}

/// A word read from a RAM region at `offset` into it; `addr` is the address
/// reported on an error.
pub open spec fn ram_read32(pool: Seq<u8>, offset: u32, addr: u32, endian: Endian) -> MemoryAccessResult<u32> {
    if offset % 4 != 0 {
        Err(MemoryAccessError::UnalignedAccess)
    } else if offset + 4 <= pool.len() {
        Ok(word_from_bytes(pool, offset as int, endian))
    } else {
        Err(MemoryAccessError::InvalidReadPermission { addr })
    }
}

/// A word written to a RAM region: the new bytes and the outcome.
pub open spec fn ram_write32(
    pool: Seq<u8>,
    offset: u32,
    addr: u32,
    value: u32,
    endian: Endian,
) -> (Seq<u8>, MemoryAccessResult<()>) {
    if offset % 4 != 0 {
        (pool, Err(MemoryAccessError::UnalignedAccess))
    } else if offset + 4 <= pool.len() {
        (store_word(pool, offset as int, value, endian), Ok(()))
    } else {
        (pool, Err(MemoryAccessError::InvalidWritePermission { addr }))
    }
}

/// A byte read from a RAM region at `offset` into it; `addr` is the address
/// reported on an error. A single byte has no byte order.
pub open spec fn ram_read_byte(pool: Seq<u8>, offset: u32, addr: u32) -> MemoryAccessResult<u8> {
    if offset < pool.len() {
        Ok(pool[offset as int])
    } else {
        Err(MemoryAccessError::InvalidReadPermission { addr })
    }
}

/// A byte written to a RAM region at `offset` into it: the new bytes and
/// the outcome; `addr` is the address reported on an error.
pub open spec fn ram_write_byte(pool: Seq<u8>, offset: u32, addr: u32, value: u8) -> (
    Seq<u8>,
    MemoryAccessResult<()>,
) {
    if offset < pool.len() {
        (pool.update(offset as int, value), Ok(()))
    } else {
        (pool, Err(MemoryAccessError::InvalidWritePermission { addr }))
    }
}

/// The offset into its range that `addr` has for the `k`-th peripheral.
pub open spec fn peripheral_offset(m: MemModel, k: int, addr: u32) -> u32 {
    (addr - m.peripherals[k].range@.start) as u32
}

/// Where `addr` falls in a mapped peripheral, `r` is what that peripheral
/// may answer to a word read at the offset of `addr` into its range.
pub open spec fn peripheral_answered_read(m: MemModel, addr: u32, r: MemoryAccessResult<u32>) -> bool {
    region_of(addr) == Region::Peripheral ==> match mapped_peripheral(m.peripherals, addr) {
        Some(k) => m.peripherals[k].peripheral.read32_answer(peripheral_offset(m, k, addr), r),
        None => true,
    }
}

/// Where `addr` falls in a mapped peripheral, `r` is what that peripheral
/// may answer to a write of `value` at the offset of `addr` into its range.
pub open spec fn peripheral_answered_write(
    m: MemModel,
    addr: u32,
    value: u32,
    r: MemoryAccessResult<()>,
) -> bool {
    region_of(addr) == Region::Peripheral ==> match mapped_peripheral(m.peripherals, addr) {
        Some(k) => m.peripherals[k].peripheral.write32_answer(peripheral_offset(m, k, addr), value, r),
        None => true,
    }
}

/// Where `addr` falls in a mapped peripheral, `r` is what that peripheral
/// may answer to a byte read at the offset of `addr` into its range.
pub open spec fn peripheral_answered_byte_read(m: MemModel, addr: u32, r: MemoryAccessResult<u8>) -> bool {
    region_of(addr) == Region::Peripheral ==> match mapped_peripheral(m.peripherals, addr) {
        Some(k) => m.peripherals[k].peripheral.read_byte_answer(peripheral_offset(m, k, addr), r),
        None => true,
    }
}

/// Where `addr` falls in a mapped peripheral, `r` is what that peripheral
/// may answer to a write of the byte `value` at the offset of `addr` into
/// its range.
pub open spec fn peripheral_answered_byte_write(
    m: MemModel,
    addr: u32,
    value: u8,
    r: MemoryAccessResult<()>,
) -> bool {
    region_of(addr) == Region::Peripheral ==> match mapped_peripheral(m.peripherals, addr) {
        Some(k) => m.peripherals[k].peripheral.write_byte_answer(peripheral_offset(m, k, addr), value, r),
        None => true,
    }
}

/// The outcome of reading a word at `addr`. Where `addr` falls in a mapped
/// peripheral, the outcome is that peripheral's answer, `reply`.
pub open spec fn read32_spec(
    m: MemModel,
    addr: u32,
    endian: Endian,
    reply: MemoryAccessResult<u32>,
) -> MemoryAccessResult<u32> {
    let region = region_of(addr);
    if region == Region::Peripheral {
        match mapped_peripheral(m.peripherals, addr) {
            Some(_) => reply,
            None => Err(MemoryAccessError::InvalidReadPermission { addr }),
        }
    } else {
        ram_read32(region_pool(m, region), (addr - region_begin(region)) as u32, addr, endian)
    }
}

/// The memory after, and the outcome of, writing the word `value` at `addr`.
/// Where `addr` falls in a mapped peripheral, the outcome is that
/// peripheral's answer, `reply`, and the RAM is unchanged.
pub open spec fn write32_spec(
    m: MemModel,
    addr: u32,
    value: u32,
    endian: Endian,
    reply: MemoryAccessResult<()>,
) -> (MemModel, MemoryAccessResult<()>) {
    let region = region_of(addr);
    if region == Region::Peripheral {
        match mapped_peripheral(m.peripherals, addr) {
            Some(_) => (m, reply),
            None => (m, Err(MemoryAccessError::InvalidWritePermission { addr })),
        }
    } else {
        let (pool, res) = ram_write32(
            region_pool(m, region),
            (addr - region_begin(region)) as u32,
            addr,
            value,
            endian,
        );
        (with_region_pool(m, region, pool), res)
    }
}

/// The outcome of reading a byte at `addr`: in RAM, the byte at the
/// offset of `addr` into its region, whatever the byte order.
pub open spec fn read_byte_spec(
    m: MemModel,
    addr: u32,
    reply: MemoryAccessResult<u8>,
) -> MemoryAccessResult<u8> {
    let region = region_of(addr);
    if region == Region::Peripheral {
        match mapped_peripheral(m.peripherals, addr) {
            Some(_) => reply,
            None => Err(MemoryAccessError::InvalidReadPermission { addr }),
        }
    } else {
        ram_read_byte(region_pool(m, region), (addr - region_begin(region)) as u32, addr)
    }
}

/// The memory after, and the outcome of, writing a byte at `addr`.
pub open spec fn write_byte_spec(
    m: MemModel,
    addr: u32,
    value: u8,
    reply: MemoryAccessResult<()>,
) -> (MemModel, MemoryAccessResult<()>) {
    let region = region_of(addr);
    if region == Region::Peripheral {
        match mapped_peripheral(m.peripherals, addr) {
            Some(_) => (m, reply),
            None => (m, Err(MemoryAccessError::InvalidWritePermission { addr })),
        }
    } else {
        let (pool, res) = ram_write_byte(
            region_pool(m, region),
            (addr - region_begin(region)) as u32,
            addr,
            value,
        );
        (with_region_pool(m, region, pool), res)
    }
}

/// The initial stack pointer: the first address past SRAM, wrapping around
/// the 32-bit address space.
pub open spec fn sp_default_spec(m: MemModel) -> u32 {
    let len = m.sram.len() % 0x1_0000_0000;
    if 0x20000000 + len <= u32::MAX {
        (0x20000000 + len) as u32
    } else {
        (0x20000000 + len - 0x1_0000_0000) as u32
    }
}

/// `n` zero bytes.
pub open spec fn zeros(n: nat) -> Seq<u8> {
    Seq::new(n, |_i: int| 0u8)
}

/// A word written to RAM reads back unchanged in the same byte order.
pub proof fn lemma_write32_then_read32(
    m: MemModel,
    addr: u32,
    value: u32,
    endian: Endian,
    reply: MemoryAccessResult<()>,
    read_reply: MemoryAccessResult<u32>,
)
    requires
        region_of(addr) != Region::Peripheral,
        write32_spec(m, addr, value, endian, reply).1 is Ok,
    ensures
        read32_spec(write32_spec(m, addr, value, endian, reply).0, addr, endian, read_reply) == Ok::<
            u32,
            MemoryAccessError,
        >(value),
{
    let region = region_of(addr);
    let offset = (addr - region_begin(region)) as u32;
    crate::memory::lemma_store_then_load(region_pool(m, region), offset as int, value, endian);
}

/// A word written to RAM in one byte order reads back, in the other, with
/// its bytes reversed.
pub proof fn lemma_write32_then_read32_swapped(
    m: MemModel,
    addr: u32,
    value: u32,
    reply: MemoryAccessResult<()>,
    read_reply: MemoryAccessResult<u32>,
)
    requires
        region_of(addr) != Region::Peripheral,
        write32_spec(m, addr, value, Endian::Little, reply).1 is Ok,
    ensures
        read32_spec(write32_spec(m, addr, value, Endian::Little, reply).0, addr, Endian::Big, read_reply)
            == Ok::<u32, MemoryAccessError>(word_of(byte_of(value, 3), byte_of(value, 2), byte_of(value, 1), byte_of(value, 0))),
        read32_spec(write32_spec(m, addr, value, Endian::Big, reply).0, addr, Endian::Little, read_reply)
            == Ok::<u32, MemoryAccessError>(word_of(byte_of(value, 3), byte_of(value, 2), byte_of(value, 1), byte_of(value, 0))),
{
    let region = region_of(addr);
    let offset = (addr - region_begin(region)) as u32;
    crate::memory::lemma_store_then_load_swapped(region_pool(m, region), offset as int, value);
}

/// Writing a word to RAM leaves every other aligned word, in every region,
/// as it was.
pub proof fn lemma_write32_frame(
    m: MemModel,
    addr: u32,
    other: u32,
    value: u32,
    endian: Endian,
    reply: MemoryAccessResult<()>,
    read_reply: MemoryAccessResult<u32>,
)
    requires
        region_of(addr) != Region::Peripheral,
        region_of(other) != Region::Peripheral,
        addr % 4 == 0,
        other % 4 == 0,
        addr != other,
    ensures
        read32_spec(write32_spec(m, addr, value, endian, reply).0, other, endian, read_reply)
            == read32_spec(m, other, endian, read_reply),
{
    let region = region_of(addr);
    let offset = (addr - region_begin(region)) as int;
    let pool = region_pool(m, region);
    if offset + 4 <= pool.len() {
        crate::memory::lemma_store_then_load(pool, offset, value, endian);
    }
}

/// A byte written to RAM reads back unchanged.
pub proof fn lemma_write_byte_then_read_byte(
    m: MemModel,
    addr: u32,
    value: u8,
    reply: MemoryAccessResult<()>,
    read_reply: MemoryAccessResult<u8>,
)
    requires
        region_of(addr) != Region::Peripheral,
        write_byte_spec(m, addr, value, reply).1 is Ok,
    ensures
        read_byte_spec(write_byte_spec(m, addr, value, reply).0, addr, read_reply)
            == Ok::<u8, MemoryAccessError>(value),
{
}

/// A vector of `n` zero bytes.
fn zeroed(n: Word) -> (r: Vec<u8>)
    ensures
        r@ == zeros(n as nat),
{
    let r = vec![0u8; n as usize];
    assert(r@ =~= zeros(n as nat));
    r
}

impl Bus {
    /// Create a new bus with the given RAM sizes in bytes.
    /// The RAM is initialized to zero.
    /// No peripherals are connected initially.
    /// See [Bus::add_peripheral] to connect peripherals.
    pub fn new(code_size: Word, sram_size: Word, external_size: Word) -> (r: Self)
        ensures
            r@ == (MemModel {
                code: zeros(code_size as nat),
                sram: zeros(sram_size as nat),
                external: zeros(external_size as nat),
                peripherals: Seq::empty(),
            }),
    {
        Self {
            code: zeroed(code_size),
            sram: zeroed(sram_size),
            peripherals: Vec::new(),
            external: zeroed(external_size),
        }
    }

    pub fn with_ram_and_peripherals(
        code: Vec<u8>,
        sram: Vec<u8>,
        peripherals: Vec<MemoryMappedPeripheral>,
        external: Vec<u8>,
    ) -> (r: Self)
        ensures
            r@ == (MemModel {
                code: code@,
                sram: sram@,
                external: external@,
                peripherals: peripherals@,
            }),
    {
        Self { code, sram, peripherals, external }
    }

    pub fn with_ram(code: Vec<u8>, sram: Vec<u8>, external: Vec<u8>) -> (r: Self)
        ensures
            r@ == (MemModel {
                code: code@,
                sram: sram@,
                external: external@,
                peripherals: Seq::empty(),
            }),
    {
        Self::with_ram_and_peripherals(code, sram, Vec::new(), external)
    }

    pub fn load_code(&mut self, code: &[u8])
        ensures
            final(self)@ == (MemModel { code: code@, ..old(self)@ }),
    {
        self.code = vstd::slice::slice_to_vec(code);
    }

    pub fn load_sram(&mut self, sram: &[u8])
        ensures
            final(self)@ == (MemModel { sram: sram@, ..old(self)@ }),
    {
        self.sram = vstd::slice::slice_to_vec(sram);
    }

    pub fn load_external(&mut self, external: &[u8])
        ensures
            final(self)@ == (MemModel { external: external@, ..old(self)@ }),
    {
        self.external = vstd::slice::slice_to_vec(external);
    }

    /// Grows SRAM by `size` zero bytes.
    pub fn reserve_sram(&mut self, size: u32)
        requires
            old(self)@.sram.len() + size <= isize::MAX,
        ensures
            final(self)@ == (MemModel { sram: old(self)@.sram + zeros(size as nat), ..old(self)@ }),
    {
        let len = self.sram.len();
        self.sram.resize(len + size as usize, 0u8);
        assert(self.sram@ =~= old(self)@.sram + zeros(size as nat)) by {
            assert(self.sram@.subrange(0, len as int) == old(self)@.sram);
        }
    }

    /// Grows SRAM to `size` bytes with zeros, if it holds fewer.
    pub fn reserve_exact_sram(&mut self, size: u32)
        requires
            size <= isize::MAX,
        ensures
            old(self)@.sram.len() < size ==> final(self)@ == (MemModel {
                sram: old(self)@.sram + zeros((size - old(self)@.sram.len()) as nat),
                ..old(self)@
            }),
            old(self)@.sram.len() >= size ==> final(self)@ == old(self)@,
    {
        if size as usize > self.sram.len() {
            let grow = size - self.sram.len() as u32;
            self.reserve_sram(grow);
        }
    }

    /// Empties every region and disconnects every peripheral.
    pub fn reset(&mut self)
        ensures
            final(self)@ == (MemModel {
                code: Seq::empty(),
                sram: Seq::empty(),
                external: Seq::empty(),
                peripherals: Seq::empty(),
            }),
    {
        self.code = Vec::new();
        self.sram = Vec::new();
        self.peripherals = Vec::new();
        self.external = Vec::new();
    }

    pub fn get_read_only_memory_view(&self) -> (r: &Bytes)
        ensures
            r@ == self@.code,
    {
        self.code.as_slice()
    }

    pub fn get_read_only_memory_view_mut(&mut self) -> (r: &mut Bytes)
        ensures
            r@ == old(self)@.code,
            final(self)@ == (MemModel { code: final(r)@, ..old(self)@ }),
    {
        self.code.as_mut_slice()
    }

    pub fn get_read_write_memory_view(&self) -> (r: &Bytes)
        ensures
            r@ == self@.sram,
    {
        self.sram.as_slice()
    }

    pub fn get_read_write_memory_view_mut(&mut self) -> (r: &mut Bytes)
        ensures
            r@ == old(self)@.sram,
            final(self)@ == (MemModel { sram: final(r)@, ..old(self)@ }),
    {
        self.sram.as_mut_slice()
    }

    pub fn get_mapped_peripherals(&self) -> (r: &[MemoryMappedPeripheral])
        ensures
            r@ == self@.peripherals,
    {
        self.peripherals.as_slice()
    }

    /// Connect a peripheral to the bus at a specific address range.
    pub fn add_peripheral(&mut self, mapped_peripheral: MemoryMappedPeripheral)
        ensures
            final(self)@ == (MemModel {
                peripherals: old(self)@.peripherals.push(mapped_peripheral),
                ..old(self)@
            }),
    {
        self.peripherals.push(mapped_peripheral);
    }

    /// The initial stack pointer: the first address past SRAM.
    pub fn get_sp_default_addr(&self) -> (r: u32)
        ensures
            r == sp_default_spec(self@),
    {
        let len = (self.sram.len() as u64 % 0x1_0000_0000u64) as u32;
        Self::SRAM_BEGIN.wrapping_add(len)
    }

    /// The position of the first peripheral whose range holds `addr`.
    fn find_peripheral(&self, addr: Word) -> (r: Option<usize>)
        ensures
            match r {
                Some(i) => {
                    &&& mapped_peripheral(self@.peripherals, addr) == Some(i as int)
                    &&& i < self@.peripherals.len()
                    &&& range_holds(self@.peripherals[i as int].range, addr)
                },
                None => mapped_peripheral(self@.peripherals, addr) is None,
            },
    {
        let n = self.peripherals.len();
        let mut i: usize = 0;
        while i < n
            invariant
                n == self.peripherals@.len(),
                0 <= i <= n,
                mapped_peripheral(self.peripherals@, addr) == find_peripheral_from(
                    self.peripherals@,
                    addr,
                    i as int,
                ),
            decreases n - i,
        {
            let found = self.peripherals[i].range.contains(&addr);
            assert(found == range_holds(self.peripherals@[i as int].range, addr));
            if found {
                return Some(i);
            }
            i = i + 1;
        }
        None
    }

    /// The first peripheral whose range holds `addr`, with the offset of
    /// `addr` into that range.
    fn locate_peripheral(&self, addr: Word) -> (r: Option<(usize, u32)>)
        ensures
            match r {
                Some((i, offset)) => {
                    &&& mapped_peripheral(self@.peripherals, addr) == Some(i as int)
                    &&& i < self@.peripherals.len()
                    &&& offset == peripheral_offset(self@, i as int, addr)
                },
                None => mapped_peripheral(self@.peripherals, addr) is None,
            },
    {
        match self.find_peripheral(addr) {
            Some(i) => {
                let start = *self.peripherals[i].range.start();
                Some((i, addr - start))
            },
            None => None,
        }
    }

    /// Same as [Bus::read32_with_reader], except it does not check for mapped peripherals,
    /// just reads from the address.
    fn read32_ram_with_reader<Reader: BasicRead>(pool: &Bytes, offset: Word, addr: Word) -> (r:
        MemoryAccessResult<u32>)
        ensures
            r == ram_read32(pool@, offset, addr, Reader::endian()),
    {
        if offset % 4 != 0 {
            return Err(MemoryAccessError::UnalignedAccess);
        }
        if (offset as usize) < pool.len() && 4 <= pool.len() - offset as usize {
            Reader::read32(pool, offset)
        } else {
            Err(MemoryAccessError::InvalidReadPermission { addr })
        }
    }

    /// Read a 32-bit word from the bus with the specified reader for endianness.
    fn read32_with_reader<Reader: BasicRead>(&self, addr: Word) -> (r: MemoryAccessResult<u32>)
        ensures
            r == read32_spec(self@, addr, Reader::endian(), r),
            peripheral_answered_read(self@, addr, r),
    {
        if addr <= Self::CODE_END {
            Self::read32_ram_with_reader::<Reader>(self.code.as_slice(), addr - Self::CODE_BEGIN, addr)
        } else if addr <= Self::SRAM_END {
            Self::read32_ram_with_reader::<Reader>(self.sram.as_slice(), addr - Self::SRAM_BEGIN, addr)
        } else if addr <= Self::PERIPHERAL_END {
            match self.locate_peripheral(addr) {
                Some((i, offset)) => self.peripherals[i].peripheral.read32(offset),
                None => Err(MemoryAccessError::InvalidReadPermission { addr }),
            }
        } else {
            Self::read32_ram_with_reader::<Reader>(
                self.external.as_slice(),
                addr - Self::EXTERNAL_BEGIN,
                addr,
            )
        }
    }

    /// Read the bytes at the address specified, as it would be on a little-endian system.
    pub fn read32_le(&self, addr: Word) -> (r: MemoryAccessResult<u32>)
        ensures
            r == read32_spec(self@, addr, Endian::Little, r),
            peripheral_answered_read(self@, addr, r),
    {
        self.read32_with_reader::<LittleEndian>(addr)
    }

    /// Read the bytes at the address specified, as it would be on a big-endian system.
    pub fn read32_be(&self, addr: Word) -> (r: MemoryAccessResult<u32>)
        ensures
            r == read32_spec(self@, addr, Endian::Big, r),
            peripheral_answered_read(self@, addr, r),
    {
        self.read32_with_reader::<BigEndian>(addr)
    }

    /// Same as [Bus::write32_with_writer], except it does not check for mapped peripherals,
    /// just writes to the address.
    fn write32_ram_with_writer<Writer: BasicWrite>(
        pool: &mut Bytes,
        offset: Word,
        addr: Word,
        value: u32,
    ) -> (r: MemoryAccessResult<()>)
        ensures
            (final(pool)@, r) == ram_write32(old(pool)@, offset, addr, value, Writer::endian()),
    {
        if offset % 4 != 0 {
            return Err(MemoryAccessError::UnalignedAccess);
        }
        if (offset as usize) < pool.len() && 4 <= pool.len() - offset as usize {
            Writer::write32(pool, offset, value)
        } else {
            Err(MemoryAccessError::InvalidWritePermission { addr })
        }
    }

    /// Write a 32-bit word to the bus, with the specified writer for endianness.
    fn write32_with_writer<Writer: BasicWrite>(&mut self, addr: Word, value: u32) -> (r:
        MemoryAccessResult<()>)
        ensures
            (final(self)@, r) == write32_spec(old(self)@, addr, value, Writer::endian(), r),
            peripheral_answered_write(old(self)@, addr, value, r),
    {
        if addr <= Self::CODE_END {
            Self::write32_ram_with_writer::<Writer>(
                self.code.as_mut_slice(),
                addr - Self::CODE_BEGIN,
                addr,
                value,
            )
        } else if addr <= Self::SRAM_END {
            Self::write32_ram_with_writer::<Writer>(
                self.sram.as_mut_slice(),
                addr - Self::SRAM_BEGIN,
                addr,
                value,
            )
        } else if addr <= Self::PERIPHERAL_END {
            match self.locate_peripheral(addr) {
                Some((i, offset)) => self.peripherals[i].peripheral.write32(offset, value),
                None => Err(MemoryAccessError::InvalidWritePermission { addr }),
            }
        } else {
            Self::write32_ram_with_writer::<Writer>(
                self.external.as_mut_slice(),
                addr - Self::EXTERNAL_BEGIN,
                addr,
                value,
            )
        }
    }

    /// Write the `value` to the address specified, as it would be on a little-endian system.
    pub fn write32_le(&mut self, addr: Word, value: u32) -> (r: MemoryAccessResult<()>)
        ensures
            (final(self)@, r) == write32_spec(old(self)@, addr, value, Endian::Little, r),
            peripheral_answered_write(old(self)@, addr, value, r),
    {
        self.write32_with_writer::<LittleEndian>(addr, value)
    }

    /// Write the `value` to the address specified, as it would be on a big-endian system.
    pub fn write32_be(&mut self, addr: Word, value: u32) -> (r: MemoryAccessResult<()>)
        ensures
            (final(self)@, r) == write32_spec(old(self)@, addr, value, Endian::Big, r),
            peripheral_answered_write(old(self)@, addr, value, r),
    {
        self.write32_with_writer::<BigEndian>(addr, value)
    }

    /// Read a single byte from a RAM region at `offset` into it.
    /// This does not consider endianness, it is just a single byte.
    fn read_byte_ram_with_reader<Reader: BasicRead>(pool: &Bytes, offset: Word, addr: Word) -> (r:
        MemoryAccessResult<u8>)
        ensures
            r == ram_read_byte(pool@, offset, addr),
    {
        if (offset as usize) < pool.len() {
            let lane = offset % 4;
            let word = vstd::slice::slice_subrange(pool, (offset - lane) as usize, pool.len());
            Reader::read_byte(word, lane)
        } else {
            Err(MemoryAccessError::InvalidReadPermission { addr })
        }
    }

    fn read_byte_with_reader<Reader: BasicRead>(&self, addr: Word) -> (r: MemoryAccessResult<u8>)
        ensures
            r == read_byte_spec(self@, addr, r),
            peripheral_answered_byte_read(self@, addr, r),
    {
        if addr <= Self::CODE_END {
            Self::read_byte_ram_with_reader::<Reader>(self.code.as_slice(), addr - Self::CODE_BEGIN, addr)
        } else if addr <= Self::SRAM_END {
            Self::read_byte_ram_with_reader::<Reader>(self.sram.as_slice(), addr - Self::SRAM_BEGIN, addr)
        } else if addr <= Self::PERIPHERAL_END {
            match self.locate_peripheral(addr) {
                Some((i, offset)) => self.peripherals[i].peripheral.read_byte(offset),
                None => Err(MemoryAccessError::InvalidReadPermission { addr }),
            }
        } else {
            Self::read_byte_ram_with_reader::<Reader>(
                self.external.as_slice(),
                addr - Self::EXTERNAL_BEGIN,
                addr,
            )
        }
    }

    /// Read one byte. A single byte has no byte order.
    pub fn read_byte_le(&self, addr: Word) -> (r: MemoryAccessResult<u8>)
        ensures
            r == read_byte_spec(self@, addr, r),
            peripheral_answered_byte_read(self@, addr, r),
    {
        self.read_byte_with_reader::<LittleEndian>(addr)
    }

    /// Read one byte. A single byte has no byte order.
    pub fn read_byte_be(&self, addr: Word) -> (r: MemoryAccessResult<u8>)
        ensures
            r == read_byte_spec(self@, addr, r),
            peripheral_answered_byte_read(self@, addr, r),
    {
        self.read_byte_with_reader::<BigEndian>(addr)
    }

    /// Write a single byte to a RAM region at `offset` into it.
    /// This does not consider endianness, it is just a single byte.
    fn write_byte_ram_with_writer<Writer: BasicWrite>(
        pool: &mut Bytes,
        offset: Word,
        addr: Word,
        value: u8,
    ) -> (r: MemoryAccessResult<()>)
        ensures
            (final(pool)@, r) == ram_write_byte(old(pool)@, offset, addr, value),
    {
        if (offset as usize) < pool.len() {
            pool[offset as usize] = value;
            Ok(())
        } else {
            Err(MemoryAccessError::InvalidWritePermission { addr })
        }
    }

    fn write_byte_with_writer<Writer: BasicWrite>(&mut self, addr: Word, value: u8) -> (r:
        MemoryAccessResult<()>)
        ensures
            (final(self)@, r) == write_byte_spec(old(self)@, addr, value, r),
            peripheral_answered_byte_write(old(self)@, addr, value, r),
    {
        if addr <= Self::CODE_END {
            Self::write_byte_ram_with_writer::<Writer>(
                self.code.as_mut_slice(),
                addr - Self::CODE_BEGIN,
                addr,
                value,
            )
        } else if addr <= Self::SRAM_END {
            Self::write_byte_ram_with_writer::<Writer>(
                self.sram.as_mut_slice(),
                addr - Self::SRAM_BEGIN,
                addr,
                value,
            )
        } else if addr <= Self::PERIPHERAL_END {
            match self.locate_peripheral(addr) {
                Some((i, offset)) => self.peripherals[i].peripheral.write_byte(offset, value),
                None => Err(MemoryAccessError::InvalidWritePermission { addr }),
            }
        } else {
            Self::write_byte_ram_with_writer::<Writer>(
                self.external.as_mut_slice(),
                addr - Self::EXTERNAL_BEGIN,
                addr,
                value,
            )
        }
    }

    /// Write one byte. A single byte has no byte order.
    pub fn write_byte_le(&mut self, addr: Word, value: u8) -> (r: MemoryAccessResult<()>)
        ensures
            (final(self)@, r) == write_byte_spec(old(self)@, addr, value, r),
            peripheral_answered_byte_write(old(self)@, addr, value, r),
    {
        self.write_byte_with_writer::<LittleEndian>(addr, value)
    }

    /// Write one byte. A single byte has no byte order.
    pub fn write_byte_be(&mut self, addr: Word, value: u8) -> (r: MemoryAccessResult<()>)
        ensures
            (final(self)@, r) == write_byte_spec(old(self)@, addr, value, r),
            peripheral_answered_byte_write(old(self)@, addr, value, r),
    {
        self.write_byte_with_writer::<BigEndian>(addr, value)
    }
}

impl Default for Bus {
    fn default() -> (r: Self)
        ensures
            r@ == (MemModel {
                code: zeros(DEFAULT_MEMORY_SIZE as nat),
                sram: zeros(DEFAULT_MEMORY_SIZE as nat),
                external: zeros(DEFAULT_MEMORY_SIZE as nat),
                peripherals: Seq::empty(),
            }),
    {
        Self::new(DEFAULT_MEMORY_SIZE, DEFAULT_MEMORY_SIZE, DEFAULT_MEMORY_SIZE)
    }
}

} // verus!
