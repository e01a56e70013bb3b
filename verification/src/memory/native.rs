//! Conversions between words and the byte order of the machine the emulator
//! runs on.

use super::{byte_of, get_byte, word_from_bytes, word_of, word_to_bytes, Endian};
use vstd::prelude::*;

verus! {

/// The byte order of the machine this code runs on.
pub open spec fn native_endian() -> Endian {
    match vstd::endian::endianness() {
        vstd::endian::Endian::Little => Endian::Little,
        vstd::endian::Endian::Big => Endian::Big,
    }
}

/// Taking a word apart into bytes and putting it back together gives the
/// same bytes, in either byte order.
pub proof fn lemma_bytes_word_roundtrip(b0: u8, b1: u8, b2: u8, b3: u8)
    ensures
        byte_of(word_of(b0, b1, b2, b3), 0) == b0,
        byte_of(word_of(b0, b1, b2, b3), 1) == b1,
        byte_of(word_of(b0, b1, b2, b3), 2) == b2,
        byte_of(word_of(b0, b1, b2, b3), 3) == b3,
{
    assert(byte_of(word_of(b0, b1, b2, b3), 0) == b0 && byte_of(word_of(b0, b1, b2, b3), 1) == b1
        && byte_of(word_of(b0, b1, b2, b3), 2) == b2 && byte_of(word_of(b0, b1, b2, b3), 3) == b3)
        by (bit_vector);
}

/// Four bytes read as a word and written back in the same order are the
/// same four bytes.
pub proof fn lemma_word_from_bytes_roundtrip(bytes: Seq<u8>, endian: Endian)
    requires
        bytes.len() == 4,
    ensures
        word_to_bytes(word_from_bytes(bytes, 0, endian), endian) == bytes,
{
    lemma_bytes_word_roundtrip(bytes[0], bytes[1], bytes[2], bytes[3]);
    lemma_bytes_word_roundtrip(bytes[3], bytes[2], bytes[1], bytes[0]);
    assert(word_to_bytes(word_from_bytes(bytes, 0, endian), endian) =~= bytes);
}

/// Turning a word into bytes and back, in either byte order, gives the
/// word.
pub proof fn lemma_word_to_bytes_roundtrip(value: u32, endian: Endian)
    ensures
        word_from_bytes(word_to_bytes(value, endian), 0, endian) == value,
{
    crate::memory::lemma_word_bytes_roundtrip(value);
}

/// `u32::to_ne_bytes`: the four bytes of `value` in the byte order of the
/// machine.
#[verifier::external_body]
fn ne_bytes_of(value: u32) -> (r: [u8; 4])
    ensures
        r@ == word_to_bytes(value, native_endian()),
{
    value.to_ne_bytes()
}

/// `u32::from_ne_bytes`: the word whose bytes, in the byte order of the
/// machine, are `bytes`.
#[verifier::external_body]
fn word_of_ne_bytes(bytes: [u8; 4]) -> (r: u32)
    ensures
        r == word_from_bytes(bytes@, 0, native_endian()),
{
    u32::from_ne_bytes(bytes)
}

/// The four bytes of `value` in the given byte order.
fn bytes_in_order(value: u32, endian: Endian) -> (r: [u8; 4])
    ensures
        r@ == word_to_bytes(value, endian),
{
    let r = match endian {
        Endian::Little => [get_byte(value, 0), get_byte(value, 1), get_byte(value, 2), get_byte(value, 3)],
        Endian::Big => [get_byte(value, 3), get_byte(value, 2), get_byte(value, 1), get_byte(value, 0)],
    };
    assert(r@ =~= word_to_bytes(value, endian));
    r
}

/// The word which, laid out in the byte order of the machine, has the bytes
/// that `instr` has in big-endian order.
pub fn big_endian_to_native(instr: u32) -> (r: u32)
    ensures
        word_to_bytes(r, native_endian()) == word_to_bytes(instr, Endian::Big),
{
    let bytes = bytes_in_order(instr, Endian::Big);
    let r = word_of_ne_bytes(bytes);
    proof {
        lemma_word_from_bytes_roundtrip(bytes@, native_endian());
    }
    r
}

/// The word which, laid out in the byte order of the machine, has the bytes
/// that `instr` has in little-endian order.
pub fn little_endian_to_native(instr: u32) -> (r: u32)
    ensures
        word_to_bytes(r, native_endian()) == word_to_bytes(instr, Endian::Little),
{
    let bytes = bytes_in_order(instr, Endian::Little);
    let r = word_of_ne_bytes(bytes);
    proof {
        lemma_word_from_bytes_roundtrip(bytes@, native_endian());
    }
    r
}

/// The bytes of `value` in the byte order of the machine.
pub fn u32_to_native_bytes(value: u32) -> (r: [u8; 4])
    ensures
        r@ == word_to_bytes(value, native_endian()),
{
    ne_bytes_of(value)
}

/// The word whose bytes, in the byte order of the machine, are `bytes`.
pub fn u32_from_native_bytes(bytes: [u8; 4]) -> (r: u32)
    ensures
        r == word_from_bytes(bytes@, 0, native_endian()),
        word_to_bytes(r, native_endian()) == bytes@,
{
    let r = word_of_ne_bytes(bytes);
    proof {
        lemma_word_from_bytes_roundtrip(bytes@, native_endian());
    }
    r
}

} // verus!
