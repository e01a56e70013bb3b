//! Random numbers drawn from the host's entropy source, as a simulated
//! device would draw them from physical noise.

use crate::memory::Bytes;
use rand::rand_core::OsError;
use rand::rngs::OsRng;
use rand::TryRngCore;
use vstd::prelude::*;

verus! {

/// An error of the operating system's random number source.
#[verifier::external_type_specification]
#[verifier::external_body]
pub struct ExOsError(OsError);

/// Why drawing random numbers failed.
#[derive(Debug, Clone, Copy)]
pub enum RngError {
    OsError(OsError),
}

pub type RngResult<T> = Result<T, RngError>;

impl From<OsError> for RngError {
    fn from(value: OsError) -> (r: RngError) {
        RngError::OsError(value)
    }
}

impl vstd::std_specs::convert::FromSpecImpl<OsError> for RngError {
    open spec fn obeys_from_spec() -> bool {
        true
    }

    open spec fn from_spec(value: OsError) -> RngError {
        RngError::OsError(value)
    }
}

/// `OsRng::try_next_u32` of rand: a random word from the operating system,
/// or its error. Nothing is claimed of the word.
#[verifier::external_body]
fn os_next_u32() -> (r: Result<u32, OsError>) {
    OsRng.try_next_u32()
}

/// `OsRng::try_next_u64` of rand: a random double word from the operating
/// system, or its error. Nothing is claimed of the value.
#[verifier::external_body]
fn os_next_u64() -> (r: Result<u64, OsError>) {
    OsRng.try_next_u64()
}

/// `OsRng::try_fill_bytes` of rand: fills `bytes` from the operating system,
/// or fails. Claimed: the slice keeps its length.
#[verifier::external_body]
fn os_fill_bytes(bytes: &mut Bytes) -> (r: Result<(), OsError>)
    ensures
        final(bytes)@.len() == old(bytes)@.len(),
{
    OsRng.try_fill_bytes(bytes)
}

/// The outcome of drawing from the operating system, with its error
/// wrapped.
pub fn rng_result<T>(drawn: Result<T, OsError>) -> (r: RngResult<T>)
    ensures
        match drawn {
            Ok(v) => r matches Ok(w) && w == v,
            Err(e) => r matches Err(RngError::OsError(f)) && f == e,
        },
{
    match drawn {
        Ok(v) => Ok(v),
        Err(e) => Err(RngError::from(e)),
    }
}

/// A random word.
pub fn get_random_u32() -> (r: RngResult<u32>) {
    rng_result(os_next_u32())
}

/// A random double word.
pub fn get_random_u64() -> (r: RngResult<u64>) {
    rng_result(os_next_u64())
}

/// Fills `bytes` with random bytes.
pub fn get_random_bytes(bytes: &mut Bytes) -> (r: RngResult<()>)
    ensures
        final(bytes)@.len() == old(bytes)@.len(),
{
    rng_result(os_fill_bytes(bytes))
}

} // verus!
