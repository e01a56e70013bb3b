//! Seals [ExecutableInstruction](super::ExecutableInstruction) to the
//! instruction types of this crate.

use vstd::prelude::*;

verus! {

pub trait Sealed {

}

} // verus!
