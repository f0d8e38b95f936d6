//! State kept while following a program through memory.
use vstd::prelude::*;
use super::memory::BankFlags;

verus! {

/// Walks a memory image.
pub struct Tracer<'a> {
    mem: &'a [u8],
}

/// Where execution stands: the program counter and the bank selection.
pub struct ProcessorState {
    pc: u16,
    bankflags: BankFlags,
}

} // verus!
