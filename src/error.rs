use vstd::prelude::*;

verus! {

/// Fatal conditions of the emulation core. None of them is retried: the run
/// that meets one stops with it.
#[derive(Debug, Clone, Copy, PartialEq, Eq, Structural)]
pub enum EmuError {
    /// The clock was configured with a frequency of zero.
    InvalidConfiguration,
    /// The byte at `pc` names no instruction of the implemented set.
    UnimplementedOpcode { opcode: u8, pc: u16 },
    /// An access of `length` bytes at `address` would leave the memory store.
    MemoryBoundsViolation { address: usize, length: usize },
}

} // verus!
