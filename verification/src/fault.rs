use vstd::prelude::*;

verus! {

/// Why an instruction cycle could not be carried out. A cycle that ends in a
/// fault leaves the machine exactly as it found it.
#[derive(Clone, Copy, Debug, PartialEq, Eq, Structural)]
pub enum Fault {
    /// The program counter leaves no room in memory for a two-byte
    /// instruction word.
    FetchOutOfRange,
    /// A call while all sixteen stack slots are in use, or a return while the
    /// stack pointer lies beyond the stack.
    StackOverflow,
    /// A return while no call is outstanding.
    StackUnderflow,
    /// A key test on a register that holds no key index (a value above 15).
    KeyOutOfRange,
    /// A store to or load from memory that would run past its last byte.
    MemoryOutOfRange,
}

} // verus!
