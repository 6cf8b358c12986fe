use vstd::prelude::*;

verus! {

/// The reasons for which execution stops with an error.
#[derive(Clone, Copy, Debug, PartialEq, Eq, Structural)]
pub enum Fault {
    /// The word did not decode, or its function codes name no operation.
    IllegalInstruction,
    /// The program counter is not a multiple of four.
    UnalignedAccess,
    /// An access reaches past the end of memory.
    OutOfBounds,
    /// An environment call with a number that is not served.
    UnknownSyscall,
}

} // verus!
