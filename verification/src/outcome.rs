use vstd::prelude::*;

verus! {

/// Why a run cannot go on.
#[derive(Debug, PartialEq, Eq, Clone, Copy, Structural)]
pub enum Fault {
    /// A reserved opcode was executed.
    ReservedOpcode,
    /// A trap instruction named a vector that has no routine.
    UnknownTrap,
    /// An access went past the last word of memory.
    AddressOutOfRange,
}

/// What executing one instruction came to.
#[derive(Debug, PartialEq, Eq, Clone, Copy, Structural)]
pub enum Outcome {
    /// The instruction is done; the next one can be fetched.
    Continue,
    /// The instruction waits for a character that the host has not supplied.
    Blocked,
    /// The halt trap ran.
    Halt,
    /// The instruction cannot be executed.
    Fault(Fault),
}

} // verus!
