//! The faults the interpreter can report and the status of one cycle.

use vstd::prelude::*;

verus! {

/// A named failure condition. A fault ends the current cycle; it is reported to
/// the caller and never recovered inside the interpreter.
#[derive(Clone, Copy, Debug, PartialEq, Eq, Structural)]
pub enum Fault {
    /// A memory access outside `0x000..=0xFFF`.
    MemoryOutOfBounds,
    /// A subroutine call with all sixteen stack slots in use.
    StackOverflow,
    /// A return with no return address on the stack.
    StackUnderflow,
    /// An instruction word that no handler exists for.
    UnimplementedOpcode { raw: u16 },
    /// A program that does not fit between `0x200` and `0xFFF`.
    ProgramTooLarge,
}

/// What one cycle reports to the driver that invoked it.
#[derive(Clone, Copy, Debug, PartialEq, Eq, Structural)]
pub enum Status {
    /// The instruction completed; another cycle may follow.
    Continue,
    /// A halt instruction was executed.
    Halted,
    /// The cycle stopped on a fault.
    Fault(Fault),
}

/// What a handler asks of the cycle driver once it has run.
#[derive(Clone, Copy, Debug, PartialEq, Eq, Structural)]
pub enum Flow {
    /// The program counter is untouched: apply the generic advance.
    Next,
    /// The handler has set the program counter itself.
    Jumped,
    /// The program asked to stop.
    Halted,
}

} // verus!
