use vstd::prelude::*;

verus! {

/// Everything that can stop the machine. No operation of the engine panics:
/// each condition the instruction set leaves undefined is reported as one
/// of these, and the machine is left as it was before the failed operation.
#[derive(Clone, Copy, Debug, PartialEq, Eq, Structural)]
pub enum Chip8Error {
    /// The program does not fit between the load address and the end of
    /// memory.
    ProgramTooLarge,
    /// The word fetched at `pc` names no instruction.
    InvalidInstruction { opcode: u16, pc: u16 },
    /// A call was made with sixteen return addresses already on the stack.
    StackOverflow,
    /// A return was made with no return address on the stack.
    StackUnderflow,
    /// An instruction would have read or written outside memory, or moved
    /// the index register beyond what sixteen bits can hold.
    AddressOutOfBounds,
}

} // verus!
