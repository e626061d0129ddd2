//! The conditions the machine reports instead of executing an instruction
//! or accepting a program.

use vstd::prelude::*;

verus! {

/// Why a program was not loaded or an instruction was not carried out.
#[derive(Clone, Copy, Debug, PartialEq, Eq, Structural)]
pub enum Error {
    /// The program does not fit between the entry address and the top of
    /// memory.
    ProgramTooLarge,
    /// A call was made with sixteen return addresses already on the stack.
    StackOverflow,
    /// A return was made with no return address on the stack.
    StackUnderflow,
    /// An instruction addressed memory through the index register beyond
    /// the last cell.
    MemoryFault,
    /// The fetched bytes are not one of the machine's instructions.
    UnknownOpcode,
}

} // verus!
