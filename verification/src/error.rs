//! The failures that the machine reports.

use vstd::prelude::*;

verus! {

/// The ways in which loading a program or executing an instruction can fail.
///
/// Every failure is reported to the host as a value; the machine itself is
/// left exactly as it was before the failing call.
#[derive(Clone, Copy, Debug, PartialEq, Eq, Structural)]
pub enum Chip8Error {
    /// A register index, key index or memory address lies outside the
    /// architectural range.
    InvalidOperand,
    /// A subroutine call was made with sixteen frames already on the stack.
    StackOverflow,
    /// A return was executed with no frame on the stack.
    StackUnderflow,
    /// A program image does not fit between the program start and the end of
    /// memory.
    ImageTooLarge,
    /// The opcode matches none of the defined instructions.
    UnimplementedOpcode,
}

} // verus!
