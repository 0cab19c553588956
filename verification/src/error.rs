//! The ways in which a program can fail.

use vstd::prelude::*;

verus! {

/// Why an instruction could not be carried out.
#[derive(Clone, Copy, Debug, PartialEq, Eq, Structural)]
pub enum MachineError {
    /// A register operand is 16 or more; carries the operand.
    InvalidRegister(usize),
    /// The byte at the instruction pointer is no opcode; carries the byte.
    InvalidInstruction(u8),
    /// An address lies at or beyond the end of memory; carries the address.
    InvalidMemoryAddress(usize),
    /// An address does not fit the pointer-sized integer of the platform.
    InsufficientPointerSize,
    /// The output sink reported a failure.
    WriteError,
}

} // verus!
