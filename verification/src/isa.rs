//! The instruction set: eight opcodes, each with a fixed length.

use vstd::prelude::*;

verus! {

/// Number of bytes of machine memory.
pub const MEMORY_SIZE: usize = 4096;

/// Number of registers.
pub const NREGS: usize = 16;

/// Index of the register that is the instruction pointer.
pub const IP: usize = 0;

/// The kind of an instruction, selected by its first byte.
#[derive(Clone, Copy, Debug, PartialEq, Eq, Structural)]
pub enum InstructionType {
    /// `reg[A] = reg[B]` if `reg[C] != 0`.
    MoveIf,
    /// Store the four bytes of `reg[B]` at the address in `reg[A]`.
    Store,
    /// Load four bytes from the address in `reg[B]` into `reg[A]`.
    Load,
    /// Load a sign-extended 16-bit immediate into `reg[A]`.
    LoadImm,
    /// `reg[A] = reg[B] - reg[C]`, modulo 2^32.
    Sub,
    /// Write the character in the low byte of `reg[A]`.
    Out,
    /// Halt.
    Exit,
    /// Write `reg[A]` as a signed decimal number.
    OutNumber,
}

impl InstructionType {
    /// The instruction kind that an opcode byte selects, if any.
    pub open spec fn decode(opcode: u8) -> Option<InstructionType> {
        if opcode == 1 {
            Some(InstructionType::MoveIf)
        } else if opcode == 2 {
            Some(InstructionType::Store)
        } else if opcode == 3 {
            Some(InstructionType::Load)
        } else if opcode == 4 {
            Some(InstructionType::LoadImm)
        } else if opcode == 5 {
            Some(InstructionType::Sub)
        } else if opcode == 6 {
            Some(InstructionType::Out)
        } else if opcode == 7 {
            Some(InstructionType::Exit)
        } else if opcode == 8 {
            Some(InstructionType::OutNumber)
        } else {
            None
        }
    }

    /// Length in bytes of an instruction of this kind, opcode included.
    pub open spec fn length(self) -> nat {
        match self {
            InstructionType::MoveIf => 4,
            InstructionType::Store => 3,
            InstructionType::Load => 3,
            InstructionType::LoadImm => 4,
            InstructionType::Sub => 4,
            InstructionType::Out => 2,
            InstructionType::Exit => 1,
            InstructionType::OutNumber => 2,
        }
    }

    /// Number of register operands, which follow the opcode byte.
    pub open spec fn register_operands(self) -> nat {
        match self {
            InstructionType::MoveIf => 3,
            InstructionType::Store => 2,
            InstructionType::Load => 2,
            InstructionType::LoadImm => 1,
            InstructionType::Sub => 3,
            InstructionType::Out => 1,
            InstructionType::Exit => 0,
            InstructionType::OutNumber => 1,
        }
    }

    /// Decodes an opcode byte.
    pub fn from_opcode(opcode: u8) -> (kind: Option<InstructionType>)
        ensures
            kind == Self::decode(opcode),
    {
        match opcode {
            1 => Some(InstructionType::MoveIf),
            2 => Some(InstructionType::Store),
            3 => Some(InstructionType::Load),
            4 => Some(InstructionType::LoadImm),
            5 => Some(InstructionType::Sub),
            6 => Some(InstructionType::Out),
            7 => Some(InstructionType::Exit),
            8 => Some(InstructionType::OutNumber),
            _ => None,
        }
    }
}

} // verus!
