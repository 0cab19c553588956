//! Laws of the model: what holds of every state and every instruction.

use vstd::prelude::*;
use crate::error::MachineError;
use crate::isa::{InstructionType, MEMORY_SIZE, NREGS};
use crate::state::{
    byte_of, sign_extend, signed, word_of, wrapping_difference, MachineState, Outcome, Step,
};

verus! {

/// The reset state has the fixed sizes; its memory is the image followed by
/// zeros, and its sixteen registers are zero.
pub proof fn lemma_initial_state(image: Seq<u8>)
    requires
        image.len() <= MEMORY_SIZE,
    ensures
        MachineState::initial(image).wf(),
        MachineState::initial(image).memory.subrange(0, image.len() as int) == image,
        forall|i: int|
            image.len() <= i < MEMORY_SIZE ==> MachineState::initial(image).memory[i] == 0,
        forall|i: int| 0 <= i < NREGS ==> MachineState::initial(image).regs[i] == 0,
{
    assert(MachineState::initial(image).memory.subrange(0, image.len() as int) =~= image);
}

/// A step leaves memory and registers at their fixed sizes.
pub proof fn lemma_step_preserves_wf(s: MachineState)
    requires
        s.wf(),
    ensures
        s.step().state.wf(),
{
}

/// Every state reached by stepping has the fixed sizes.
pub proof fn lemma_after_preserves_wf(s: MachineState, n: nat)
    requires
        s.wf(),
    ensures
        s.after(n).wf(),
    decreases n,
{
    if n > 0 {
        lemma_after_preserves_wf(s, (n - 1) as nat);
        lemma_step_preserves_wf(s.after((n - 1) as nat));
    }
}

/// The kind of the instruction at the instruction pointer, where a step gets
/// as far as carrying one out.
pub open spec fn current_kind(s: MachineState) -> InstructionType {
    InstructionType::decode(s.memory[s.ip() as int]).unwrap()
}

/// A step gets as far as carrying out an instruction: the instruction pointer
/// lies within memory, the byte there is an opcode, and the instruction ends
/// within memory.
pub open spec fn decodes(s: MachineState) -> bool {
    &&& s.ip() < MEMORY_SIZE
    &&& InstructionType::decode(s.memory[s.ip() as int]) is Some
    &&& s.ip() + current_kind(s).length() <= MEMORY_SIZE
}

/// The instruction at the instruction pointer assigns to register 0: it is a
/// load, a load of an immediate or a subtraction whose target is register 0,
/// or such a conditional move whose condition register is not zero once the
/// pointer has moved past the instruction.
pub open spec fn assigns_pointer(s: MachineState) -> bool {
    let ip = s.ip() as int;
    let kind = current_kind(s);
    let moved = s.with_reg(0, (ip + kind.length()) as u32);
    &&& decodes(s)
    &&& s.memory[ip + 1] == 0
    &&& match kind {
        InstructionType::MoveIf => moved.regs[s.memory[ip + 3] as int] != 0,
        InstructionType::Load => true,
        InstructionType::LoadImm => true,
        InstructionType::Sub => true,
        _ => false,
    }
}

/// After a step that does not fail, the instruction pointer is past the
/// instruction and within memory or at its end, unless the instruction itself
/// assigns to register 0; and nothing but a failure stops a step before it
/// has decoded an instruction.
pub proof fn lemma_step_moves_pointer(s: MachineState)
    requires
        s.wf(),
        !(s.step().outcome is Fail),
    ensures
        decodes(s),
        !assigns_pointer(s) ==> s.step().state.ip() == s.ip() + current_kind(s).length(),
        !assigns_pointer(s) ==> s.step().state.ip() <= MEMORY_SIZE,
{
}

/// A step whose instruction assigns to register 0 leaves there the value
/// assigned, computed with the pointer already past the instruction.
pub proof fn lemma_step_assigns_pointer(s: MachineState)
    requires
        s.wf(),
        !(s.step().outcome is Fail),
        assigns_pointer(s),
    ensures
        ({
            let ip = s.ip() as int;
            let kind = current_kind(s);
            let moved = s.with_reg(0, (ip + kind.length()) as u32);
            s.step().state.regs[0] == match kind {
                InstructionType::MoveIf => moved.regs[s.memory[ip + 2] as int],
                InstructionType::Load => moved.word_at(moved.regs[s.memory[ip + 2] as int] as int),
                InstructionType::LoadImm => sign_extend(s.memory[ip + 2], s.memory[ip + 3]),
                _ => wrapping_difference(
                    moved.regs[s.memory[ip + 2] as int],
                    moved.regs[s.memory[ip + 3] as int],
                ),
            }
        }),
{
}

/// A byte at the instruction pointer that is not one of the eight opcodes
/// makes the step fail with that byte and leaves the state as it is, the
/// instruction pointer included.
pub proof fn lemma_invalid_opcode(s: MachineState)
    requires
        s.wf(),
        s.ip() < MEMORY_SIZE,
        !(1 <= s.memory[s.ip() as int] <= 8),
    ensures
        s.step() == (Step {
            state: s,
            outcome: Outcome::Fail(MachineError::InvalidInstruction(s.memory[s.ip() as int])),
        }),
{
}

/// An instruction that would end beyond memory fails with the address of its
/// end and leaves the instruction pointer at the end of memory; the step
/// after that fails too, and leaves the state as it is.
pub proof fn lemma_instruction_past_end(s: MachineState)
    requires
        s.wf(),
        s.ip() < MEMORY_SIZE,
        InstructionType::decode(s.memory[s.ip() as int]) is Some,
        s.ip() + current_kind(s).length() > MEMORY_SIZE,
    ensures
        s.step() == (Step {
            state: s.with_reg(0, MEMORY_SIZE as u32),
            outcome: Outcome::Fail(
                MachineError::InvalidMemoryAddress(
                    (s.ip() + current_kind(s).length()) as usize,
                ),
            ),
        }),
        s.step().state.step() == (Step {
            state: s.step().state,
            outcome: Outcome::Fail(MachineError::InvalidMemoryAddress(MEMORY_SIZE)),
        }),
{
}

/// A step from an instruction pointer at or beyond the end of memory fails
/// with that address and leaves the state as it is.
pub proof fn lemma_pointer_past_end(s: MachineState)
    requires
        s.wf(),
        s.ip() >= MEMORY_SIZE,
    ensures
        s.step() == (Step {
            state: s,
            outcome: Outcome::Fail(MachineError::InvalidMemoryAddress(s.ip() as usize)),
        }),
{
}

/// An address never fails to fit the pointer-sized integer where that
/// integer has 64 bits; on any platform only a store can fail so.
pub proof fn lemma_pointer_size(s: MachineState)
    requires
        s.wf(),
        s.step().outcome == Outcome::Fail(MachineError::InsufficientPointerSize),
    ensures
        usize::MAX < 0x1_0000_0002,
        decodes(s),
        current_kind(s) == InstructionType::Store,
{
}

/// A failed step changes nothing but, at most, the instruction pointer.
pub proof fn lemma_failure_keeps_state(s: MachineState)
    requires
        s.wf(),
        s.step().outcome is Fail,
    ensures
        s.step().state.memory == s.memory,
        forall|i: int| 1 <= i < NREGS ==> s.step().state.regs[i] == s.regs[i],
{
}

/// A step that fails after it has decoded an instruction leaves the
/// instruction pointer past the instruction.
pub proof fn lemma_failure_after_decode(s: MachineState)
    requires
        s.wf(),
        decodes(s),
        s.step().outcome is Fail,
    ensures
        s.step().state == s.with_reg(0, (s.ip() + current_kind(s).length()) as u32),
{
}

/// The subtraction is the difference modulo 2^32.
pub proof fn lemma_wrapping_difference(x: u32, y: u32)
    ensures
        wrapping_difference(x, y) == (x - y) % 0x1_0000_0000,
{
}

/// The immediate, read as a signed 32-bit integer, is the 16-bit value read
/// as a signed 16-bit integer.
pub proof fn lemma_sign_extend(low: u8, high: u8)
    ensures
        signed(sign_extend(low, high)) == if high < 128 {
            high * 256 + low
        } else {
            high * 256 + low - 0x1_0000
        },
{
}

/// The four bytes of a value, least significant first, make up the value.
pub proof fn lemma_bytes_of_word(value: u32)
    ensures
        word_of(byte_of(value, 0), byte_of(value, 1), byte_of(value, 2), byte_of(value, 3))
            == value,
{
}

/// A value written to memory is the value read back from the same address.
pub proof fn lemma_store_load_round_trip(s: MachineState, addr: int, value: u32)
    requires
        s.wf(),
        0 <= addr,
        addr + 3 < MEMORY_SIZE,
    ensures
        s.with_word(addr, value).word_at(addr) == value,
        s.with_word(addr, value).wf(),
{
    lemma_bytes_of_word(value);
}

/// A store that succeeds, followed by a load from the address register of
/// the store, puts the stored value into the target of the load.
pub proof fn lemma_store_then_load(s: MachineState, a: int, b: int, c: int)
    requires
        s.wf(),
        0 <= a < NREGS,
        0 <= b < NREGS,
        0 <= c < NREGS,
        s.store(a, b).outcome is Continue,
    ensures
        s.store(a, b).state.load(c, a).outcome is Continue,
        s.store(a, b).state.load(c, a).state.regs[c] == s.regs[b],
{
    lemma_store_load_round_trip(s, s.regs[a] as int, s.regs[b]);
}

} // verus!
