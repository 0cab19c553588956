//! The executable machine.

use vstd::prelude::*;
use crate::error::MachineError;
use crate::isa::{InstructionType, IP, MEMORY_SIZE, NREGS};
use crate::state::{sign_extend, signed, MachineState, Outcome};
use crate::text::{format_character, format_decimal};

verus! {

/// A machine: 4096 bytes of memory and sixteen registers.
#[derive(Debug)]
pub struct Machine {
    memory: [u8; MEMORY_SIZE],
    regs: [u32; NREGS],
}

/// What a completed instruction asks of the caller.
#[derive(Debug)]
pub enum Signal {
    /// Nothing: go on with the next instruction.
    Continue,
    /// Write these bytes to the output, then go on.
    Output(Vec<u8>),
    /// Stop: the program is over.
    Halt,
}

impl Signal {
    /// The outcome of the model that this signal stands for.
    pub open spec fn outcome(self) -> Outcome {
        match self {
            Signal::Continue => Outcome::Continue,
            Signal::Output(bytes) => Outcome::Emit(bytes@),
            Signal::Halt => Outcome::Halt,
        }
    }
}

/// The outcome of the model that the result of an instruction stands for.
pub open spec fn outcome_of(r: Result<Signal, MachineError>) -> Outcome {
    match r {
        Ok(signal) => signal.outcome(),
        Err(e) => Outcome::Fail(e),
    }
}

impl View for Machine {
    type V = MachineState;

    closed spec fn view(&self) -> MachineState {
        MachineState { memory: self.memory@, regs: self.regs@ }
    }
}

impl Machine {
    /// Every machine has the fixed sizes of the model.
    pub proof fn lemma_wf(&self)
        ensures
            self@.wf(),
    {
    }

    /// Creates a machine in its reset state, with `memory` copied to the
    /// beginning of the machine memory.
    pub fn new(memory: &[u8]) -> (machine: Machine)
        requires
            memory@.len() <= MEMORY_SIZE,
        ensures
            machine@ == MachineState::initial(memory@),
    {
        let mut array_memory: [u8; MEMORY_SIZE] = [0u8; MEMORY_SIZE];
        let mut i: usize = 0;
        while i < memory.len()
            invariant
                i <= memory@.len() <= MEMORY_SIZE,
                forall|j: int| 0 <= j < i ==> array_memory@[j] == memory@[j],
                forall|j: int| i <= j < MEMORY_SIZE ==> array_memory@[j] == 0u8,
            decreases memory@.len() - i,
        {
            array_memory[i] = memory[i];
            i = i + 1;
        }
        let machine = Machine { memory: array_memory, regs: [0u32; NREGS] };
        assert(machine@.memory =~= MachineState::initial(memory@).memory);
        assert(machine@.regs =~= MachineState::initial(memory@).regs);
        machine
    }

    /// The registers.
    pub fn regs(&self) -> (regs: &[u32])
        ensures
            regs@ == self@.regs,
    {
        self.regs.as_slice()
    }

    /// The whole memory.
    pub fn memory(&self) -> (memory: &[u8])
        ensures
            memory@ == self@.memory,
    {
        self.memory.as_slice()
    }

    /// Sets register `reg` to `value`, or refuses an index of 16 or more.
    pub fn set_reg(&mut self, reg: usize, value: u32) -> (r: Result<(), MachineError>)
        ensures
            reg < NREGS ==> r == Ok::<(), MachineError>(()) && final(self)@ == old(self)@.with_reg(
                reg as int,
                value,
            ),
            reg >= NREGS ==> r == Err::<(), MachineError>(MachineError::InvalidRegister(reg))
                && final(self)@ == old(self)@,
    {
        if reg < NREGS {
            self.regs[reg] = value;
            Ok(())
        } else {
            Err(MachineError::InvalidRegister(reg))
        }
    }

    /// The value of register `reg`, or the refusal of an index of 16 or more.
    pub fn get_reg(&self, reg: usize) -> (r: Result<u32, MachineError>)
        ensures
            reg < NREGS ==> r == Ok::<u32, MachineError>(self@.regs[reg as int]),
            reg >= NREGS ==> r == Err::<u32, MachineError>(MachineError::InvalidRegister(reg)),
    {
        if reg < NREGS {
            Ok(self.regs[reg])
        } else {
            Err(MachineError::InvalidRegister(reg))
        }
    }

    /// The byte at `address`, or the refusal of an address beyond memory.
    pub fn load_from_memory(&self, address: usize) -> (r: Result<u8, MachineError>)
        ensures
            address < MEMORY_SIZE ==> r == Ok::<u8, MachineError>(self@.memory[address as int]),
            address >= MEMORY_SIZE ==> r == Err::<u8, MachineError>(
                MachineError::InvalidMemoryAddress(address),
            ),
    {
        if address < MEMORY_SIZE {
            Ok(self.memory[address])
        } else {
            Err(MachineError::InvalidMemoryAddress(address))
        }
    }

    /// The kind of the instruction at the instruction pointer.
    pub fn instruction_type(&self) -> (r: Result<InstructionType, MachineError>)
        ensures
            self@.ip() >= MEMORY_SIZE ==> r == Err::<InstructionType, MachineError>(
                MachineError::InvalidMemoryAddress(self@.ip() as usize),
            ),
            self@.ip() < MEMORY_SIZE ==> r == match InstructionType::decode(
                self@.memory[self@.ip() as int],
            ) {
                Some(kind) => Ok::<InstructionType, MachineError>(kind),
                None => Err(MachineError::InvalidInstruction(self@.memory[self@.ip() as int])),
            },
    {
        let opcode = match self.load_from_memory(self.regs[IP] as usize) {
            Ok(opcode) => opcode,
            Err(e) => {
                return Err(e);
            },
        };
        match InstructionType::from_opcode(opcode) {
            Some(kind) => Ok(kind),
            None => Err(MachineError::InvalidInstruction(opcode)),
        }
    }

    /// The length in bytes of an instruction of the given kind.
    pub fn instruction_length(instruction_type: InstructionType) -> (length: usize)
        ensures
            length == instruction_type.length(),
    {
        match instruction_type {
            InstructionType::MoveIf => 4,
            InstructionType::Store => 3,
            InstructionType::Load => 3,
            InstructionType::LoadImm => 4,
            InstructionType::Sub => 4,
            InstructionType::Out => 2,
            InstructionType::Exit => 1,
            InstructionType::OutNumber => 2,
        }
    }

    /// Byte `k` of the instruction of kind `kind` that starts at `pc`.
    fn operand(&self, pc: usize, kind: InstructionType, k: usize) -> (byte: u8)
        requires
            pc + kind.length() <= MEMORY_SIZE,
        ensures
            byte == self@.operand(pc as int, kind, k as int),
    {
        if k < Machine::instruction_length(kind) {
            self.memory[pc + k]
        } else {
            0
        }
    }

    /// Writes `value`, little-endian, to the four bytes at `address`.
    fn store_word(&mut self, address: usize, value: u32)
        requires
            address + 3 < MEMORY_SIZE,
        ensures
            final(self)@ == old(self)@.with_word(address as int, value),
    {
        let b0: u8 = (value & 0xFF) as u8;
        let b1: u8 = ((value >> 8) & 0xFF) as u8;
        let b2: u8 = ((value >> 16) & 0xFF) as u8;
        let b3: u8 = ((value >> 24) & 0xFF) as u8;
        assert(value & 0xFF == value % 256) by (bit_vector);
        assert((value >> 8) & 0xFF == value / 0x100 % 256) by (bit_vector);
        assert((value >> 16) & 0xFF == value / 0x1_0000 % 256) by (bit_vector);
        assert((value >> 24) & 0xFF == value / 0x100_0000 % 256) by (bit_vector);
        self.memory[address] = b0;
        self.memory[address + 1] = b1;
        self.memory[address + 2] = b2;
        self.memory[address + 3] = b3;
        assert(self@.memory =~= old(self)@.with_word(address as int, value).memory);
    }

    /// Reads the little-endian 32-bit value in the four bytes at `address`,
    /// byte by byte, and stops at the first byte beyond memory.
    fn load_word(&self, address: usize) -> (r: Result<u32, MachineError>)
        requires
            address <= u32::MAX,
        ensures
            address + 3 < MEMORY_SIZE ==> r == Ok::<u32, MachineError>(
                self@.word_at(address as int),
            ),
            address >= MEMORY_SIZE ==> r == Err::<u32, MachineError>(
                MachineError::InvalidMemoryAddress(address),
            ),
            address < MEMORY_SIZE <= address + 3 ==> r == Err::<u32, MachineError>(
                MachineError::InvalidMemoryAddress(MEMORY_SIZE),
            ),
    {
        let b0: u8 = self.load_from_memory(address)?;
        let b1: u8 = self.load_from_memory(address + 1)?;
        let b2: u8 = self.load_from_memory(address + 2)?;
        let b3: u8 = self.load_from_memory(address + 3)?;
        let value: u32 = (b0 as u32) | ((b1 as u32) << 8) | ((b2 as u32) << 16) | ((b3 as u32)
            << 24);
        assert((b0 as u32) | ((b1 as u32) << 8) | ((b2 as u32) << 16) | ((b3 as u32) << 24)
            == b0 + b1 * 0x100 + b2 * 0x1_0000 + b3 * 0x100_0000) by (bit_vector);
        Ok(value)
    }

    /// Carries out the instruction at the instruction pointer, but for the
    /// writing of its output, which is handed back to the caller.
    pub fn advance(&mut self) -> (r: Result<Signal, MachineError>)
        ensures
            final(self)@ == old(self)@.step().state,
            outcome_of(r) == old(self)@.step().outcome,
    {
        let kind = self.instruction_type()?;
        let length = Machine::instruction_length(kind);
        let pc: usize = self.regs[IP] as usize;
        let next: usize = match pc.checked_add(length) {
            Some(next) => next,
            None => {
                return Err(MachineError::InsufficientPointerSize);
            },
        };
        if next > MEMORY_SIZE {
            self.regs[IP] = MEMORY_SIZE as u32;
            return Err(MachineError::InvalidMemoryAddress(next));
        }
        let a: u8 = self.operand(pc, kind, 1);
        let b: u8 = self.operand(pc, kind, 2);
        let c: u8 = self.operand(pc, kind, 3);
        self.regs[IP] = next as u32;
        self.execute(kind, a, b, c)
    }

    /// Carries out an instruction of kind `kind` with operand bytes `a`, `b`,
    /// `c`, the instruction pointer being already past it.
    fn execute(&mut self, kind: InstructionType, a: u8, b: u8, c: u8) -> (r: Result<
        Signal,
        MachineError,
    >)
        ensures
            final(self)@ == old(self)@.execute(kind, a, b, c).state,
            outcome_of(r) == old(self)@.execute(kind, a, b, c).outcome,
    {
        match kind {
            InstructionType::MoveIf => {
                self.get_reg(a as usize)?;
                let reg_b = self.get_reg(b as usize)?;
                let reg_c = self.get_reg(c as usize)?;
                if reg_c != 0 {
                    self.regs[a as usize] = reg_b;
                }
                Ok(Signal::Continue)
            },
            InstructionType::Store => {
                let reg_a = self.get_reg(a as usize)?;
                let reg_b = self.get_reg(b as usize)?;
                let address: usize = reg_a as usize;
                let last: usize = match address.checked_add(3) {
                    Some(last) => last,
                    None => {
                        return Err(MachineError::InsufficientPointerSize);
                    },
                };
                if last > MEMORY_SIZE - 1 {
                    return Err(MachineError::InvalidMemoryAddress(last));
                }
                self.store_word(address, reg_b);
                Ok(Signal::Continue)
            },
            InstructionType::Load => {
                self.get_reg(a as usize)?;
                let address: usize = self.get_reg(b as usize)? as usize;
                let reg_a = self.load_word(address)?;
                self.regs[a as usize] = reg_a;
                Ok(Signal::Continue)
            },
            InstructionType::LoadImm => {
                self.get_reg(a as usize)?;
                let imm: u16 = ((c as u16) << 8) | (b as u16);
                let reg_a: u32 = if imm & 0x8000 == 0 {
                    imm as u32
                } else {
                    (imm as u32) | 0xFFFF_0000
                };
                assert(reg_a == sign_extend(b, c)) by (bit_vector)
                    requires
                        imm == ((c as u16) << 8) | (b as u16),
                        reg_a == if imm & 0x8000 == 0 {
                            imm as u32
                        } else {
                            (imm as u32) | 0xFFFF_0000
                        },
                ;
                self.regs[a as usize] = reg_a;
                Ok(Signal::Continue)
            },
            InstructionType::Sub => {
                self.get_reg(a as usize)?;
                let reg_b = self.get_reg(b as usize)?;
                let reg_c = self.get_reg(c as usize)?;
                self.regs[a as usize] = reg_b.wrapping_sub(reg_c);
                Ok(Signal::Continue)
            },
            InstructionType::Out => {
                let reg_a = self.get_reg(a as usize)?;
                let low: u8 = (reg_a & 0xFF) as u8;
                assert(reg_a & 0xFF == reg_a % 256) by (bit_vector);
                Ok(Signal::Output(format_character(low)))
            },
            InstructionType::Exit => Ok(Signal::Halt),
            InstructionType::OutNumber => {
                let reg_a = self.get_reg(a as usize)?;
                let number: i32 = #[verifier::truncate] (reg_a as i32);
                assert(reg_a as i32 == signed(reg_a)) by (bit_vector);
                Ok(Signal::Output(format_decimal(number)))
            },
        }
    }
}

} // verus!
