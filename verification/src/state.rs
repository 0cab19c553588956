//! The mathematical model of the machine and the meaning of its instructions.

use vstd::prelude::*;
use crate::error::MachineError;
use crate::isa::{InstructionType, MEMORY_SIZE, NREGS};
use crate::text::{character, decimal};

verus! {

/// What a machine holds: its memory and its registers.
pub ghost struct MachineState {
    /// The bytes of memory, by address.
    pub memory: Seq<u8>,
    /// The registers, by index; register 0 is the instruction pointer.
    pub regs: Seq<u32>,
}

/// How one instruction ends.
pub ghost enum Outcome {
    /// The instruction is done and wrote nothing.
    Continue,
    /// The instruction is done and asks for these bytes to be written.
    Emit(Seq<u8>),
    /// The program is over.
    Halt,
    /// The instruction was abandoned.
    Fail(MachineError),
}

/// The result of one step: the state it leaves and how it ended.
pub ghost struct Step {
    /// The state after the step.
    pub state: MachineState,
    /// How the step ended.
    pub outcome: Outcome,
}

/// The 16-bit immediate with low byte `low` and high byte `high`,
/// sign-extended to 32 bits.
pub open spec fn sign_extend(low: u8, high: u8) -> u32 {
    let imm = high * 256 + low;
    if imm < 0x8000 {
        imm as u32
    } else {
        (0xFFFF_0000 + imm) as u32
    }
}

/// `x - y` modulo 2^32.
pub open spec fn wrapping_difference(x: u32, y: u32) -> u32 {
    if x >= y {
        (x - y) as u32
    } else {
        (x - y + 0x1_0000_0000) as u32
    }
}

/// Byte `i` of `value`, byte 0 being the least significant.
pub open spec fn byte_of(value: u32, i: int) -> u8 {
    if i == 0 {
        (value % 256) as u8
    } else if i == 1 {
        (value / 0x100 % 256) as u8
    } else if i == 2 {
        (value / 0x1_0000 % 256) as u8
    } else {
        (value / 0x100_0000 % 256) as u8
    }
}

/// The 32-bit value whose bytes, least significant first, are `b0` to `b3`.
pub open spec fn word_of(b0: u8, b1: u8, b2: u8, b3: u8) -> u32 {
    (b0 + b1 * 0x100 + b2 * 0x1_0000 + b3 * 0x100_0000) as u32
}

/// `value` read as a signed 32-bit integer in two's complement.
pub open spec fn signed(value: u32) -> int {
    if value < 0x8000_0000 {
        value as int
    } else {
        value - 0x1_0000_0000
    }
}

impl MachineState {
    /// Memory and registers have their fixed sizes.
    pub open spec fn wf(self) -> bool {
        self.memory.len() == MEMORY_SIZE && self.regs.len() == NREGS
    }

    /// The reset state for a program image: the image at address 0, zeros
    /// after it, and every register zero.
    pub open spec fn initial(image: Seq<u8>) -> MachineState {
        MachineState {
            memory: Seq::new(
                MEMORY_SIZE as nat,
                |i: int| if i < image.len() { image[i] } else { 0u8 },
            ),
            regs: Seq::new(NREGS as nat, |i: int| 0u32),
        }
    }

    /// The instruction pointer.
    pub open spec fn ip(self) -> nat {
        self.regs[0] as nat
    }

    /// This state with register `reg` set to `value`.
    pub open spec fn with_reg(self, reg: int, value: u32) -> MachineState {
        MachineState { memory: self.memory, regs: self.regs.update(reg, value) }
    }

    /// The little-endian 32-bit value in the four bytes at `addr`.
    pub open spec fn word_at(self, addr: int) -> u32 {
        word_of(
            self.memory[addr],
            self.memory[addr + 1],
            self.memory[addr + 2],
            self.memory[addr + 3],
        )
    }

    /// This state with `value` written, little-endian, to the four bytes at
    /// `addr`.
    pub open spec fn with_word(self, addr: int, value: u32) -> MachineState {
        MachineState {
            memory: self.memory.update(addr, byte_of(value, 0)).update(
                addr + 1,
                byte_of(value, 1),
            ).update(addr + 2, byte_of(value, 2)).update(addr + 3, byte_of(value, 3)),
            regs: self.regs,
        }
    }

    /// Byte `k` of the instruction of kind `kind` that starts at `at`, or 0
    /// where the instruction has no such byte.
    pub open spec fn operand(self, at: int, kind: InstructionType, k: int) -> u8 {
        if k < kind.length() {
            self.memory[at + k]
        } else {
            0
        }
    }

    /// The first of the register operands `a`, `b`, `c` of an instruction of
    /// kind `kind` that names no register, if there is one.
    pub open spec fn invalid_operand(kind: InstructionType, a: u8, b: u8, c: u8) -> Option<u8> {
        if kind.register_operands() >= 1 && a >= NREGS {
            Some(a)
        } else if kind.register_operands() >= 2 && b >= NREGS {
            Some(b)
        } else if kind.register_operands() >= 3 && c >= NREGS {
            Some(c)
        } else {
            None
        }
    }

    /// The effect of `store`: the four bytes of `reg[b]` go to the address in
    /// `reg[a]`, if they all lie within memory.
    pub open spec fn store(self, a: int, b: int) -> Step {
        let last = self.regs[a] + 3;
        if last > usize::MAX {
            Step { state: self, outcome: Outcome::Fail(MachineError::InsufficientPointerSize) }
        } else if last > MEMORY_SIZE - 1 {
            Step {
                state: self,
                outcome: Outcome::Fail(MachineError::InvalidMemoryAddress(last as usize)),
            }
        } else {
            Step {
                state: self.with_word(self.regs[a] as int, self.regs[b]),
                outcome: Outcome::Continue,
            }
        }
    }

    /// The effect of `load`: `reg[a]` receives the four bytes at the address
    /// in `reg[b]`; the first of them that lies outside memory is the error.
    pub open spec fn load(self, a: int, b: int) -> Step {
        let addr = self.regs[b];
        if addr >= MEMORY_SIZE {
            Step {
                state: self,
                outcome: Outcome::Fail(MachineError::InvalidMemoryAddress(addr as usize)),
            }
        } else if addr + 3 >= MEMORY_SIZE {
            Step {
                state: self,
                outcome: Outcome::Fail(MachineError::InvalidMemoryAddress(MEMORY_SIZE)),
            }
        } else {
            Step {
                state: self.with_reg(a, self.word_at(addr as int)),
                outcome: Outcome::Continue,
            }
        }
    }

    /// The effect of an instruction of kind `kind` with operand bytes `a`,
    /// `b`, `c` on a state whose instruction pointer is already past it.
    pub open spec fn execute(self, kind: InstructionType, a: u8, b: u8, c: u8) -> Step {
        match Self::invalid_operand(kind, a, b, c) {
            Some(operand) => Step {
                state: self,
                outcome: Outcome::Fail(MachineError::InvalidRegister(operand as usize)),
            },
            None => match kind {
                InstructionType::MoveIf => Step {
                    state: if self.regs[c as int] != 0 {
                        self.with_reg(a as int, self.regs[b as int])
                    } else {
                        self
                    },
                    outcome: Outcome::Continue,
                },
                InstructionType::Store => self.store(a as int, b as int),
                InstructionType::Load => self.load(a as int, b as int),
                InstructionType::LoadImm => Step {
                    state: self.with_reg(a as int, sign_extend(b, c)),
                    outcome: Outcome::Continue,
                },
                InstructionType::Sub => Step {
                    state: self.with_reg(
                        a as int,
                        wrapping_difference(self.regs[b as int], self.regs[c as int]),
                    ),
                    outcome: Outcome::Continue,
                },
                InstructionType::Out => Step {
                    state: self,
                    outcome: Outcome::Emit(character((self.regs[a as int] % 256) as u8)),
                },
                InstructionType::Exit => Step { state: self, outcome: Outcome::Halt },
                InstructionType::OutNumber => Step {
                    state: self,
                    outcome: Outcome::Emit(decimal(signed(self.regs[a as int]))),
                },
            },
        }
    }

    /// One step: decode the instruction at the instruction pointer, move the
    /// pointer past it, then carry it out.
    ///
    /// An instruction pointer outside memory and a byte that is no opcode
    /// leave the state as it is. An instruction that would end beyond memory
    /// leaves the pointer at the end of memory.
    pub open spec fn step(self) -> Step {
        let ip = self.ip() as int;
        if ip >= MEMORY_SIZE {
            Step {
                state: self,
                outcome: Outcome::Fail(MachineError::InvalidMemoryAddress(ip as usize)),
            }
        } else {
            match InstructionType::decode(self.memory[ip]) {
                None => Step {
                    state: self,
                    outcome: Outcome::Fail(MachineError::InvalidInstruction(self.memory[ip])),
                },
                Some(kind) => {
                    let next = ip + kind.length();
                    if next > MEMORY_SIZE {
                        Step {
                            state: self.with_reg(0, MEMORY_SIZE as u32),
                            outcome: Outcome::Fail(
                                MachineError::InvalidMemoryAddress(next as usize),
                            ),
                        }
                    } else {
                        self.with_reg(0, next as u32).execute(
                            kind,
                            self.operand(ip, kind, 1),
                            self.operand(ip, kind, 2),
                            self.operand(ip, kind, 3),
                        )
                    }
                },
            }
        }
    }

    /// The next step neither halts nor fails.
    pub open spec fn continues(self) -> bool {
        self.step().outcome is Continue || self.step().outcome is Emit
    }

    /// The state after `n` steps.
    pub open spec fn after(self, n: nat) -> MachineState
        decreases n,
    {
        if n == 0 {
            self
        } else {
            self.after((n - 1) as nat).step().state
        }
    }

    /// None of the first `n` steps halts or fails.
    pub open spec fn continues_for(self, n: nat) -> bool
        decreases n,
    {
        n == 0 || (self.continues_for((n - 1) as nat) && self.after((n - 1) as nat).continues())
    }

    /// One of the first `n + 1` steps halts or fails.
    pub open spec fn stops_within(self, n: nat) -> bool
        decreases n,
    {
        !self.continues() || (n > 0 && self.step().state.stops_within((n - 1) as nat))
    }
}

} // verus!
