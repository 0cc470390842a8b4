//! The mathematical model of the processor: its registers, its six flags
//! and its memory as plain values, and what every instruction does to them.
use vstd::prelude::*;
use crate::cpu::instruction::addressing_mode::{signed_byte, IntoAddress, IntoValue};
use crate::cpu::instruction::{decode_spec, AslAddressingMode, Instruction};
use crate::cpu::memory::{load_spec, read_u16_spec, CpuMemoryError};
use crate::cpu::status::{bit_6, bit_7, StatusView};
use crate::cpu::{CpuError, Register, RUN_LIMIT};

verus! {

/// The architectural state of a processor.
pub struct CpuState {
    pub register_a: u8,
    pub register_x: u8,
    pub register_y: u8,
    pub stack_pointer: u8,
    pub program_counter: u16,
    pub status: StatusView,
    /// The 65 536 bytes of the address space.
    pub memory: Seq<u8>,
}

/// The byte shifted left by one bit; the bit that leaves at the top is lost.
pub open spec fn shifted_left(byte: u8) -> u8 {
    ((2 * byte) % 0x100) as u8
}

impl CpuState {
    /// The power-on state: registers, flags and memory zero, the stack
    /// pointer at `0xFF`.
    pub open spec fn power_on() -> CpuState {
        CpuState {
            register_a: 0,
            register_x: 0,
            register_y: 0,
            stack_pointer: 0xff,
            program_counter: 0,
            status: StatusView::cleared(),
            memory: Seq::new(0x10000, |i: int| 0u8),
        }
    }

    /// The content of one of the three general registers.
    pub open spec fn register(self, register: Register) -> u8 {
        match register {
            Register::X => self.register_x,
            Register::Y => self.register_y,
            Register::A => self.register_a,
        }
    }

    /// The state with one general register replaced.
    pub open spec fn set_register(self, register: Register, value: u8) -> CpuState {
        match register {
            Register::X => CpuState { register_x: value, ..self },
            Register::Y => CpuState { register_y: value, ..self },
            Register::A => CpuState { register_a: value, ..self },
        }
    }

    /// The state with the Zero and Negative flags set from a result byte.
    pub open spec fn set_zero_and_negative(self, result: u8) -> CpuState {
        CpuState { status: self.status.set_zero_and_negative(result), ..self }
    }

    /// The state after a reset: registers and flags cleared, the stack
    /// pointer at `0xFF`, and the program counter taken from the reset vector
    /// at `0xFFFC`.
    pub open spec fn reset(self) -> CpuState {
        CpuState {
            register_a: 0,
            register_x: 0,
            register_y: 0,
            stack_pointer: 0xff,
            program_counter: read_u16_spec(self.memory, 0xFFFC),
            status: StatusView::cleared(),
            memory: self.memory,
        }
    }

    /// The state with a program copied to `0x8000`.
    pub open spec fn load(self, program: Seq<u8>) -> CpuState {
        CpuState { memory: load_spec(self.memory, 0x8000, program), ..self }
    }

    /// The state with the program counter replaced.
    pub open spec fn at(self, program_counter: u16) -> CpuState {
        CpuState { program_counter, ..self }
    }

    /// `value` written to a register, and Zero and Negative set from it.
    pub open spec fn load_register(self, destination: Register, value: u8) -> CpuState {
        self.set_register(destination, value).set_zero_and_negative(value)
    }

    /// Add with carry: the accumulator receives `A + value + Carry` modulo
    /// 256.  Carry tells whether the unsigned sum passed 255, Overflow
    /// whether the sum of the same bytes read as signed numbers left the
    /// range from -128 to 127.
    pub open spec fn add_with_carry(self, value: u8) -> CpuState {
        let carry_in: int = if self.status.carry { 1 } else { 0 };
        let sum = self.register_a + value + carry_in;
        let signed_sum = signed_byte(self.register_a) + signed_byte(value) + carry_in;
        let result = (sum % 0x100) as u8;
        CpuState {
            register_a: result,
            status: StatusView {
                carry: sum > 0xff,
                overflow: signed_sum < -128 || signed_sum > 127,
                ..self.status
            }.set_zero_and_negative(result),
            ..self
        }
    }

    /// Bit-wise and of the accumulator with `value`.
    pub open spec fn and(self, value: u8) -> CpuState {
        self.load_register(Register::A, self.register_a & value)
    }

    /// The flags after `source` has been shifted left: Carry receives its
    /// bit 7, Zero and Negative follow the shifted byte.
    pub open spec fn shift_flags(self, source: u8) -> StatusView {
        StatusView { carry: bit_7(source), ..self.status }.set_zero_and_negative(
            shifted_left(source),
        )
    }

    /// Arithmetic shift left of the accumulator.
    pub open spec fn shift_accumulator_left(self) -> CpuState {
        CpuState {
            register_a: shifted_left(self.register_a),
            status: self.shift_flags(self.register_a),
            ..self
        }
    }

    /// Arithmetic shift left of the byte at `address`.
    pub open spec fn shift_memory_left(self, address: u16) -> CpuState {
        let source = self.memory[address as int];
        CpuState {
            memory: self.memory.update(address as int, shifted_left(source)),
            status: self.shift_flags(source),
            ..self
        }
    }

    /// Bit test: Negative and Overflow receive bits 7 and 6 of `value`, Zero
    /// tells whether the accumulator and `value` have no bit in common.
    pub open spec fn bit_test(self, value: u8) -> CpuState {
        CpuState {
            status: StatusView {
                negative: bit_7(value),
                overflow: bit_6(value),
                zero: self.register_a & value == 0,
                ..self.status
            },
            ..self
        }
    }

    /// Compare: Zero and Negative follow `register - value` modulo 256, Carry
    /// tells whether the register is at least `value`.  No register changes.
    pub open spec fn compare(self, register: Register, value: u8) -> CpuState {
        let content = self.register(register);
        let difference = ((content - value) % 0x100) as u8;
        CpuState {
            status: StatusView { carry: content >= value, ..self.status }.set_zero_and_negative(
                difference,
            ),
            ..self
        }
    }

    /// The state after `instruction` has been executed.  The program counter
    /// of `self` already points past the instruction.
    pub open spec fn execute(self, instruction: Instruction) -> CpuState {
        match instruction {
            Instruction::Break => self,
            Instruction::Adc { addressing_mode } => self.add_with_carry(
                addressing_mode.effective_value(self),
            ),
            Instruction::And { addressing_mode } => self.and(addressing_mode.effective_value(self)),
            Instruction::Asl { addressing_mode } => match addressing_mode {
                AslAddressingMode::Accumulator { .. } => self.shift_accumulator_left(),
                AslAddressingMode::AslAddressAddressingMode { mode } => self.shift_memory_left(
                    mode.effective_address(self),
                ),
            },
            Instruction::Branch { addressing_mode, flag, branch_if } => {
                if self.status.get(flag) == branch_if {
                    CpuState { program_counter: addressing_mode.effective_address(self), ..self }
                } else {
                    self
                }
            },
            Instruction::Bit { addressing_mode } => self.bit_test(
                addressing_mode.effective_value(self),
            ),
            Instruction::Clear { flag } => CpuState {
                status: self.status.set(flag, false),
                ..self
            },
            Instruction::Cmp { register, addressing_mode } => self.compare(
                register,
                addressing_mode.effective_value(self),
            ),
            Instruction::Ld { destination, addressing_mode } => self.load_register(
                destination,
                addressing_mode.effective_value(self),
            ),
            Instruction::Trr { origin, destination } => self.load_register(
                destination,
                self.register(origin),
            ),
            Instruction::In { destination } => self.load_register(
                destination,
                ((self.register(destination) + 1) % 0x100) as u8,
            ),
        }
    }

    /// One pass of the processor: decode the instruction at the program
    /// counter, step over it and execute it.
    ///
    /// The second component tells how the pass ended: `Ok(true)` after a
    /// `Break`, `Ok(false)` after any other instruction, and the decoder's
    /// error, with the state untouched, where there is no instruction to
    /// decode.
    pub open spec fn step(self) -> (CpuState, Result<bool, CpuError>) {
        match decode_spec(self.memory, self.program_counter) {
            Ok((instruction, next)) => (
                self.at(next).execute(instruction),
                Ok(instruction is Break),
            ),
            Err(error) => (self, Err(CpuError::InstructionError(error))),
        }
    }

    /// At most `limit` passes of the processor, ending with the first that
    /// executes a `Break` or fails.
    pub open spec fn run(self, limit: nat) -> (CpuState, Result<(), CpuError>)
        decreases limit,
    {
        if limit == 0 {
            (self, Err(CpuError::StepLimitReached))
        } else {
            let (next, outcome) = self.step();
            match outcome {
                Ok(false) => next.run((limit - 1) as nat),
                Ok(true) => (next, Ok(())),
                Err(error) => (next, Err(error)),
            }
        }
    }

    /// A program loaded at `0x8000` and run after a reset, from the address
    /// in the reset vector.  A program that does not fit is not loaded, and
    /// nothing runs.
    pub open spec fn load_and_run(self, program: Seq<u8>) -> (CpuState, Result<(), CpuError>) {
        if program.len() <= 0x8000 {
            self.load(program).reset().run(RUN_LIMIT as nat)
        } else {
            (
                self,
                Err(CpuError::CpuMemoryError(CpuMemoryError::IndexOutOfBounds { address: 0x8000 })),
            )
        }
    }

    /// A program loaded at `0x8000` and run after a reset, from `0x8000`.  A
    /// program that does not fit is not loaded, and nothing runs.
    pub open spec fn load_and_run_test(self, program: Seq<u8>) -> (
        CpuState,
        Result<(), CpuError>,
    ) {
        if program.len() <= 0x8000 {
            self.load(program).reset().at(0x8000).run(RUN_LIMIT as nat)
        } else {
            (
                self,
                Err(CpuError::CpuMemoryError(CpuMemoryError::IndexOutOfBounds { address: 0x8000 })),
            )
        }
    }
}

} // verus!
