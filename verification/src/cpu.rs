//! The processor: its state, the instruction decoder and the execution loop.
pub mod instruction;
pub mod laws;
pub mod memory;
pub mod state;
pub mod status;

use vstd::prelude::*;
use crate::cpu::instruction::addressing_mode::{lemma_cast_is_signed_byte, IntoAddress, IntoValue};
use crate::cpu::instruction::{AslAddressingMode, Instruction, InstructionError};
use crate::cpu::memory::{CpuMemoryError, Memory};
use crate::cpu::state::CpuState;
use crate::cpu::status::{lemma_bits_are_masked, Flags, Status};

verus! {

/// The number of instructions after which [`Cpu::run`] gives up.
///
/// A program may loop for ever, and a run that is proved to end needs a
/// bound.  This one is out of reach of any run that does end.
pub const RUN_LIMIT: u64 = 0xffff_ffff_ffff_ffff;

/// One of the three general registers.
#[derive(Debug, Clone, Copy, PartialEq, Eq, Structural)]
pub enum Register {
    X,
    Y,
    A,
}

/// The error of a processor operation.
#[derive(Debug)]
pub enum CpuError {
    /// A memory operation failed.
    CpuMemoryError(CpuMemoryError),
    /// The processor met a byte that it cannot decode.
    InstructionError(InstructionError),
    /// The processor executed as many instructions as the run allowed
    /// without reaching a `Break`.
    StepLimitReached,
}

impl From<CpuMemoryError> for CpuError {
    fn from(error: CpuMemoryError) -> (result: CpuError)
        ensures
            result == CpuError::CpuMemoryError(error),
    {
        CpuError::CpuMemoryError(error)
    }
}

impl vstd::std_specs::convert::FromSpecImpl<CpuMemoryError> for CpuError {
    open spec fn obeys_from_spec() -> bool {
        true
    }

    open spec fn from_spec(error: CpuMemoryError) -> CpuError {
        CpuError::CpuMemoryError(error)
    }
}

impl From<InstructionError> for CpuError {
    fn from(error: InstructionError) -> (result: CpuError)
        ensures
            result == CpuError::InstructionError(error),
    {
        CpuError::InstructionError(error)
    }
}

impl vstd::std_specs::convert::FromSpecImpl<InstructionError> for CpuError {
    open spec fn obeys_from_spec() -> bool {
        true
    }

    open spec fn from_spec(error: InstructionError) -> CpuError {
        CpuError::InstructionError(error)
    }
}

/// A left shift by one bit doubles the byte modulo 256.
proof fn lemma_shift_left_doubles(byte: u8)
    by (bit_vector)
    ensures
        (byte << 1u32) as int == (2 * byte) % 0x100,
{
}

/// A 6502 processor with its memory.
#[derive(Debug)]
pub struct Cpu {
    pub register_a: u8,
    pub register_x: u8,
    pub register_y: u8,
    pub stack_pointer: u8,
    pub status: Status,
    pub program_counter: u16,
    pub memory: Memory,
}

impl View for Cpu {
    type V = CpuState;

    open spec fn view(&self) -> CpuState {
        CpuState {
            register_a: self.register_a,
            register_x: self.register_x,
            register_y: self.register_y,
            stack_pointer: self.stack_pointer,
            program_counter: self.program_counter,
            status: self.status@,
            memory: self.memory@,
        }
    }
}

impl Cpu {
    /// A processor in its power-on state: registers, flags and memory zero,
    /// the stack pointer at `0xFF`.
    pub fn new() -> (cpu: Cpu)
        ensures
            cpu@ == CpuState::power_on(),
            cpu.status.unused_bits() == 0,
    {
        Cpu {
            register_a: 0x0,
            register_x: 0x0,
            register_y: 0x0,
            stack_pointer: 0xff,
            status: Status::new(),
            program_counter: 0x0,
            memory: Memory::new(),
        }
    }

    /// Stores `value` in the register that `destination` names.
    pub fn set_register(&mut self, destination: &Register, value: u8)
        ensures
            final(self)@ == old(self)@.set_register(*destination, value),
            final(self).status.unused_bits() == old(self).status.unused_bits(),
    {
        match destination {
            Register::X => self.register_x = value,
            Register::Y => self.register_y = value,
            Register::A => self.register_a = value,
        }
    }

    /// The content of the register that `origin` names.
    pub fn get_register(&self, origin: &Register) -> (value: u8)
        ensures
            value == self@.register(*origin),
    {
        match origin {
            Register::X => self.register_x,
            Register::Y => self.register_y,
            Register::A => self.register_a,
        }
    }

    /// Sets the Zero and Negative flags from a result byte: Zero when the
    /// byte is 0, Negative when its bit 7 is set.
    fn set_zero_and_negative(&mut self, register_value: u8)
        ensures
            final(self)@ == old(self)@.set_zero_and_negative(register_value),
            final(self).status.unused_bits() == old(self).status.unused_bits(),
    {
        proof {
            lemma_bits_are_masked(register_value);
        }
        self.status.set(Flags::Zero, register_value == 0);
        self.status.set(Flags::Negative, register_value & 0b1000_0000 != 0);
    }

    /// Puts the processor in its start state: registers and flags cleared,
    /// the stack pointer at `0xFF`, the program counter taken from the reset
    /// vector at `0xFFFC`.  Memory is kept.  A reset cannot fail.
    pub fn reset(&mut self) -> (result: Result<(), CpuError>)
        ensures
            result is Ok,
            final(self)@ == old(self)@.reset(),
            final(self).status.unused_bits() == 0,
    {
        self.register_a = 0;
        self.register_x = 0;
        self.register_y = 0;
        self.stack_pointer = 0xff;
        self.status = Status::new();

        self.program_counter = self.memory.read_u16(0xFFFC);
        Ok(())
    }

    /// Loads `program` at `0x8000`, resets the processor and runs it.
    pub fn load_and_run(&mut self, program: &[u8]) -> (result: Result<(), CpuError>)
        ensures
            (final(self)@, result) == old(self)@.load_and_run(program@),
            final(self).status.unused_bits() == (if program@.len() <= 0x8000 {
                0
            } else {
                old(self).status.unused_bits()
            }),
    {
        match self.load(program) {
            Ok(()) => {},
            Err(error) => {
                return Err(error);
            },
        }
        let _ = self.reset();
        self.run()
    }

    /// Loads `program` at `0x8000`, resets the processor and runs the
    /// program from its first byte, whatever the reset vector holds.
    pub fn load_and_run_test(&mut self, program: &[u8]) -> (result: Result<(), CpuError>)
        ensures
            (final(self)@, result) == old(self)@.load_and_run_test(program@),
            final(self).status.unused_bits() == (if program@.len() <= 0x8000 {
                0
            } else {
                old(self).status.unused_bits()
            }),
    {
        match self.load(program) {
            Ok(()) => {},
            Err(error) => {
                return Err(error);
            },
        }
        let _ = self.reset();
        self.program_counter = 0x8000;
        self.run()
    }

    /// Copies `program` to `0x8000`.
    ///
    /// Fails, and changes nothing, when the program is longer than the
    /// 32 KiB from there to the end of memory.
    pub fn load(&mut self, program: &[u8]) -> (result: Result<(), CpuError>)
        ensures
            result is Ok <==> program@.len() <= 0x8000,
            result is Ok ==> final(self)@ == old(self)@.load(program@),
            result is Err ==> result == Err::<(), CpuError>(
                CpuError::CpuMemoryError(CpuMemoryError::IndexOutOfBounds { address: 0x8000 }),
            ),
            result is Err ==> final(self)@ == old(self)@,
            final(self).status.unused_bits() == old(self).status.unused_bits(),
    {
        match self.memory.load(0x8000, program) {
            Ok(()) => Ok(()),
            Err(error) => Err(CpuError::from(error)),
        }
    }

    /// Add with carry: adds `value` and the Carry flag to the accumulator.
    fn add_with_carry(&mut self, value: u8)
        ensures
            final(self)@ == old(self)@.add_with_carry(value),
            final(self).status.unused_bits() == old(self).status.unused_bits(),
    {
        let carry: u8 = if self.status.get(Flags::Carry) {
            1
        } else {
            0
        };

        let sum: u16 = self.register_a as u16 + value as u16 + carry as u16;
        let carry_flag = sum > 0xff;

        proof {
            lemma_cast_is_signed_byte(self.register_a);
            lemma_cast_is_signed_byte(value);
        }
        let signed_sum: i16 = (self.register_a as i8) as i16 + (value as i8) as i16 + carry as i16;
        let overflow_flag = signed_sum < -128 || signed_sum > 127;

        let value = (sum % 0x100) as u8;
        self.register_a = value;

        self.status.set(Flags::Overflow, overflow_flag);
        self.status.set(Flags::Carry, carry_flag);
        self.set_zero_and_negative(value);
    }

    /// Arithmetic shift left of the accumulator or of a byte in memory.
    fn shift_left(&mut self, addressing_mode: AslAddressingMode)
        ensures
            final(self)@ == old(self)@.execute(Instruction::Asl { addressing_mode }),
            final(self).status.unused_bits() == old(self).status.unused_bits(),
    {
        let value = match addressing_mode {
            AslAddressingMode::Accumulator { mode: _ } => self.register_a,
            AslAddressingMode::AslAddressAddressingMode { mode } => mode.into_value(self),
        };

        proof {
            lemma_bits_are_masked(value);
            lemma_shift_left_doubles(value);
        }
        self.status.set(Flags::Carry, value & 0b1000_0000 != 0);
        let value = value.wrapping_shl(1);
        self.set_zero_and_negative(value);

        match addressing_mode {
            AslAddressingMode::Accumulator { mode: _ } => {
                self.register_a = value;
            },
            AslAddressingMode::AslAddressAddressingMode { mode } => {
                let address = mode.into_address(self);
                self.memory.write(address, value);
            },
        };
    }

    /// Bit test of `value` against the accumulator.
    fn bit_test(&mut self, value: u8)
        ensures
            final(self)@ == old(self)@.bit_test(value),
            final(self).status.unused_bits() == old(self).status.unused_bits(),
    {
        proof {
            lemma_bits_are_masked(value);
        }
        self.status.set(Flags::Negative, value & 0b1000_0000 != 0);
        self.status.set(Flags::Overflow, value & 0b0100_0000 != 0);
        self.status.set(Flags::Zero, self.register_a & value == 0);
    }

    /// Compares a register with `value`.
    fn compare(&mut self, register: Register, value: u8)
        ensures
            final(self)@ == old(self)@.compare(register, value),
            final(self).status.unused_bits() == old(self).status.unused_bits(),
    {
        let content = self.get_register(&register);
        let result = content.wrapping_sub(value);
        self.set_zero_and_negative(result);
        self.status.set(Flags::Carry, content >= value);
    }

    /// Writes `value` to a register and sets Zero and Negative from it.
    fn load_register(&mut self, destination: Register, value: u8)
        ensures
            final(self)@ == old(self)@.load_register(destination, value),
            final(self).status.unused_bits() == old(self).status.unused_bits(),
    {
        self.set_register(&destination, value);
        self.set_zero_and_negative(value);
    }

    /// Executes one decoded instruction.  The program counter already points
    /// past it.
    pub fn execute(&mut self, instruction: Instruction)
        ensures
            final(self)@ == old(self)@.execute(instruction),
            final(self).status.unused_bits() == old(self).status.unused_bits(),
    {
        match instruction {
            Instruction::Adc { addressing_mode } => {
                let value = addressing_mode.into_value(self);
                self.add_with_carry(value);
            },
            Instruction::And { addressing_mode } => {
                let value = addressing_mode.into_value(self);
                let value = self.register_a & value;
                self.load_register(Register::A, value);
            },
            Instruction::Asl { addressing_mode } => self.shift_left(addressing_mode),
            Instruction::Branch { addressing_mode, flag, branch_if } => {
                if self.status.get(flag) == branch_if {
                    let new_address = addressing_mode.into_address(self);
                    self.program_counter = new_address;
                }
            },
            Instruction::Bit { addressing_mode } => {
                let value = addressing_mode.into_value(self);
                self.bit_test(value);
            },
            Instruction::Break => {},
            Instruction::Clear { flag } => self.status.set(flag, false),
            Instruction::Cmp { register, addressing_mode } => {
                let value = addressing_mode.into_value(self);
                self.compare(register, value);
            },
            Instruction::Ld { destination, addressing_mode } => {
                let value = addressing_mode.into_value(self);
                self.load_register(destination, value);
            },
            Instruction::Trr { origin, destination } => {
                let value = self.get_register(&origin);
                self.load_register(destination, value);
            },
            Instruction::In { destination } => {
                let value = self.get_register(&destination);
                let value = value.wrapping_add(1);
                self.load_register(destination, value);
            },
        }
    }

    /// Decodes the instruction at the program counter, steps over it and
    /// executes it.
    ///
    /// Returns whether the instruction was a `Break`.  Where the byte at the
    /// program counter is no opcode, the processor is left as it was and the
    /// decoder's error is returned.
    pub fn step(&mut self) -> (result: Result<bool, CpuError>)
        ensures
            (final(self)@, result) == old(self)@.step(),
            final(self).status.unused_bits() == old(self).status.unused_bits(),
    {
        let (instruction, program_counter) = match Instruction::get_instruction(
            &self.memory,
            &self.program_counter,
        ) {
            Ok(decoded) => decoded,
            Err(error) => {
                return Err(CpuError::from(error));
            },
        };
        self.program_counter = program_counter;
        let halted = match instruction {
            Instruction::Break => true,
            _ => false,
        };
        self.execute(instruction);
        Ok(halted)
    }

    /// Decodes and executes at most `limit` instructions, ending with the
    /// first that is a `Break` or that the decoder fails on.
    ///
    /// A `Break` ends the run with `Ok`; it is the processor's clean halt.
    /// An error ends it with the state as it was when the error arose.  After
    /// `limit` instructions without either, the run ends with
    /// [`CpuError::StepLimitReached`] and can be taken up again.
    pub fn run_for(&mut self, limit: u64) -> (result: Result<(), CpuError>)
        ensures
            (final(self)@, result) == old(self)@.run(limit as nat),
            final(self).status.unused_bits() == old(self).status.unused_bits(),
    {
        let mut steps: u64 = 0;
        while steps < limit
            invariant
                steps <= limit,
                self@.run((limit - steps) as nat) == old(self)@.run(limit as nat),
                self.status.unused_bits() == old(self).status.unused_bits(),
            decreases limit - steps,
        {
            match self.step() {
                Ok(true) => {
                    return Ok(());
                },
                Ok(false) => {},
                Err(error) => {
                    return Err(error);
                },
            }
            steps += 1;
        }
        Err(CpuError::StepLimitReached)
    }

    /// Decodes and executes instructions until a `Break` has been executed
    /// or the decoder fails: [`Cpu::run_for`] with [`RUN_LIMIT`] as the
    /// limit.
    pub fn run(&mut self) -> (result: Result<(), CpuError>)
        ensures
            (final(self)@, result) == old(self)@.run(RUN_LIMIT as nat),
            final(self).status.unused_bits() == old(self).status.unused_bits(),
    {
        self.run_for(RUN_LIMIT)
    }
}

} // verus!
