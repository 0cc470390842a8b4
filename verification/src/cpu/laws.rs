//! Laws of the instruction set: what holds of every state and every operand
//! when an instruction executes.
use vstd::prelude::*;
use crate::cpu::instruction::addressing_mode::{
    signed_byte, IntoAddress, IntoValue, Relative, ZeroPageX, ZeroPageY,
};
use crate::cpu::instruction::{
    AdcAddressingMode, AslAddressingMode, CmpAddressingMode, Instruction,
};
use crate::cpu::state::{shifted_left, CpuState};
use crate::cpu::status::{bit_7, Flags};
use crate::cpu::{CpuError, Register};

verus! {

/// The byte from which `instruction` sets the Zero and Negative flags in
/// state `cpu`, for the instructions that set the two flags from their
/// result; `None` for the others.
pub open spec fn result_byte(cpu: CpuState, instruction: Instruction) -> Option<u8> {
    match instruction {
        Instruction::Adc { addressing_mode } => Some(
            ((cpu.register_a + addressing_mode.effective_value(cpu) + (if cpu.status.carry {
                1int
            } else {
                0int
            })) % 0x100) as u8,
        ),
        Instruction::And { addressing_mode } => Some(
            cpu.register_a & addressing_mode.effective_value(cpu),
        ),
        Instruction::Asl { addressing_mode } => match addressing_mode {
            AslAddressingMode::Accumulator { .. } => Some(shifted_left(cpu.register_a)),
            AslAddressingMode::AslAddressAddressingMode { mode } => Some(
                shifted_left(mode.effective_value(cpu)),
            ),
        },
        Instruction::Cmp { register, addressing_mode } => Some(
            ((cpu.register(register) - addressing_mode.effective_value(cpu)) % 0x100) as u8,
        ),
        Instruction::Ld { addressing_mode, .. } => Some(addressing_mode.effective_value(cpu)),
        Instruction::Trr { origin, .. } => Some(cpu.register(origin)),
        Instruction::In { destination } => Some(((cpu.register(destination) + 1) % 0x100) as u8),
        Instruction::Break
        | Instruction::Branch { .. }
        | Instruction::Bit { .. }
        | Instruction::Clear { .. } => None,
    }
}

/// After an instruction that sets Zero and Negative from its result, Zero
/// tells whether the result is 0 and Negative is bit 7 of the result.
pub proof fn lemma_zero_and_negative_follow_result(cpu: CpuState, instruction: Instruction)
    ensures
        result_byte(cpu, instruction) matches Some(result) ==> {
            let after = cpu.execute(instruction);
            &&& after.status.get(Flags::Zero) == (result == 0)
            &&& after.status.get(Flags::Negative) == bit_7(result)
        },
{
}

/// Add with carry.  With `sum` the accumulator plus the operand plus the
/// Carry flag, the accumulator receives `sum` modulo 256 and Carry tells
/// whether `sum` passed 255.  Overflow tells whether the same sum over the
/// bytes read as signed numbers left the range of a signed byte, which is
/// the case exactly when both have the same sign and the result has the
/// other.  No other register and no byte of memory changes.
pub proof fn lemma_add_with_carry(cpu: CpuState, addressing_mode: AdcAddressingMode)
    ensures
        ({
            let operand = addressing_mode.effective_value(cpu);
            let carry_in: int = if cpu.status.carry { 1 } else { 0 };
            let sum = cpu.register_a + operand + carry_in;
            let signed_sum = signed_byte(cpu.register_a) + signed_byte(operand) + carry_in;
            let after = cpu.execute(Instruction::Adc { addressing_mode });
            &&& after.register_a == sum % 0x100
            &&& after.status.get(Flags::Carry) == (sum > 0xff)
            &&& after.status.get(Flags::Overflow) == !(-128 <= signed_sum <= 127)
            &&& after.status.get(Flags::Overflow) == ((cpu.register_a >= 0x80) == (operand >= 0x80)
                && (after.register_a >= 0x80) != (cpu.register_a >= 0x80))
            &&& after.register_x == cpu.register_x
            &&& after.register_y == cpu.register_y
            &&& after.memory == cpu.memory
        }),
{
}

/// Compare.  Carry tells whether the register is at least the operand
/// (unsigned), Zero whether the two are equal, and Negative is bit 7 of
/// their difference modulo 256.  No register and no byte of memory changes.
pub proof fn lemma_compare(cpu: CpuState, register: Register, addressing_mode: CmpAddressingMode)
    ensures
        ({
            let content = cpu.register(register);
            let operand = addressing_mode.effective_value(cpu);
            let difference = ((content - operand) % 0x100) as u8;
            let after = cpu.execute(Instruction::Cmp { register, addressing_mode });
            &&& after.status.get(Flags::Carry) == (content >= operand)
            &&& after.status.get(Flags::Zero) == (content == operand)
            &&& after.status.get(Flags::Negative) == bit_7(difference)
            &&& after.register_a == cpu.register_a
            &&& after.register_x == cpu.register_x
            &&& after.register_y == cpu.register_y
            &&& after.memory == cpu.memory
        }),
{
}

/// Branch.  Where the flag has the value that the branch asks for, the
/// program counter moves by the signed offset, modulo 65 536, from where it
/// stood after the branch was decoded; otherwise it stays there.  Nothing
/// else changes.
pub proof fn lemma_branch(cpu: CpuState, offset: i8, flag: Flags, branch_if: bool)
    ensures
        ({
            let after = cpu.execute(
                Instruction::Branch { addressing_mode: Relative { offset }, flag, branch_if },
            );
            &&& cpu.status.get(flag) == branch_if ==> after.program_counter == (cpu.program_counter
                + offset) % 0x10000
            &&& cpu.status.get(flag) != branch_if ==> after.program_counter == cpu.program_counter
            &&& after == cpu.at(after.program_counter)
        }),
{
}

/// Zero-page indexing wraps.  The operand byte plus the index register,
/// modulo 256, is the address: it never leaves the zero page, and the value
/// is the byte there.
pub proof fn lemma_zero_page_indexing_wraps(cpu: CpuState, address: u8)
    ensures
        ({
            let by_x = ZeroPageX { address };
            let by_y = ZeroPageY { address };
            &&& by_x.effective_address(cpu) == (address + cpu.register_x) % 0x100
            &&& by_y.effective_address(cpu) == (address + cpu.register_y) % 0x100
            &&& by_x.effective_value(cpu) == cpu.memory[(address + cpu.register_x) % 0x100]
            &&& by_y.effective_value(cpu) == cpu.memory[(address + cpu.register_y) % 0x100]
        }),
{
}

/// Clear.  The flag is clear afterwards and no other flag has changed.
pub proof fn lemma_clear(cpu: CpuState, flag: Flags, other: Flags)
    ensures
        !cpu.execute(Instruction::Clear { flag }).status.get(flag),
        other != flag ==> cpu.execute(Instruction::Clear { flag }).status.get(other)
            == cpu.status.get(other),
{
}

/// What no instruction touches.  The stack pointer stays as it is, memory
/// keeps its size, and but for a shift of a byte in memory, which changes
/// that byte alone, memory stays as it is.  Only a branch moves the program
/// counter.
pub proof fn lemma_execute_frame(cpu: CpuState, instruction: Instruction)
    requires
        cpu.memory.len() == 0x10000,
    ensures
        ({
            let after = cpu.execute(instruction);
            &&& after.stack_pointer == cpu.stack_pointer
            &&& after.memory.len() == 0x10000
            &&& instruction matches Instruction::Asl {
                addressing_mode: AslAddressingMode::AslAddressAddressingMode { mode },
            } ==> forall|address: int|
                0 <= address < 0x10000 && address != mode.effective_address(cpu)
                    ==> after.memory[address] == cpu.memory[address]
            &&& !(instruction matches Instruction::Asl {
                addressing_mode: AslAddressingMode::AslAddressAddressingMode { .. },
            }) ==> after.memory == cpu.memory
            &&& instruction !is Branch ==> after.program_counter == cpu.program_counter
        }),
{
}

/// A run that ends within its limit, on a `Break` or on an error of the
/// decoder, ends in the same state and with the same result under every
/// larger limit: the limit decides nothing about a run that it does not cut
/// short.
pub proof fn lemma_run_within_limit(cpu: CpuState, limit: nat, larger: nat)
    requires
        limit <= larger,
        cpu.run(limit).1 != Err::<(), CpuError>(CpuError::StepLimitReached),
    ensures
        cpu.run(larger) == cpu.run(limit),
    decreases limit,
{
    if limit > 0 {
        let (next, outcome) = cpu.step();
        if outcome == Ok::<bool, CpuError>(false) {
            lemma_run_within_limit(next, (limit - 1) as nat, (larger - 1) as nat);
        }
    }
}

} // verus!
