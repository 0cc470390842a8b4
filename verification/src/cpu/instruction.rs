//! Machine instructions: their decoded form and the decoder.
//!
//! Every instruction family accepts its own set of addressing modes, and each
//! set is a type of its own, so that an instruction with a mode that the
//! processor does not have cannot be written down.
pub mod addressing_mode;
pub mod opcodes;

use vstd::prelude::*;
use crate::cpu::instruction::addressing_mode as AM;
use crate::cpu::instruction::addressing_mode::{signed_byte, IntoAddress, IntoValue};
use crate::cpu::instruction::opcodes::{
    ADC_IMMEDIATE, ADC_ZERO_PAGE, ADC_ZERO_PAGE_X, ADC_ABSOLUTE, ADC_ABSOLUTE_X, ADC_ABSOLUTE_Y,
    ADC_INDIRECT_X, ADC_INDIRECT_Y, AND_IMMEDIATE, AND_ZERO_PAGE, AND_ZERO_PAGE_X, AND_ABSOLUTE,
    AND_ABSOLUTE_X, AND_ABSOLUTE_Y, AND_INDIRECT_X, AND_INDIRECT_Y, ASL_ACCUMULATOR,
    ASL_ZERO_PAGE, ASL_ZERO_PAGE_X, ASL_ABSOLUTE, ASL_ABSOLUTE_X, BCC, BCS, BEQ, BIT_ZERO_PAGE,
    BIT_ABSOLUTE, BMI, BNE, BPL, BRK, BVC, BVS, CLC, CLD, CLI, CLV, CMP_IMMEDIATE, CMP_ZERO_PAGE,
    CMP_ZERO_PAGE_X, CMP_ABSOLUTE, CMP_ABSOLUTE_X, CMP_ABSOLUTE_Y, CMP_INDIRECT_X, CMP_INDIRECT_Y,
    CPX_IMMEDIATE, CPX_ZERO_PAGE, CPX_ABSOLUTE, CPY_IMMEDIATE, CPY_ZERO_PAGE, CPY_ABSOLUTE,
    LDA_IMMEDIATE, LDA_ZERO_PAGE, LDA_ZERO_PAGE_X, LDA_ABSOLUTE, LDA_ABSOLUTE_X, LDA_ABSOLUTE_Y,
    LDA_INDIRECT_X, LDA_INDIRECT_Y, LDX_IMMEDIATE, LDX_ZERO_PAGE, LDX_ZERO_PAGE_Y, LDX_ABSOLUTE,
    LDX_ABSOLUTE_Y, LDY_IMMEDIATE, LDY_ZERO_PAGE, LDY_ZERO_PAGE_X, LDY_ABSOLUTE, LDY_ABSOLUTE_X,
    TAX, INX,
};
use crate::cpu::memory::{address_after, read_u16_spec, CpuMemoryError, Memory};
use crate::cpu::state::CpuState;
use crate::cpu::status::Flags;
use crate::cpu::{Cpu, Register};

verus! {

/// The addressing modes of the add-with-carry instructions that designate a
/// place in memory.
#[derive(Debug, Clone, Copy)]
#[allow(inconsistent_fields)]
pub enum AdcAddressAddressingMode {
    ZeroPage { mode: AM::ZeroPage },
    ZeroPageX { mode: AM::ZeroPageX },
    Absolute { mode: AM::Absolute },
    AbsoluteX { mode: AM::AbsoluteX },
    AbsoluteY { mode: AM::AbsoluteY },
    IndirectX { mode: AM::IndirectX },
    IndirectY { mode: AM::IndirectY },
}

impl IntoAddress for AdcAddressAddressingMode {
    open spec fn effective_address(&self, cpu: CpuState) -> u16 {
        match self {
            Self::ZeroPage { mode } => mode.effective_address(cpu),
            Self::ZeroPageX { mode } => mode.effective_address(cpu),
            Self::Absolute { mode } => mode.effective_address(cpu),
            Self::AbsoluteX { mode } => mode.effective_address(cpu),
            Self::AbsoluteY { mode } => mode.effective_address(cpu),
            Self::IndirectX { mode } => mode.effective_address(cpu),
            Self::IndirectY { mode } => mode.effective_address(cpu),
        }
    }

    fn into_address(&self, cpu: &Cpu) -> (address: u16) {
        let result = match self {
            Self::ZeroPage { mode } => mode.into_address(cpu),
            Self::ZeroPageX { mode } => mode.into_address(cpu),
            Self::Absolute { mode } => mode.into_address(cpu),
            Self::AbsoluteX { mode } => mode.into_address(cpu),
            Self::AbsoluteY { mode } => mode.into_address(cpu),
            Self::IndirectX { mode } => mode.into_address(cpu),
            Self::IndirectY { mode } => mode.into_address(cpu),
        };
        result
    }
}

impl AdcAddressAddressingMode {
    /// The operand bytes that follow the opcode.
    pub open spec fn operand(self) -> Seq<u8> {
        match self {
            Self::ZeroPage { mode } => mode.operand(),
            Self::ZeroPageX { mode } => mode.operand(),
            Self::Absolute { mode } => mode.operand(),
            Self::AbsoluteX { mode } => mode.operand(),
            Self::AbsoluteY { mode } => mode.operand(),
            Self::IndirectX { mode } => mode.operand(),
            Self::IndirectY { mode } => mode.operand(),
        }
    }
}

/// The addressing modes of the add-with-carry instructions.
#[derive(Debug, Clone, Copy)]
#[allow(inconsistent_fields)]
pub enum AdcAddressingMode {
    Immediate { mode: AM::Immediate },
    AdcAddressAddressingMode { mode: AdcAddressAddressingMode },
}

impl IntoValue for AdcAddressingMode {
    open spec fn effective_value(&self, cpu: CpuState) -> u8 {
        match self {
            Self::Immediate { mode } => mode.effective_value(cpu),
            Self::AdcAddressAddressingMode { mode } => mode.effective_value(cpu),
        }
    }

    fn into_value(&self, cpu: &Cpu) -> (value: u8) {
        let result = match self {
            Self::Immediate { mode } => mode.into_value(cpu),
            Self::AdcAddressAddressingMode { mode } => mode.into_value(cpu),
        };
        result
    }
}

impl AdcAddressingMode {
    /// The operand bytes that follow the opcode.
    pub open spec fn operand(self) -> Seq<u8> {
        match self {
            Self::Immediate { mode } => mode.operand(),
            Self::AdcAddressAddressingMode { mode } => mode.operand(),
        }
    }
}

/// The addressing modes of the bit-wise and instructions that designate a
/// place in memory.
#[derive(Debug, Clone, Copy)]
#[allow(inconsistent_fields)]
pub enum AndAddressAddressingMode {
    ZeroPage { mode: AM::ZeroPage },
    ZeroPageX { mode: AM::ZeroPageX },
    Absolute { mode: AM::Absolute },
    AbsoluteX { mode: AM::AbsoluteX },
    AbsoluteY { mode: AM::AbsoluteY },
    IndirectX { mode: AM::IndirectX },
    IndirectY { mode: AM::IndirectY },
}

impl IntoAddress for AndAddressAddressingMode {
    open spec fn effective_address(&self, cpu: CpuState) -> u16 {
        match self {
            Self::ZeroPage { mode } => mode.effective_address(cpu),
            Self::ZeroPageX { mode } => mode.effective_address(cpu),
            Self::Absolute { mode } => mode.effective_address(cpu),
            Self::AbsoluteX { mode } => mode.effective_address(cpu),
            Self::AbsoluteY { mode } => mode.effective_address(cpu),
            Self::IndirectX { mode } => mode.effective_address(cpu),
            Self::IndirectY { mode } => mode.effective_address(cpu),
        }
    }

    fn into_address(&self, cpu: &Cpu) -> (address: u16) {
        let result = match self {
            Self::ZeroPage { mode } => mode.into_address(cpu),
            Self::ZeroPageX { mode } => mode.into_address(cpu),
            Self::Absolute { mode } => mode.into_address(cpu),
            Self::AbsoluteX { mode } => mode.into_address(cpu),
            Self::AbsoluteY { mode } => mode.into_address(cpu),
            Self::IndirectX { mode } => mode.into_address(cpu),
            Self::IndirectY { mode } => mode.into_address(cpu),
        };
        result
    }
}

impl AndAddressAddressingMode {
    /// The operand bytes that follow the opcode.
    pub open spec fn operand(self) -> Seq<u8> {
        match self {
            Self::ZeroPage { mode } => mode.operand(),
            Self::ZeroPageX { mode } => mode.operand(),
            Self::Absolute { mode } => mode.operand(),
            Self::AbsoluteX { mode } => mode.operand(),
            Self::AbsoluteY { mode } => mode.operand(),
            Self::IndirectX { mode } => mode.operand(),
            Self::IndirectY { mode } => mode.operand(),
        }
    }
}

/// The addressing modes of the bit-wise and instructions.
#[derive(Debug, Clone, Copy)]
#[allow(inconsistent_fields)]
pub enum AndAddressingMode {
    Immediate { mode: AM::Immediate },
    AndAddressAddressingMode { mode: AndAddressAddressingMode },
}

impl IntoValue for AndAddressingMode {
    open spec fn effective_value(&self, cpu: CpuState) -> u8 {
        match self {
            Self::Immediate { mode } => mode.effective_value(cpu),
            Self::AndAddressAddressingMode { mode } => mode.effective_value(cpu),
        }
    }

    fn into_value(&self, cpu: &Cpu) -> (value: u8) {
        let result = match self {
            Self::Immediate { mode } => mode.into_value(cpu),
            Self::AndAddressAddressingMode { mode } => mode.into_value(cpu),
        };
        result
    }
}

impl AndAddressingMode {
    /// The operand bytes that follow the opcode.
    pub open spec fn operand(self) -> Seq<u8> {
        match self {
            Self::Immediate { mode } => mode.operand(),
            Self::AndAddressAddressingMode { mode } => mode.operand(),
        }
    }
}

/// The addressing modes of the arithmetic-shift-left instructions that designate a
/// place in memory.
#[derive(Debug, Clone, Copy)]
#[allow(inconsistent_fields)]
pub enum AslAddressAddressingMode {
    ZeroPage { mode: AM::ZeroPage },
    ZeroPageX { mode: AM::ZeroPageX },
    Absolute { mode: AM::Absolute },
    AbsoluteX { mode: AM::AbsoluteX },
}

impl IntoAddress for AslAddressAddressingMode {
    open spec fn effective_address(&self, cpu: CpuState) -> u16 {
        match self {
            Self::ZeroPage { mode } => mode.effective_address(cpu),
            Self::ZeroPageX { mode } => mode.effective_address(cpu),
            Self::Absolute { mode } => mode.effective_address(cpu),
            Self::AbsoluteX { mode } => mode.effective_address(cpu),
        }
    }

    fn into_address(&self, cpu: &Cpu) -> (address: u16) {
        let result = match self {
            Self::ZeroPage { mode } => mode.into_address(cpu),
            Self::ZeroPageX { mode } => mode.into_address(cpu),
            Self::Absolute { mode } => mode.into_address(cpu),
            Self::AbsoluteX { mode } => mode.into_address(cpu),
        };
        result
    }
}

impl AslAddressAddressingMode {
    /// The operand bytes that follow the opcode.
    pub open spec fn operand(self) -> Seq<u8> {
        match self {
            Self::ZeroPage { mode } => mode.operand(),
            Self::ZeroPageX { mode } => mode.operand(),
            Self::Absolute { mode } => mode.operand(),
            Self::AbsoluteX { mode } => mode.operand(),
        }
    }
}

/// The addressing modes of the arithmetic-shift-left instructions.
#[derive(Debug, Clone, Copy)]
#[allow(inconsistent_fields)]
pub enum AslAddressingMode {
    Accumulator { mode: AM::Accumulator },
    AslAddressAddressingMode { mode: AslAddressAddressingMode },
}

impl AslAddressingMode {
    /// The operand bytes that follow the opcode.
    pub open spec fn operand(self) -> Seq<u8> {
        match self {
            Self::Accumulator { .. } => Seq::empty(),
            Self::AslAddressAddressingMode { mode } => mode.operand(),
        }
    }
}

/// The addressing modes of the bit-test instruction.
#[derive(Debug, Clone, Copy)]
#[allow(inconsistent_fields)]
pub enum BitAddressingMode {
    ZeroPage { mode: AM::ZeroPage },
    Absolute { mode: AM::Absolute },
}

impl IntoAddress for BitAddressingMode {
    open spec fn effective_address(&self, cpu: CpuState) -> u16 {
        match self {
            Self::ZeroPage { mode } => mode.effective_address(cpu),
            Self::Absolute { mode } => mode.effective_address(cpu),
        }
    }

    fn into_address(&self, cpu: &Cpu) -> (address: u16) {
        let result = match self {
            Self::ZeroPage { mode } => mode.into_address(cpu),
            Self::Absolute { mode } => mode.into_address(cpu),
        };
        result
    }
}

impl BitAddressingMode {
    /// The operand bytes that follow the opcode.
    pub open spec fn operand(self) -> Seq<u8> {
        match self {
            Self::ZeroPage { mode } => mode.operand(),
            Self::Absolute { mode } => mode.operand(),
        }
    }
}

/// The addressing modes of the compare instructions that designate a
/// place in memory.
#[derive(Debug, Clone, Copy)]
#[allow(inconsistent_fields)]
pub enum CmpAddressAddressingMode {
    ZeroPage { mode: AM::ZeroPage },
    ZeroPageX { mode: AM::ZeroPageX },
    Absolute { mode: AM::Absolute },
    AbsoluteX { mode: AM::AbsoluteX },
    AbsoluteY { mode: AM::AbsoluteY },
    IndirectX { mode: AM::IndirectX },
    IndirectY { mode: AM::IndirectY },
}

impl IntoAddress for CmpAddressAddressingMode {
    open spec fn effective_address(&self, cpu: CpuState) -> u16 {
        match self {
            Self::ZeroPage { mode } => mode.effective_address(cpu),
            Self::ZeroPageX { mode } => mode.effective_address(cpu),
            Self::Absolute { mode } => mode.effective_address(cpu),
            Self::AbsoluteX { mode } => mode.effective_address(cpu),
            Self::AbsoluteY { mode } => mode.effective_address(cpu),
            Self::IndirectX { mode } => mode.effective_address(cpu),
            Self::IndirectY { mode } => mode.effective_address(cpu),
        }
    }

    fn into_address(&self, cpu: &Cpu) -> (address: u16) {
        let result = match self {
            Self::ZeroPage { mode } => mode.into_address(cpu),
            Self::ZeroPageX { mode } => mode.into_address(cpu),
            Self::Absolute { mode } => mode.into_address(cpu),
            Self::AbsoluteX { mode } => mode.into_address(cpu),
            Self::AbsoluteY { mode } => mode.into_address(cpu),
            Self::IndirectX { mode } => mode.into_address(cpu),
            Self::IndirectY { mode } => mode.into_address(cpu),
        };
        result
    }
}

impl CmpAddressAddressingMode {
    /// The operand bytes that follow the opcode.
    pub open spec fn operand(self) -> Seq<u8> {
        match self {
            Self::ZeroPage { mode } => mode.operand(),
            Self::ZeroPageX { mode } => mode.operand(),
            Self::Absolute { mode } => mode.operand(),
            Self::AbsoluteX { mode } => mode.operand(),
            Self::AbsoluteY { mode } => mode.operand(),
            Self::IndirectX { mode } => mode.operand(),
            Self::IndirectY { mode } => mode.operand(),
        }
    }
}

/// The addressing modes of the compare instructions.
#[derive(Debug, Clone, Copy)]
#[allow(inconsistent_fields)]
pub enum CmpAddressingMode {
    Immediate { mode: AM::Immediate },
    CmpAddressAddressingMode { mode: CmpAddressAddressingMode },
}

impl IntoValue for CmpAddressingMode {
    open spec fn effective_value(&self, cpu: CpuState) -> u8 {
        match self {
            Self::Immediate { mode } => mode.effective_value(cpu),
            Self::CmpAddressAddressingMode { mode } => mode.effective_value(cpu),
        }
    }

    fn into_value(&self, cpu: &Cpu) -> (value: u8) {
        let result = match self {
            Self::Immediate { mode } => mode.into_value(cpu),
            Self::CmpAddressAddressingMode { mode } => mode.into_value(cpu),
        };
        result
    }
}

impl CmpAddressingMode {
    /// The operand bytes that follow the opcode.
    pub open spec fn operand(self) -> Seq<u8> {
        match self {
            Self::Immediate { mode } => mode.operand(),
            Self::CmpAddressAddressingMode { mode } => mode.operand(),
        }
    }
}

/// The addressing modes of the load instructions that designate a
/// place in memory.
#[derive(Debug, Clone, Copy)]
#[allow(inconsistent_fields)]
pub enum LdAddressAddressingMode {
    ZeroPage { mode: AM::ZeroPage },
    ZeroPageX { mode: AM::ZeroPageX },
    ZeroPageY { mode: AM::ZeroPageY },
    Absolute { mode: AM::Absolute },
    AbsoluteX { mode: AM::AbsoluteX },
    AbsoluteY { mode: AM::AbsoluteY },
    IndirectX { mode: AM::IndirectX },
    IndirectY { mode: AM::IndirectY },
}

impl IntoAddress for LdAddressAddressingMode {
    open spec fn effective_address(&self, cpu: CpuState) -> u16 {
        match self {
            Self::ZeroPage { mode } => mode.effective_address(cpu),
            Self::ZeroPageX { mode } => mode.effective_address(cpu),
            Self::ZeroPageY { mode } => mode.effective_address(cpu),
            Self::Absolute { mode } => mode.effective_address(cpu),
            Self::AbsoluteX { mode } => mode.effective_address(cpu),
            Self::AbsoluteY { mode } => mode.effective_address(cpu),
            Self::IndirectX { mode } => mode.effective_address(cpu),
            Self::IndirectY { mode } => mode.effective_address(cpu),
        }
    }

    fn into_address(&self, cpu: &Cpu) -> (address: u16) {
        let result = match self {
            Self::ZeroPage { mode } => mode.into_address(cpu),
            Self::ZeroPageX { mode } => mode.into_address(cpu),
            Self::ZeroPageY { mode } => mode.into_address(cpu),
            Self::Absolute { mode } => mode.into_address(cpu),
            Self::AbsoluteX { mode } => mode.into_address(cpu),
            Self::AbsoluteY { mode } => mode.into_address(cpu),
            Self::IndirectX { mode } => mode.into_address(cpu),
            Self::IndirectY { mode } => mode.into_address(cpu),
        };
        result
    }
}

impl LdAddressAddressingMode {
    /// The operand bytes that follow the opcode.
    pub open spec fn operand(self) -> Seq<u8> {
        match self {
            Self::ZeroPage { mode } => mode.operand(),
            Self::ZeroPageX { mode } => mode.operand(),
            Self::ZeroPageY { mode } => mode.operand(),
            Self::Absolute { mode } => mode.operand(),
            Self::AbsoluteX { mode } => mode.operand(),
            Self::AbsoluteY { mode } => mode.operand(),
            Self::IndirectX { mode } => mode.operand(),
            Self::IndirectY { mode } => mode.operand(),
        }
    }
}

/// The addressing modes of the load instructions.
#[derive(Debug, Clone, Copy)]
#[allow(inconsistent_fields)]
pub enum LdAddressingMode {
    Immediate { mode: AM::Immediate },
    LdAddressAddressingMode { mode: LdAddressAddressingMode },
}

impl IntoValue for LdAddressingMode {
    open spec fn effective_value(&self, cpu: CpuState) -> u8 {
        match self {
            Self::Immediate { mode } => mode.effective_value(cpu),
            Self::LdAddressAddressingMode { mode } => mode.effective_value(cpu),
        }
    }

    fn into_value(&self, cpu: &Cpu) -> (value: u8) {
        let result = match self {
            Self::Immediate { mode } => mode.into_value(cpu),
            Self::LdAddressAddressingMode { mode } => mode.into_value(cpu),
        };
        result
    }
}

impl LdAddressingMode {
    /// The operand bytes that follow the opcode.
    pub open spec fn operand(self) -> Seq<u8> {
        match self {
            Self::Immediate { mode } => mode.operand(),
            Self::LdAddressAddressingMode { mode } => mode.operand(),
        }
    }
}

/// A decoded instruction.
#[derive(Debug, Clone, Copy)]
#[allow(inconsistent_fields)]
pub enum Instruction {
    /// Stop the processor.
    Break,
    /// Add a value and the Carry flag to the accumulator.
    Adc { addressing_mode: AdcAddressingMode },
    /// Bit-wise and of the accumulator with a value.
    And { addressing_mode: AndAddressingMode },
    /// Shift the accumulator, or a byte in memory, left by one bit.
    Asl { addressing_mode: AslAddressingMode },
    /// Jump by a signed offset when `flag` has the value `branch_if`.
    Branch { addressing_mode: AM::Relative, flag: Flags, branch_if: bool },
    /// Test the bits of a byte in memory against the accumulator.
    Bit { addressing_mode: BitAddressingMode },
    /// Clear one flag.
    Clear { flag: Flags },
    /// Compare a register with a value.
    Cmp { register: Register, addressing_mode: CmpAddressingMode },
    /// Load a value into a register.
    Ld { destination: Register, addressing_mode: LdAddressingMode },
    /// Copy one register to another.
    Trr { origin: Register, destination: Register },
    /// Add one to a register.
    In { destination: Register },
}

/// The error of decoding an instruction.
#[derive(Debug)]
pub enum InstructionError {
    /// The byte is not the opcode of any instruction that the processor
    /// knows.
    InvalidInstructionCode { code: u8 },
    /// A memory operation failed.
    CpuMemoryError(CpuMemoryError),
}

impl From<CpuMemoryError> for InstructionError {
    fn from(error: CpuMemoryError) -> (result: InstructionError)
        ensures
            result == InstructionError::CpuMemoryError(error),
    {
        InstructionError::CpuMemoryError(error)
    }
}

impl vstd::std_specs::convert::FromSpecImpl<CpuMemoryError> for InstructionError {
    open spec fn obeys_from_spec() -> bool {
        true
    }

    open spec fn from_spec(error: CpuMemoryError) -> InstructionError {
        InstructionError::CpuMemoryError(error)
    }
}

/// The opcode table: the instruction that `opcode` selects, its operand
/// taken from the byte or the little-endian word that follows the opcode, or
/// `None` where the processor knows no such opcode.
pub open spec fn instruction_of(opcode: u8, byte: u8, word: u16) -> Option<Instruction> {
    if opcode == ADC_IMMEDIATE {
        Some(Instruction::Adc {
            addressing_mode: AdcAddressingMode::Immediate {
                mode: AM::Immediate { immediate: byte },
            },
        })
    } else if opcode == ADC_ZERO_PAGE {
        Some(Instruction::Adc {
            addressing_mode: AdcAddressingMode::AdcAddressAddressingMode {
                mode: AdcAddressAddressingMode::ZeroPage { mode: AM::ZeroPage { address: byte } },
            },
        })
    } else if opcode == ADC_ZERO_PAGE_X {
        Some(Instruction::Adc {
            addressing_mode: AdcAddressingMode::AdcAddressAddressingMode {
                mode: AdcAddressAddressingMode::ZeroPageX { mode: AM::ZeroPageX { address: byte } },
            },
        })
    } else if opcode == ADC_ABSOLUTE {
        Some(Instruction::Adc {
            addressing_mode: AdcAddressingMode::AdcAddressAddressingMode {
                mode: AdcAddressAddressingMode::Absolute { mode: AM::Absolute { address: word } },
            },
        })
    } else if opcode == ADC_ABSOLUTE_X {
        Some(Instruction::Adc {
            addressing_mode: AdcAddressingMode::AdcAddressAddressingMode {
                mode: AdcAddressAddressingMode::AbsoluteX { mode: AM::AbsoluteX { address: word } },
            },
        })
    } else if opcode == ADC_ABSOLUTE_Y {
        Some(Instruction::Adc {
            addressing_mode: AdcAddressingMode::AdcAddressAddressingMode {
                mode: AdcAddressAddressingMode::AbsoluteY { mode: AM::AbsoluteY { address: word } },
            },
        })
    } else if opcode == ADC_INDIRECT_X {
        Some(Instruction::Adc {
            addressing_mode: AdcAddressingMode::AdcAddressAddressingMode {
                mode: AdcAddressAddressingMode::IndirectX { mode: AM::IndirectX { address: byte } },
            },
        })
    } else if opcode == ADC_INDIRECT_Y {
        Some(Instruction::Adc {
            addressing_mode: AdcAddressingMode::AdcAddressAddressingMode {
                mode: AdcAddressAddressingMode::IndirectY { mode: AM::IndirectY { address: byte } },
            },
        })
    } else if opcode == AND_IMMEDIATE {
        Some(Instruction::And {
            addressing_mode: AndAddressingMode::Immediate {
                mode: AM::Immediate { immediate: byte },
            },
        })
    } else if opcode == AND_ZERO_PAGE {
        Some(Instruction::And {
            addressing_mode: AndAddressingMode::AndAddressAddressingMode {
                mode: AndAddressAddressingMode::ZeroPage { mode: AM::ZeroPage { address: byte } },
            },
        })
    } else if opcode == AND_ZERO_PAGE_X {
        Some(Instruction::And {
            addressing_mode: AndAddressingMode::AndAddressAddressingMode {
                mode: AndAddressAddressingMode::ZeroPageX { mode: AM::ZeroPageX { address: byte } },
            },
        })
    } else if opcode == AND_ABSOLUTE {
        Some(Instruction::And {
            addressing_mode: AndAddressingMode::AndAddressAddressingMode {
                mode: AndAddressAddressingMode::Absolute { mode: AM::Absolute { address: word } },
            },
        })
    } else if opcode == AND_ABSOLUTE_X {
        Some(Instruction::And {
            addressing_mode: AndAddressingMode::AndAddressAddressingMode {
                mode: AndAddressAddressingMode::AbsoluteX { mode: AM::AbsoluteX { address: word } },
            },
        })
    } else if opcode == AND_ABSOLUTE_Y {
        Some(Instruction::And {
            addressing_mode: AndAddressingMode::AndAddressAddressingMode {
                mode: AndAddressAddressingMode::AbsoluteY { mode: AM::AbsoluteY { address: word } },
            },
        })
    } else if opcode == AND_INDIRECT_X {
        Some(Instruction::And {
            addressing_mode: AndAddressingMode::AndAddressAddressingMode {
                mode: AndAddressAddressingMode::IndirectX { mode: AM::IndirectX { address: byte } },
            },
        })
    } else if opcode == AND_INDIRECT_Y {
        Some(Instruction::And {
            addressing_mode: AndAddressingMode::AndAddressAddressingMode {
                mode: AndAddressAddressingMode::IndirectY { mode: AM::IndirectY { address: byte } },
            },
        })
    } else if opcode == ASL_ACCUMULATOR {
        Some(Instruction::Asl {
            addressing_mode: AslAddressingMode::Accumulator { mode: AM::Accumulator {} },
        })
    } else if opcode == ASL_ZERO_PAGE {
        Some(Instruction::Asl {
            addressing_mode: AslAddressingMode::AslAddressAddressingMode {
                mode: AslAddressAddressingMode::ZeroPage { mode: AM::ZeroPage { address: byte } },
            },
        })
    } else if opcode == ASL_ZERO_PAGE_X {
        Some(Instruction::Asl {
            addressing_mode: AslAddressingMode::AslAddressAddressingMode {
                mode: AslAddressAddressingMode::ZeroPageX { mode: AM::ZeroPageX { address: byte } },
            },
        })
    } else if opcode == ASL_ABSOLUTE {
        Some(Instruction::Asl {
            addressing_mode: AslAddressingMode::AslAddressAddressingMode {
                mode: AslAddressAddressingMode::Absolute { mode: AM::Absolute { address: word } },
            },
        })
    } else if opcode == ASL_ABSOLUTE_X {
        Some(Instruction::Asl {
            addressing_mode: AslAddressingMode::AslAddressAddressingMode {
                mode: AslAddressAddressingMode::AbsoluteX { mode: AM::AbsoluteX { address: word } },
            },
        })
    } else if opcode == BCC {
        Some(Instruction::Branch {
            addressing_mode: AM::Relative { offset: signed_byte(byte) },
            flag: Flags::Carry,
            branch_if: false,
        })
    } else if opcode == BCS {
        Some(Instruction::Branch {
            addressing_mode: AM::Relative { offset: signed_byte(byte) },
            flag: Flags::Carry,
            branch_if: true,
        })
    } else if opcode == BEQ {
        Some(Instruction::Branch {
            addressing_mode: AM::Relative { offset: signed_byte(byte) },
            flag: Flags::Zero,
            branch_if: true,
        })
    } else if opcode == BIT_ZERO_PAGE {
        Some(Instruction::Bit {
            addressing_mode: BitAddressingMode::ZeroPage { mode: AM::ZeroPage { address: byte } },
        })
    } else if opcode == BIT_ABSOLUTE {
        Some(Instruction::Bit {
            addressing_mode: BitAddressingMode::Absolute { mode: AM::Absolute { address: word } },
        })
    } else if opcode == BMI {
        Some(Instruction::Branch {
            addressing_mode: AM::Relative { offset: signed_byte(byte) },
            flag: Flags::Negative,
            branch_if: true,
        })
    } else if opcode == BNE {
        Some(Instruction::Branch {
            addressing_mode: AM::Relative { offset: signed_byte(byte) },
            flag: Flags::Zero,
            branch_if: false,
        })
    } else if opcode == BPL {
        Some(Instruction::Branch {
            addressing_mode: AM::Relative { offset: signed_byte(byte) },
            flag: Flags::Negative,
            branch_if: false,
        })
    } else if opcode == BRK {
        Some(Instruction::Break)
    } else if opcode == BVC {
        Some(Instruction::Branch {
            addressing_mode: AM::Relative { offset: signed_byte(byte) },
            flag: Flags::Overflow,
            branch_if: false,
        })
    } else if opcode == BVS {
        Some(Instruction::Branch {
            addressing_mode: AM::Relative { offset: signed_byte(byte) },
            flag: Flags::Overflow,
            branch_if: true,
        })
    } else if opcode == CLC {
        Some(Instruction::Clear { flag: Flags::Carry })
    } else if opcode == CLD {
        Some(Instruction::Clear { flag: Flags::Decimal })
    } else if opcode == CLI {
        Some(Instruction::Clear { flag: Flags::InterruptDisable })
    } else if opcode == CLV {
        Some(Instruction::Clear { flag: Flags::Overflow })
    } else if opcode == CMP_IMMEDIATE {
        Some(Instruction::Cmp {
            register: Register::A,
            addressing_mode: CmpAddressingMode::Immediate {
                mode: AM::Immediate { immediate: byte },
            },
        })
    } else if opcode == CMP_ZERO_PAGE {
        Some(Instruction::Cmp {
            register: Register::A,
            addressing_mode: CmpAddressingMode::CmpAddressAddressingMode {
                mode: CmpAddressAddressingMode::ZeroPage { mode: AM::ZeroPage { address: byte } },
            },
        })
    } else if opcode == CMP_ZERO_PAGE_X {
        Some(Instruction::Cmp {
            register: Register::A,
            addressing_mode: CmpAddressingMode::CmpAddressAddressingMode {
                mode: CmpAddressAddressingMode::ZeroPageX { mode: AM::ZeroPageX { address: byte } },
            },
        })
    } else if opcode == CMP_ABSOLUTE {
        Some(Instruction::Cmp {
            register: Register::A,
            addressing_mode: CmpAddressingMode::CmpAddressAddressingMode {
                mode: CmpAddressAddressingMode::Absolute { mode: AM::Absolute { address: word } },
            },
        })
    } else if opcode == CMP_ABSOLUTE_X {
        Some(Instruction::Cmp {
            register: Register::A,
            addressing_mode: CmpAddressingMode::CmpAddressAddressingMode {
                mode: CmpAddressAddressingMode::AbsoluteX { mode: AM::AbsoluteX { address: word } },
            },
        })
    } else if opcode == CMP_ABSOLUTE_Y {
        Some(Instruction::Cmp {
            register: Register::A,
            addressing_mode: CmpAddressingMode::CmpAddressAddressingMode {
                mode: CmpAddressAddressingMode::AbsoluteY { mode: AM::AbsoluteY { address: word } },
            },
        })
    } else if opcode == CMP_INDIRECT_X {
        Some(Instruction::Cmp {
            register: Register::A,
            addressing_mode: CmpAddressingMode::CmpAddressAddressingMode {
                mode: CmpAddressAddressingMode::IndirectX { mode: AM::IndirectX { address: byte } },
            },
        })
    } else if opcode == CMP_INDIRECT_Y {
        Some(Instruction::Cmp {
            register: Register::A,
            addressing_mode: CmpAddressingMode::CmpAddressAddressingMode {
                mode: CmpAddressAddressingMode::IndirectY { mode: AM::IndirectY { address: byte } },
            },
        })
    } else if opcode == CPX_IMMEDIATE {
        Some(Instruction::Cmp {
            register: Register::X,
            addressing_mode: CmpAddressingMode::Immediate {
                mode: AM::Immediate { immediate: byte },
            },
        })
    } else if opcode == CPX_ZERO_PAGE {
        Some(Instruction::Cmp {
            register: Register::X,
            addressing_mode: CmpAddressingMode::CmpAddressAddressingMode {
                mode: CmpAddressAddressingMode::ZeroPage { mode: AM::ZeroPage { address: byte } },
            },
        })
    } else if opcode == CPX_ABSOLUTE {
        Some(Instruction::Cmp {
            register: Register::X,
            addressing_mode: CmpAddressingMode::CmpAddressAddressingMode {
                mode: CmpAddressAddressingMode::Absolute { mode: AM::Absolute { address: word } },
            },
        })
    } else if opcode == CPY_IMMEDIATE {
        Some(Instruction::Cmp {
            register: Register::Y,
            addressing_mode: CmpAddressingMode::Immediate {
                mode: AM::Immediate { immediate: byte },
            },
        })
    } else if opcode == CPY_ZERO_PAGE {
        Some(Instruction::Cmp {
            register: Register::Y,
            addressing_mode: CmpAddressingMode::CmpAddressAddressingMode {
                mode: CmpAddressAddressingMode::ZeroPage { mode: AM::ZeroPage { address: byte } },
            },
        })
    } else if opcode == CPY_ABSOLUTE {
        Some(Instruction::Cmp {
            register: Register::Y,
            addressing_mode: CmpAddressingMode::CmpAddressAddressingMode {
                mode: CmpAddressAddressingMode::Absolute { mode: AM::Absolute { address: word } },
            },
        })
    } else if opcode == LDA_IMMEDIATE {
        Some(Instruction::Ld {
            destination: Register::A,
            addressing_mode: LdAddressingMode::Immediate {
                mode: AM::Immediate { immediate: byte },
            },
        })
    } else if opcode == LDA_ZERO_PAGE {
        Some(Instruction::Ld {
            destination: Register::A,
            addressing_mode: LdAddressingMode::LdAddressAddressingMode {
                mode: LdAddressAddressingMode::ZeroPage { mode: AM::ZeroPage { address: byte } },
            },
        })
    } else if opcode == LDA_ZERO_PAGE_X {
        Some(Instruction::Ld {
            destination: Register::A,
            addressing_mode: LdAddressingMode::LdAddressAddressingMode {
                mode: LdAddressAddressingMode::ZeroPageX { mode: AM::ZeroPageX { address: byte } },
            },
        })
    } else if opcode == LDA_ABSOLUTE {
        Some(Instruction::Ld {
            destination: Register::A,
            addressing_mode: LdAddressingMode::LdAddressAddressingMode {
                mode: LdAddressAddressingMode::Absolute { mode: AM::Absolute { address: word } },
            },
        })
    } else if opcode == LDA_ABSOLUTE_X {
        Some(Instruction::Ld {
            destination: Register::A,
            addressing_mode: LdAddressingMode::LdAddressAddressingMode {
                mode: LdAddressAddressingMode::AbsoluteX { mode: AM::AbsoluteX { address: word } },
            },
        })
    } else if opcode == LDA_ABSOLUTE_Y {
        Some(Instruction::Ld {
            destination: Register::A,
            addressing_mode: LdAddressingMode::LdAddressAddressingMode {
                mode: LdAddressAddressingMode::AbsoluteY { mode: AM::AbsoluteY { address: word } },
            },
        })
    } else if opcode == LDA_INDIRECT_X {
        Some(Instruction::Ld {
            destination: Register::A,
            addressing_mode: LdAddressingMode::LdAddressAddressingMode {
                mode: LdAddressAddressingMode::IndirectX { mode: AM::IndirectX { address: byte } },
            },
        })
    } else if opcode == LDA_INDIRECT_Y {
        Some(Instruction::Ld {
            destination: Register::A,
            addressing_mode: LdAddressingMode::LdAddressAddressingMode {
                mode: LdAddressAddressingMode::IndirectY { mode: AM::IndirectY { address: byte } },
            },
        })
    } else if opcode == LDX_IMMEDIATE {
        Some(Instruction::Ld {
            destination: Register::X,
            addressing_mode: LdAddressingMode::Immediate {
                mode: AM::Immediate { immediate: byte },
            },
        })
    } else if opcode == LDX_ZERO_PAGE {
        Some(Instruction::Ld {
            destination: Register::X,
            addressing_mode: LdAddressingMode::LdAddressAddressingMode {
                mode: LdAddressAddressingMode::ZeroPage { mode: AM::ZeroPage { address: byte } },
            },
        })
    } else if opcode == LDX_ZERO_PAGE_Y {
        Some(Instruction::Ld {
            destination: Register::X,
            addressing_mode: LdAddressingMode::LdAddressAddressingMode {
                mode: LdAddressAddressingMode::ZeroPageY { mode: AM::ZeroPageY { address: byte } },
            },
        })
    } else if opcode == LDX_ABSOLUTE {
        Some(Instruction::Ld {
            destination: Register::X,
            addressing_mode: LdAddressingMode::LdAddressAddressingMode {
                mode: LdAddressAddressingMode::Absolute { mode: AM::Absolute { address: word } },
            },
        })
    } else if opcode == LDX_ABSOLUTE_Y {
        Some(Instruction::Ld {
            destination: Register::X,
            addressing_mode: LdAddressingMode::LdAddressAddressingMode {
                mode: LdAddressAddressingMode::AbsoluteY { mode: AM::AbsoluteY { address: word } },
            },
        })
    } else if opcode == LDY_IMMEDIATE {
        Some(Instruction::Ld {
            destination: Register::Y,
            addressing_mode: LdAddressingMode::Immediate {
                mode: AM::Immediate { immediate: byte },
            },
        })
    } else if opcode == LDY_ZERO_PAGE {
        Some(Instruction::Ld {
            destination: Register::Y,
            addressing_mode: LdAddressingMode::LdAddressAddressingMode {
                mode: LdAddressAddressingMode::ZeroPage { mode: AM::ZeroPage { address: byte } },
            },
        })
    } else if opcode == LDY_ZERO_PAGE_X {
        Some(Instruction::Ld {
            destination: Register::Y,
            addressing_mode: LdAddressingMode::LdAddressAddressingMode {
                mode: LdAddressAddressingMode::ZeroPageX { mode: AM::ZeroPageX { address: byte } },
            },
        })
    } else if opcode == LDY_ABSOLUTE {
        Some(Instruction::Ld {
            destination: Register::Y,
            addressing_mode: LdAddressingMode::LdAddressAddressingMode {
                mode: LdAddressAddressingMode::Absolute { mode: AM::Absolute { address: word } },
            },
        })
    } else if opcode == LDY_ABSOLUTE_X {
        Some(Instruction::Ld {
            destination: Register::Y,
            addressing_mode: LdAddressingMode::LdAddressAddressingMode {
                mode: LdAddressAddressingMode::AbsoluteX { mode: AM::AbsoluteX { address: word } },
            },
        })
    } else if opcode == TAX {
        Some(Instruction::Trr { origin: Register::A, destination: Register::X })
    } else if opcode == INX {
        Some(Instruction::In { destination: Register::X })
    } else {
        None
    }
}

/// The instruction that memory holds at `program_counter`, and the address
/// of the instruction after it.
pub open spec fn decode_spec(memory: Seq<u8>, program_counter: u16) -> Result<
    (Instruction, u16),
    InstructionError,
> {
    let opcode = memory[program_counter as int];
    let operand = address_after(program_counter, 1);
    match instruction_of(opcode, memory[operand as int], read_u16_spec(memory, operand)) {
        Some(instruction) => Ok(
            (instruction, address_after(program_counter, 1 + instruction.operand().len() as int)),
        ),
        None => Err(InstructionError::InvalidInstructionCode { code: opcode }),
    }
}

/// Whether memory holds `bytes` at `address` and the addresses that follow
/// it, the address after `0xFFFF` being `0x0000`.
pub open spec fn holds(memory: Seq<u8>, address: u16, bytes: Seq<u8>) -> bool {
    forall|i: int|
        0 <= i < bytes.len() ==> memory[address_after(address, i) as int] == #[trigger] bytes[i]
}

/// Every instruction that the decoder returns is one, two or three bytes
/// long: the opcode, and after it no operand, a byte or a word.  The address
/// that the decoder returns with it lies that many bytes after the
/// instruction's own, modulo 65 536.
pub proof fn lemma_decode_length(memory: Seq<u8>, program_counter: u16)
    ensures
        decode_spec(memory, program_counter) matches Ok((instruction, next)) ==> {
            &&& 0 <= instruction.operand().len() <= 2
            &&& next == (program_counter + 1 + instruction.operand().len()) % 0x10000
        },
{
}

/// The decoder reads what is written: where memory holds the opcode of an
/// instruction and after it the instruction's operand, the decoder returns
/// that instruction and the address after its last byte.
pub proof fn lemma_decode_inverts_encoding(
    memory: Seq<u8>,
    program_counter: u16,
    instruction: Instruction,
)
    requires
        instruction.opcode() matches Some(opcode) && holds(
            memory,
            program_counter,
            seq![opcode] + instruction.operand(),
        ),
    ensures
        decode_spec(memory, program_counter) == Ok::<(Instruction, u16), InstructionError>(
            (instruction, address_after(program_counter, 1 + instruction.operand().len() as int)),
        ),
{
    let bytes = seq![instruction.opcode().unwrap()] + instruction.operand();
    assert(bytes[0] == memory[address_after(program_counter, 0) as int]);
    if instruction.operand().len() >= 1 {
        assert(bytes[1] == memory[address_after(program_counter, 1) as int]);
        assert(bytes[1] == instruction.operand()[0]);
    }
    if instruction.operand().len() >= 2 {
        assert(bytes[2] == memory[address_after(program_counter, 2) as int]);
        assert(bytes[2] == instruction.operand()[1]);
    }
}

/// The decoder returns nothing that is not written: the instruction that it
/// returns has the byte at the program counter for its opcode and the bytes
/// after it for its operand, and where it returns an error, no instruction
/// has that byte for its opcode.
pub proof fn lemma_decoded_instruction_is_encoded(memory: Seq<u8>, program_counter: u16)
    ensures
        match decode_spec(memory, program_counter) {
            Ok((instruction, _)) => instruction.opcode() == Some(memory[program_counter as int])
                && holds(memory, address_after(program_counter, 1), instruction.operand()),
            Err(error) => error == (InstructionError::InvalidInstructionCode {
                code: memory[program_counter as int],
            }) && forall|instruction: Instruction|
                #[trigger] instruction.opcode() != Some(memory[program_counter as int]),
        },
{
    if decode_spec(memory, program_counter) is Err {
        assert forall|instruction: Instruction| #[trigger]
            instruction.opcode() != Some(memory[program_counter as int]) by {
            lemma_opcodes_are_in_the_table(instruction);
        }
    }
}

/// The opcode of an instruction is one that the opcode table knows.
proof fn lemma_opcodes_are_in_the_table(instruction: Instruction)
    ensures
        instruction.opcode() matches Some(opcode) ==> forall|byte: u8, word: u16|
            #[trigger] instruction_of(opcode, byte, word) is Some,
{
}

impl Instruction {
    /// The opcode that selects the instruction, where the processor has one
    /// for it.  The types admit instructions that it has none for, such as a
    /// load of register X from the zero page indexed by X.
    pub open spec fn opcode(self) -> Option<u8> {
        match self {
            Instruction::Break => Some(BRK),
            Instruction::Adc { addressing_mode } => Some(match addressing_mode {
                AdcAddressingMode::Immediate { .. } => ADC_IMMEDIATE,
                AdcAddressingMode::AdcAddressAddressingMode { mode } => match mode {
                    AdcAddressAddressingMode::ZeroPage { .. } => ADC_ZERO_PAGE,
                    AdcAddressAddressingMode::ZeroPageX { .. } => ADC_ZERO_PAGE_X,
                    AdcAddressAddressingMode::Absolute { .. } => ADC_ABSOLUTE,
                    AdcAddressAddressingMode::AbsoluteX { .. } => ADC_ABSOLUTE_X,
                    AdcAddressAddressingMode::AbsoluteY { .. } => ADC_ABSOLUTE_Y,
                    AdcAddressAddressingMode::IndirectX { .. } => ADC_INDIRECT_X,
                    AdcAddressAddressingMode::IndirectY { .. } => ADC_INDIRECT_Y,
                },
            }),
            Instruction::And { addressing_mode } => Some(match addressing_mode {
                AndAddressingMode::Immediate { .. } => AND_IMMEDIATE,
                AndAddressingMode::AndAddressAddressingMode { mode } => match mode {
                    AndAddressAddressingMode::ZeroPage { .. } => AND_ZERO_PAGE,
                    AndAddressAddressingMode::ZeroPageX { .. } => AND_ZERO_PAGE_X,
                    AndAddressAddressingMode::Absolute { .. } => AND_ABSOLUTE,
                    AndAddressAddressingMode::AbsoluteX { .. } => AND_ABSOLUTE_X,
                    AndAddressAddressingMode::AbsoluteY { .. } => AND_ABSOLUTE_Y,
                    AndAddressAddressingMode::IndirectX { .. } => AND_INDIRECT_X,
                    AndAddressAddressingMode::IndirectY { .. } => AND_INDIRECT_Y,
                },
            }),
            Instruction::Asl { addressing_mode } => Some(match addressing_mode {
                AslAddressingMode::Accumulator { .. } => ASL_ACCUMULATOR,
                AslAddressingMode::AslAddressAddressingMode { mode } => match mode {
                    AslAddressAddressingMode::ZeroPage { .. } => ASL_ZERO_PAGE,
                    AslAddressAddressingMode::ZeroPageX { .. } => ASL_ZERO_PAGE_X,
                    AslAddressAddressingMode::Absolute { .. } => ASL_ABSOLUTE,
                    AslAddressAddressingMode::AbsoluteX { .. } => ASL_ABSOLUTE_X,
                },
            }),
            Instruction::Bit { addressing_mode } => Some(match addressing_mode {
                BitAddressingMode::ZeroPage { .. } => BIT_ZERO_PAGE,
                BitAddressingMode::Absolute { .. } => BIT_ABSOLUTE,
            }),
            Instruction::Branch { flag, branch_if, .. } => match (flag, branch_if) {
                (Flags::Carry, false) => Some(BCC),
                (Flags::Carry, true) => Some(BCS),
                (Flags::Zero, true) => Some(BEQ),
                (Flags::Negative, true) => Some(BMI),
                (Flags::Zero, false) => Some(BNE),
                (Flags::Negative, false) => Some(BPL),
                (Flags::Overflow, false) => Some(BVC),
                (Flags::Overflow, true) => Some(BVS),
                _ => None,
            },
            Instruction::Clear { flag } => match flag {
                Flags::Carry => Some(CLC),
                Flags::Decimal => Some(CLD),
                Flags::InterruptDisable => Some(CLI),
                Flags::Overflow => Some(CLV),
                _ => None,
            },
            Instruction::Cmp { register, addressing_mode } => match register {
                Register::A => Some(match addressing_mode {
                    CmpAddressingMode::Immediate { .. } => CMP_IMMEDIATE,
                    CmpAddressingMode::CmpAddressAddressingMode { mode } => match mode {
                        CmpAddressAddressingMode::ZeroPage { .. } => CMP_ZERO_PAGE,
                        CmpAddressAddressingMode::ZeroPageX { .. } => CMP_ZERO_PAGE_X,
                        CmpAddressAddressingMode::Absolute { .. } => CMP_ABSOLUTE,
                        CmpAddressAddressingMode::AbsoluteX { .. } => CMP_ABSOLUTE_X,
                        CmpAddressAddressingMode::AbsoluteY { .. } => CMP_ABSOLUTE_Y,
                        CmpAddressAddressingMode::IndirectX { .. } => CMP_INDIRECT_X,
                        CmpAddressAddressingMode::IndirectY { .. } => CMP_INDIRECT_Y,
                    },
                }),
                Register::X => match addressing_mode {
                    CmpAddressingMode::Immediate { .. } => Some(CPX_IMMEDIATE),
                    CmpAddressingMode::CmpAddressAddressingMode { mode } => match mode {
                        CmpAddressAddressingMode::ZeroPage { .. } => Some(CPX_ZERO_PAGE),
                        CmpAddressAddressingMode::Absolute { .. } => Some(CPX_ABSOLUTE),
                        _ => None,
                    },
                },
                Register::Y => match addressing_mode {
                    CmpAddressingMode::Immediate { .. } => Some(CPY_IMMEDIATE),
                    CmpAddressingMode::CmpAddressAddressingMode { mode } => match mode {
                        CmpAddressAddressingMode::ZeroPage { .. } => Some(CPY_ZERO_PAGE),
                        CmpAddressAddressingMode::Absolute { .. } => Some(CPY_ABSOLUTE),
                        _ => None,
                    },
                },
            },
            Instruction::Ld { destination, addressing_mode } => match destination {
                Register::A => match addressing_mode {
                    LdAddressingMode::Immediate { .. } => Some(LDA_IMMEDIATE),
                    LdAddressingMode::LdAddressAddressingMode { mode } => match mode {
                        LdAddressAddressingMode::ZeroPage { .. } => Some(LDA_ZERO_PAGE),
                        LdAddressAddressingMode::ZeroPageX { .. } => Some(LDA_ZERO_PAGE_X),
                        LdAddressAddressingMode::Absolute { .. } => Some(LDA_ABSOLUTE),
                        LdAddressAddressingMode::AbsoluteX { .. } => Some(LDA_ABSOLUTE_X),
                        LdAddressAddressingMode::AbsoluteY { .. } => Some(LDA_ABSOLUTE_Y),
                        LdAddressAddressingMode::IndirectX { .. } => Some(LDA_INDIRECT_X),
                        LdAddressAddressingMode::IndirectY { .. } => Some(LDA_INDIRECT_Y),
                        _ => None,
                    },
                },
                Register::X => match addressing_mode {
                    LdAddressingMode::Immediate { .. } => Some(LDX_IMMEDIATE),
                    LdAddressingMode::LdAddressAddressingMode { mode } => match mode {
                        LdAddressAddressingMode::ZeroPage { .. } => Some(LDX_ZERO_PAGE),
                        LdAddressAddressingMode::ZeroPageY { .. } => Some(LDX_ZERO_PAGE_Y),
                        LdAddressAddressingMode::Absolute { .. } => Some(LDX_ABSOLUTE),
                        LdAddressAddressingMode::AbsoluteY { .. } => Some(LDX_ABSOLUTE_Y),
                        _ => None,
                    },
                },
                Register::Y => match addressing_mode {
                    LdAddressingMode::Immediate { .. } => Some(LDY_IMMEDIATE),
                    LdAddressingMode::LdAddressAddressingMode { mode } => match mode {
                        LdAddressAddressingMode::ZeroPage { .. } => Some(LDY_ZERO_PAGE),
                        LdAddressAddressingMode::ZeroPageX { .. } => Some(LDY_ZERO_PAGE_X),
                        LdAddressAddressingMode::Absolute { .. } => Some(LDY_ABSOLUTE),
                        LdAddressAddressingMode::AbsoluteX { .. } => Some(LDY_ABSOLUTE_X),
                        _ => None,
                    },
                },
            },
            Instruction::Trr { origin, destination } => match (origin, destination) {
                (Register::A, Register::X) => Some(TAX),
                _ => None,
            },
            Instruction::In { destination } => match destination {
                Register::X => Some(INX),
                _ => None,
            },
        }
    }

    /// The operand bytes that follow the opcode: none where the instruction
    /// has no operand or works on the accumulator, else a byte, or a word
    /// with its low byte first.
    pub open spec fn operand(self) -> Seq<u8> {
        match self {
            Instruction::Break => Seq::empty(),
            Instruction::Adc { addressing_mode } => addressing_mode.operand(),
            Instruction::And { addressing_mode } => addressing_mode.operand(),
            Instruction::Asl { addressing_mode } => addressing_mode.operand(),
            Instruction::Branch { addressing_mode, .. } => addressing_mode.operand(),
            Instruction::Bit { addressing_mode } => addressing_mode.operand(),
            Instruction::Clear { .. } => Seq::empty(),
            Instruction::Cmp { addressing_mode, .. } => addressing_mode.operand(),
            Instruction::Ld { addressing_mode, .. } => addressing_mode.operand(),
            Instruction::Trr { .. } => Seq::empty(),
            Instruction::In { .. } => Seq::empty(),
        }
    }

    /// Decodes the instruction at `program_counter`.
    ///
    /// Returns the instruction together with the address of the instruction
    /// that follows it, or the opcode byte where it is not one that the
    /// processor knows.
    pub fn get_instruction(memory: &Memory, program_counter: &u16) -> (result: Result<
        (Instruction, u16),
        InstructionError,
    >)
        ensures
            result == decode_spec(memory@, *program_counter),
    {
        let mut program_counter = *program_counter;
        let instruction = memory.read(program_counter);
        program_counter = program_counter.wrapping_add(1);
        let instruction = match instruction {
            ADC_IMMEDIATE => {
                let addressing_mode = AdcAddressingMode::Immediate {
                    mode: AM::Immediate::new(memory, &mut program_counter),
                };
                Instruction::Adc { addressing_mode }
            }
            ADC_ZERO_PAGE => {
                let addressing_mode = AdcAddressingMode::AdcAddressAddressingMode {
                    mode: AdcAddressAddressingMode::ZeroPage {
                        mode: AM::ZeroPage::new(memory, &mut program_counter),
                    },
                };
                Instruction::Adc { addressing_mode }
            }
            ADC_ZERO_PAGE_X => {
                let addressing_mode = AdcAddressingMode::AdcAddressAddressingMode {
                    mode: AdcAddressAddressingMode::ZeroPageX {
                        mode: AM::ZeroPageX::new(memory, &mut program_counter),
                    },
                };
                Instruction::Adc { addressing_mode }
            }
            ADC_ABSOLUTE => {
                let addressing_mode = AdcAddressingMode::AdcAddressAddressingMode {
                    mode: AdcAddressAddressingMode::Absolute {
                        mode: AM::Absolute::new(memory, &mut program_counter),
                    },
                };
                Instruction::Adc { addressing_mode }
            }
            ADC_ABSOLUTE_X => {
                let addressing_mode = AdcAddressingMode::AdcAddressAddressingMode {
                    mode: AdcAddressAddressingMode::AbsoluteX {
                        mode: AM::AbsoluteX::new(memory, &mut program_counter),
                    },
                };
                Instruction::Adc { addressing_mode }
            }
            ADC_ABSOLUTE_Y => {
                let addressing_mode = AdcAddressingMode::AdcAddressAddressingMode {
                    mode: AdcAddressAddressingMode::AbsoluteY {
                        mode: AM::AbsoluteY::new(memory, &mut program_counter),
                    },
                };
                Instruction::Adc { addressing_mode }
            }
            ADC_INDIRECT_X => {
                let addressing_mode = AdcAddressingMode::AdcAddressAddressingMode {
                    mode: AdcAddressAddressingMode::IndirectX {
                        mode: AM::IndirectX::new(memory, &mut program_counter),
                    },
                };
                Instruction::Adc { addressing_mode }
            }
            ADC_INDIRECT_Y => {
                let addressing_mode = AdcAddressingMode::AdcAddressAddressingMode {
                    mode: AdcAddressAddressingMode::IndirectY {
                        mode: AM::IndirectY::new(memory, &mut program_counter),
                    },
                };
                Instruction::Adc { addressing_mode }
            }
            AND_IMMEDIATE => {
                let addressing_mode = AndAddressingMode::Immediate {
                    mode: AM::Immediate::new(memory, &mut program_counter),
                };
                Instruction::And { addressing_mode }
            }
            AND_ZERO_PAGE => {
                let addressing_mode = AndAddressingMode::AndAddressAddressingMode {
                    mode: AndAddressAddressingMode::ZeroPage {
                        mode: AM::ZeroPage::new(memory, &mut program_counter),
                    },
                };
                Instruction::And { addressing_mode }
            }
            AND_ZERO_PAGE_X => {
                let addressing_mode = AndAddressingMode::AndAddressAddressingMode {
                    mode: AndAddressAddressingMode::ZeroPageX {
                        mode: AM::ZeroPageX::new(memory, &mut program_counter),
                    },
                };
                Instruction::And { addressing_mode }
            }
            AND_ABSOLUTE => {
                let addressing_mode = AndAddressingMode::AndAddressAddressingMode {
                    mode: AndAddressAddressingMode::Absolute {
                        mode: AM::Absolute::new(memory, &mut program_counter),
                    },
                };
                Instruction::And { addressing_mode }
            }
            AND_ABSOLUTE_X => {
                let addressing_mode = AndAddressingMode::AndAddressAddressingMode {
                    mode: AndAddressAddressingMode::AbsoluteX {
                        mode: AM::AbsoluteX::new(memory, &mut program_counter),
                    },
                };
                Instruction::And { addressing_mode }
            }
            AND_ABSOLUTE_Y => {
                let addressing_mode = AndAddressingMode::AndAddressAddressingMode {
                    mode: AndAddressAddressingMode::AbsoluteY {
                        mode: AM::AbsoluteY::new(memory, &mut program_counter),
                    },
                };
                Instruction::And { addressing_mode }
            }
            AND_INDIRECT_X => {
                let addressing_mode = AndAddressingMode::AndAddressAddressingMode {
                    mode: AndAddressAddressingMode::IndirectX {
                        mode: AM::IndirectX::new(memory, &mut program_counter),
                    },
                };
                Instruction::And { addressing_mode }
            }
            AND_INDIRECT_Y => {
                let addressing_mode = AndAddressingMode::AndAddressAddressingMode {
                    mode: AndAddressAddressingMode::IndirectY {
                        mode: AM::IndirectY::new(memory, &mut program_counter),
                    },
                };
                Instruction::And { addressing_mode }
            }
            ASL_ACCUMULATOR => {
                let addressing_mode = AslAddressingMode::Accumulator { mode: AM::Accumulator {} };
                Instruction::Asl { addressing_mode }
            }
            ASL_ZERO_PAGE => {
                let addressing_mode = AslAddressingMode::AslAddressAddressingMode {
                    mode: AslAddressAddressingMode::ZeroPage {
                        mode: AM::ZeroPage::new(memory, &mut program_counter),
                    },
                };
                Instruction::Asl { addressing_mode }
            }
            ASL_ZERO_PAGE_X => {
                let addressing_mode = AslAddressingMode::AslAddressAddressingMode {
                    mode: AslAddressAddressingMode::ZeroPageX {
                        mode: AM::ZeroPageX::new(memory, &mut program_counter),
                    },
                };
                Instruction::Asl { addressing_mode }
            }
            ASL_ABSOLUTE => {
                let addressing_mode = AslAddressingMode::AslAddressAddressingMode {
                    mode: AslAddressAddressingMode::Absolute {
                        mode: AM::Absolute::new(memory, &mut program_counter),
                    },
                };
                Instruction::Asl { addressing_mode }
            }
            ASL_ABSOLUTE_X => {
                let addressing_mode = AslAddressingMode::AslAddressAddressingMode {
                    mode: AslAddressAddressingMode::AbsoluteX {
                        mode: AM::AbsoluteX::new(memory, &mut program_counter),
                    },
                };
                Instruction::Asl { addressing_mode }
            }
            BCC => Instruction::Branch {
                addressing_mode: AM::Relative::new(memory, &mut program_counter),
                flag: Flags::Carry,
                branch_if: false,
            },
            BCS => Instruction::Branch {
                addressing_mode: AM::Relative::new(memory, &mut program_counter),
                flag: Flags::Carry,
                branch_if: true,
            },
            BEQ => Instruction::Branch {
                addressing_mode: AM::Relative::new(memory, &mut program_counter),
                flag: Flags::Zero,
                branch_if: true,
            },
            BIT_ZERO_PAGE => {
                let addressing_mode = BitAddressingMode::ZeroPage {
                    mode: AM::ZeroPage::new(memory, &mut program_counter),
                };
                Instruction::Bit { addressing_mode }
            }
            BIT_ABSOLUTE => {
                let addressing_mode = BitAddressingMode::Absolute {
                    mode: AM::Absolute::new(memory, &mut program_counter),
                };
                Instruction::Bit { addressing_mode }
            }
            BMI => Instruction::Branch {
                addressing_mode: AM::Relative::new(memory, &mut program_counter),
                flag: Flags::Negative,
                branch_if: true,
            },
            BNE => Instruction::Branch {
                addressing_mode: AM::Relative::new(memory, &mut program_counter),
                flag: Flags::Zero,
                branch_if: false,
            },
            BPL => Instruction::Branch {
                addressing_mode: AM::Relative::new(memory, &mut program_counter),
                flag: Flags::Negative,
                branch_if: false,
            },
            BRK => Instruction::Break,
            BVC => Instruction::Branch {
                addressing_mode: AM::Relative::new(memory, &mut program_counter),
                flag: Flags::Overflow,
                branch_if: false,
            },
            BVS => Instruction::Branch {
                addressing_mode: AM::Relative::new(memory, &mut program_counter),
                flag: Flags::Overflow,
                branch_if: true,
            },
            CLC => Instruction::Clear { flag: Flags::Carry },
            CLD => Instruction::Clear { flag: Flags::Decimal },
            CLI => Instruction::Clear { flag: Flags::InterruptDisable },
            CLV => Instruction::Clear { flag: Flags::Overflow },
            CMP_IMMEDIATE => {
                let addressing_mode = CmpAddressingMode::Immediate {
                    mode: AM::Immediate::new(memory, &mut program_counter),
                };
                Instruction::Cmp { register: Register::A, addressing_mode }
            }
            CMP_ZERO_PAGE => {
                let addressing_mode = CmpAddressingMode::CmpAddressAddressingMode {
                    mode: CmpAddressAddressingMode::ZeroPage {
                        mode: AM::ZeroPage::new(memory, &mut program_counter),
                    },
                };
                Instruction::Cmp { register: Register::A, addressing_mode }
            }
            CMP_ZERO_PAGE_X => {
                let addressing_mode = CmpAddressingMode::CmpAddressAddressingMode {
                    mode: CmpAddressAddressingMode::ZeroPageX {
                        mode: AM::ZeroPageX::new(memory, &mut program_counter),
                    },
                };
                Instruction::Cmp { register: Register::A, addressing_mode }
            }
            CMP_ABSOLUTE => {
                let addressing_mode = CmpAddressingMode::CmpAddressAddressingMode {
                    mode: CmpAddressAddressingMode::Absolute {
                        mode: AM::Absolute::new(memory, &mut program_counter),
                    },
                };
                Instruction::Cmp { register: Register::A, addressing_mode }
            }
            CMP_ABSOLUTE_X => {
                let addressing_mode = CmpAddressingMode::CmpAddressAddressingMode {
                    mode: CmpAddressAddressingMode::AbsoluteX {
                        mode: AM::AbsoluteX::new(memory, &mut program_counter),
                    },
                };
                Instruction::Cmp { register: Register::A, addressing_mode }
            }
            CMP_ABSOLUTE_Y => {
                let addressing_mode = CmpAddressingMode::CmpAddressAddressingMode {
                    mode: CmpAddressAddressingMode::AbsoluteY {
                        mode: AM::AbsoluteY::new(memory, &mut program_counter),
                    },
                };
                Instruction::Cmp { register: Register::A, addressing_mode }
            }
            CMP_INDIRECT_X => {
                let addressing_mode = CmpAddressingMode::CmpAddressAddressingMode {
                    mode: CmpAddressAddressingMode::IndirectX {
                        mode: AM::IndirectX::new(memory, &mut program_counter),
                    },
                };
                Instruction::Cmp { register: Register::A, addressing_mode }
            }
            CMP_INDIRECT_Y => {
                let addressing_mode = CmpAddressingMode::CmpAddressAddressingMode {
                    mode: CmpAddressAddressingMode::IndirectY {
                        mode: AM::IndirectY::new(memory, &mut program_counter),
                    },
                };
                Instruction::Cmp { register: Register::A, addressing_mode }
            }
            CPX_IMMEDIATE => {
                let addressing_mode = CmpAddressingMode::Immediate {
                    mode: AM::Immediate::new(memory, &mut program_counter),
                };
                Instruction::Cmp { register: Register::X, addressing_mode }
            }
            CPX_ZERO_PAGE => {
                let addressing_mode = CmpAddressingMode::CmpAddressAddressingMode {
                    mode: CmpAddressAddressingMode::ZeroPage {
                        mode: AM::ZeroPage::new(memory, &mut program_counter),
                    },
                };
                Instruction::Cmp { register: Register::X, addressing_mode }
            }
            CPX_ABSOLUTE => {
                let addressing_mode = CmpAddressingMode::CmpAddressAddressingMode {
                    mode: CmpAddressAddressingMode::Absolute {
                        mode: AM::Absolute::new(memory, &mut program_counter),
                    },
                };
                Instruction::Cmp { register: Register::X, addressing_mode }
            }
            CPY_IMMEDIATE => {
                let addressing_mode = CmpAddressingMode::Immediate {
                    mode: AM::Immediate::new(memory, &mut program_counter),
                };
                Instruction::Cmp { register: Register::Y, addressing_mode }
            }
            CPY_ZERO_PAGE => {
                let addressing_mode = CmpAddressingMode::CmpAddressAddressingMode {
                    mode: CmpAddressAddressingMode::ZeroPage {
                        mode: AM::ZeroPage::new(memory, &mut program_counter),
                    },
                };
                Instruction::Cmp { register: Register::Y, addressing_mode }
            }
            CPY_ABSOLUTE => {
                let addressing_mode = CmpAddressingMode::CmpAddressAddressingMode {
                    mode: CmpAddressAddressingMode::Absolute {
                        mode: AM::Absolute::new(memory, &mut program_counter),
                    },
                };
                Instruction::Cmp { register: Register::Y, addressing_mode }
            }
            LDA_IMMEDIATE => {
                let addressing_mode = LdAddressingMode::Immediate {
                    mode: AM::Immediate::new(memory, &mut program_counter),
                };
                Instruction::Ld { destination: Register::A, addressing_mode }
            }
            LDA_ZERO_PAGE => {
                let addressing_mode = LdAddressingMode::LdAddressAddressingMode {
                    mode: LdAddressAddressingMode::ZeroPage {
                        mode: AM::ZeroPage::new(memory, &mut program_counter),
                    },
                };
                Instruction::Ld { destination: Register::A, addressing_mode }
            }
            LDA_ZERO_PAGE_X => {
                let addressing_mode = LdAddressingMode::LdAddressAddressingMode {
                    mode: LdAddressAddressingMode::ZeroPageX {
                        mode: AM::ZeroPageX::new(memory, &mut program_counter),
                    },
                };
                Instruction::Ld { destination: Register::A, addressing_mode }
            }
            LDA_ABSOLUTE => {
                let addressing_mode = LdAddressingMode::LdAddressAddressingMode {
                    mode: LdAddressAddressingMode::Absolute {
                        mode: AM::Absolute::new(memory, &mut program_counter),
                    },
                };
                Instruction::Ld { destination: Register::A, addressing_mode }
            }
            LDA_ABSOLUTE_X => {
                let addressing_mode = LdAddressingMode::LdAddressAddressingMode {
                    mode: LdAddressAddressingMode::AbsoluteX {
                        mode: AM::AbsoluteX::new(memory, &mut program_counter),
                    },
                };
                Instruction::Ld { destination: Register::A, addressing_mode }
            }
            LDA_ABSOLUTE_Y => {
                let addressing_mode = LdAddressingMode::LdAddressAddressingMode {
                    mode: LdAddressAddressingMode::AbsoluteY {
                        mode: AM::AbsoluteY::new(memory, &mut program_counter),
                    },
                };
                Instruction::Ld { destination: Register::A, addressing_mode }
            }
            LDA_INDIRECT_X => {
                let addressing_mode = LdAddressingMode::LdAddressAddressingMode {
                    mode: LdAddressAddressingMode::IndirectX {
                        mode: AM::IndirectX::new(memory, &mut program_counter),
                    },
                };
                Instruction::Ld { destination: Register::A, addressing_mode }
            }
            LDA_INDIRECT_Y => {
                let addressing_mode = LdAddressingMode::LdAddressAddressingMode {
                    mode: LdAddressAddressingMode::IndirectY {
                        mode: AM::IndirectY::new(memory, &mut program_counter),
                    },
                };
                Instruction::Ld { destination: Register::A, addressing_mode }
            }
            LDX_IMMEDIATE => {
                let addressing_mode = LdAddressingMode::Immediate {
                    mode: AM::Immediate::new(memory, &mut program_counter),
                };
                Instruction::Ld { destination: Register::X, addressing_mode }
            }
            LDX_ZERO_PAGE => {
                let addressing_mode = LdAddressingMode::LdAddressAddressingMode {
                    mode: LdAddressAddressingMode::ZeroPage {
                        mode: AM::ZeroPage::new(memory, &mut program_counter),
                    },
                };
                Instruction::Ld { destination: Register::X, addressing_mode }
            }
            LDX_ZERO_PAGE_Y => {
                let addressing_mode = LdAddressingMode::LdAddressAddressingMode {
                    mode: LdAddressAddressingMode::ZeroPageY {
                        mode: AM::ZeroPageY::new(memory, &mut program_counter),
                    },
                };
                Instruction::Ld { destination: Register::X, addressing_mode }
            }
            LDX_ABSOLUTE => {
                let addressing_mode = LdAddressingMode::LdAddressAddressingMode {
                    mode: LdAddressAddressingMode::Absolute {
                        mode: AM::Absolute::new(memory, &mut program_counter),
                    },
                };
                Instruction::Ld { destination: Register::X, addressing_mode }
            }
            LDX_ABSOLUTE_Y => {
                let addressing_mode = LdAddressingMode::LdAddressAddressingMode {
                    mode: LdAddressAddressingMode::AbsoluteY {
                        mode: AM::AbsoluteY::new(memory, &mut program_counter),
                    },
                };
                Instruction::Ld { destination: Register::X, addressing_mode }
            }
            LDY_IMMEDIATE => {
                let addressing_mode = LdAddressingMode::Immediate {
                    mode: AM::Immediate::new(memory, &mut program_counter),
                };
                Instruction::Ld { destination: Register::Y, addressing_mode }
            }
            LDY_ZERO_PAGE => {
                let addressing_mode = LdAddressingMode::LdAddressAddressingMode {
                    mode: LdAddressAddressingMode::ZeroPage {
                        mode: AM::ZeroPage::new(memory, &mut program_counter),
                    },
                };
                Instruction::Ld { destination: Register::Y, addressing_mode }
            }
            LDY_ZERO_PAGE_X => {
                let addressing_mode = LdAddressingMode::LdAddressAddressingMode {
                    mode: LdAddressAddressingMode::ZeroPageX {
                        mode: AM::ZeroPageX::new(memory, &mut program_counter),
                    },
                };
                Instruction::Ld { destination: Register::Y, addressing_mode }
            }
            LDY_ABSOLUTE => {
                let addressing_mode = LdAddressingMode::LdAddressAddressingMode {
                    mode: LdAddressAddressingMode::Absolute {
                        mode: AM::Absolute::new(memory, &mut program_counter),
                    },
                };
                Instruction::Ld { destination: Register::Y, addressing_mode }
            }
            LDY_ABSOLUTE_X => {
                let addressing_mode = LdAddressingMode::LdAddressAddressingMode {
                    mode: LdAddressAddressingMode::AbsoluteX {
                        mode: AM::AbsoluteX::new(memory, &mut program_counter),
                    },
                };
                Instruction::Ld { destination: Register::Y, addressing_mode }
            }
            TAX => Instruction::Trr { origin: Register::A, destination: Register::X },
            INX => Instruction::In { destination: Register::X },
            code => {
                return Err(InstructionError::InvalidInstructionCode { code });
            },
        };

        Ok((instruction, program_counter))
    }
}

} // verus!
