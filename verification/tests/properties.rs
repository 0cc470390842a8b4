use mos6502::cpu::instruction::addressing_mode as AM;
use mos6502::cpu::instruction::addressing_mode::{IntoAddress, IntoValue};
use mos6502::cpu::instruction::opcodes::{
    ASL_ZERO_PAGE, BIT_ABSOLUTE, CMP_ABSOLUTE, CMP_ABSOLUTE_X, CMP_ABSOLUTE_Y, CMP_IMMEDIATE,
    CMP_INDIRECT_X, CMP_INDIRECT_Y, CMP_ZERO_PAGE, CMP_ZERO_PAGE_X, CPX_ABSOLUTE, CPX_IMMEDIATE,
    CPX_ZERO_PAGE, CPY_ABSOLUTE, CPY_IMMEDIATE, CPY_ZERO_PAGE, INX, LDA_INDIRECT_X,
    LDA_INDIRECT_Y, LDA_ZERO_PAGE_X, LDX_ABSOLUTE_Y,
};
use mos6502::cpu::instruction::{
    AdcAddressingMode, AslAddressAddressingMode, AslAddressingMode, BitAddressingMode,
    CmpAddressAddressingMode, CmpAddressingMode, Instruction, InstructionError,
    LdAddressAddressingMode, LdAddressingMode,
};
use mos6502::cpu::memory::{word_from_bytes, CpuMemoryError, Memory};
use mos6502::cpu::status::{Flags, Status};
use mos6502::cpu::{Cpu, Register};

const FLAGS: [Flags; 6] = [
    Flags::Carry,
    Flags::Zero,
    Flags::InterruptDisable,
    Flags::Decimal,
    Flags::Overflow,
    Flags::Negative,
];

fn decode_bytes(at: u16, bytes: &[u8]) -> Result<(Instruction, u16), InstructionError> {
    let mut memory = Memory::new();
    for (i, byte) in bytes.iter().enumerate() {
        memory.write(at.wrapping_add(i as u16), *byte);
    }
    Instruction::get_instruction(&memory, &at)
}

#[test]
fn load_writes_the_block_and_nothing_else() {
    let mut memory = Memory::new();
    for address in 0..=0xFFFFu16 {
        memory.write(address, (address % 251) as u8);
    }
    let block = [0xDE, 0xAD, 0xBE, 0xEF, 0x01];
    memory.load(0x1234, &block).unwrap();
    for address in 0..=0xFFFFu16 {
        let expected = if (0x1234..0x1239).contains(&address) {
            block[(address - 0x1234) as usize]
        } else {
            (address % 251) as u8
        };
        assert_eq!(memory.read(address), expected);
    }
    assert_eq!(memory.read_u16(0x1234), 0xADDE);
}

#[test]
fn load_at_the_end_of_memory() {
    let mut memory = Memory::new();
    memory.load(0xFFFE, &[0x11, 0x22]).unwrap();
    assert_eq!(memory.read(0xFFFE), 0x11);
    assert_eq!(memory.read(0xFFFF), 0x22);
    assert_eq!(memory.read(0x0000), 0x00);

    let result = memory.load(0xFFFE, &[0x33, 0x44, 0x55]);
    assert!(matches!(result, Err(CpuMemoryError::IndexOutOfBounds { address: 0xFFFE })));
    // A refused load writes nothing.
    assert_eq!(memory.read(0xFFFE), 0x11);
    assert_eq!(memory.read(0xFFFF), 0x22);
    assert_eq!(memory.read(0x0000), 0x00);

    memory.load(0xFFFF, &[]).unwrap();
    memory.load(0x0000, &[0u8; 0x10000]).unwrap();
    assert_eq!(memory.read(0xFFFF), 0x00);
    let result = memory.load(0x0001, &[0u8; 0x10000]);
    assert!(matches!(result, Err(CpuMemoryError::IndexOutOfBounds { address: 0x0001 })));
}

#[test]
fn words_round_trip_at_every_address() {
    let mut memory = Memory::new();
    for address in 0..=0xFFFFu16 {
        let word = address.wrapping_mul(40503).wrapping_add(0x1F3D);
        memory.write_u16(address, word);
        assert_eq!(memory.read_u16(address), word);
        assert_eq!(memory.read(address), (word & 0xFF) as u8);
        assert_eq!(memory.read(address.wrapping_add(1)), (word >> 8) as u8);
    }
}

#[test]
fn a_word_at_the_last_address_wraps_to_the_first() {
    let mut memory = Memory::new();
    memory.write_u16(0xFFFF, 0xABCD);
    assert_eq!(memory.read(0xFFFF), 0xCD);
    assert_eq!(memory.read(0x0000), 0xAB);
    assert_eq!(memory.read_u16(0xFFFF), 0xABCD);
    assert_eq!(word_from_bytes(0xCD, 0xAB), 0xABCD);
    assert_eq!(word_from_bytes(0xFF, 0x00), 0x00FF);
}

#[test]
fn setting_a_flag_touches_no_other() {
    for flag in FLAGS {
        for before in [false, true] {
            for value in [false, true] {
                let mut status = Status::new();
                for other in FLAGS {
                    status.set(other, before);
                }
                status.set(flag, value);
                assert_eq!(status.get(flag), value);
                for other in FLAGS {
                    if other != flag {
                        assert_eq!(status.get(other), before);
                    }
                }
            }
        }
    }
}

#[test]
fn flags_sit_at_their_6502_bit_positions() {
    assert_eq!(u8::from(Flags::Carry), 0b0000_0001);
    assert_eq!(u8::from(Flags::Zero), 0b0000_0010);
    assert_eq!(u8::from(Flags::InterruptDisable), 0b0000_0100);
    assert_eq!(u8::from(Flags::Decimal), 0b0000_1000);
    assert_eq!(u8::from(Flags::Overflow), 0b0100_0000);
    assert_eq!(u8::from(Flags::Negative), 0b1000_0000);
}

#[test]
fn zero_and_negative_follow_the_loaded_byte() {
    let mut cpu = Cpu::new();
    for value in 0..=0xFFu8 {
        for destination in [Register::A, Register::X, Register::Y] {
            cpu.status.set(Flags::Zero, value != 0);
            cpu.status.set(Flags::Negative, value < 0x80);
            cpu.execute(Instruction::Ld {
                destination,
                addressing_mode: LdAddressingMode::Immediate {
                    mode: AM::Immediate { immediate: value },
                },
            });
            assert_eq!(cpu.get_register(&destination), value);
            assert_eq!(cpu.status.get(Flags::Zero), value == 0);
            assert_eq!(cpu.status.get(Flags::Negative), value & 0x80 != 0);
        }
    }
}

#[test]
fn adc_on_every_pair_of_bytes() {
    let mut cpu = Cpu::new();
    for a in 0..=0xFFu8 {
        for m in 0..=0xFFu8 {
            for carry in [false, true] {
                cpu.register_a = a;
                cpu.register_x = 0x12;
                cpu.status.set(Flags::Carry, carry);
                cpu.status.set(Flags::Decimal, true);
                cpu.status.set(Flags::Overflow, a % 2 == 0);
                cpu.status.set(Flags::Zero, m % 2 == 0);
                cpu.status.set(Flags::Negative, m % 3 == 0);
                cpu.execute(Instruction::Adc {
                    addressing_mode: AdcAddressingMode::Immediate {
                        mode: AM::Immediate { immediate: m },
                    },
                });
                let sum = a as u32 + m as u32 + carry as u32;
                let signed = (a as i8) as i32 + (m as i8) as i32 + carry as i32;
                assert_eq!(cpu.register_a as u32, sum % 256);
                assert_eq!(cpu.status.get(Flags::Carry), sum > 255);
                assert_eq!(cpu.status.get(Flags::Overflow), !(-128..=127).contains(&signed));
                assert_eq!(cpu.status.get(Flags::Zero), sum % 256 == 0);
                assert_eq!(cpu.status.get(Flags::Negative), sum % 256 >= 128);
                assert!(cpu.status.get(Flags::Decimal));
                assert!(!cpu.status.get(Flags::InterruptDisable));
                assert_eq!(cpu.register_x, 0x12);
            }
        }
    }
}

#[test]
fn adc_overflow_is_that_of_the_whole_sum() {
    // -128 + -1 + 1 is -128: the sum fits, though -128 + -1 alone does not.
    let mut cpu = Cpu::new();
    cpu.register_a = 0x80;
    cpu.status.set(Flags::Carry, true);
    cpu.execute(Instruction::Adc {
        addressing_mode: AdcAddressingMode::Immediate { mode: AM::Immediate { immediate: 0xFF } },
    });
    assert_eq!(cpu.register_a, 0x80);
    assert!(!cpu.status.get(Flags::Overflow));
    assert!(cpu.status.get(Flags::Carry));
    assert!(cpu.status.get(Flags::Negative));

    // 127 + 0 + 1 is 128: it does not fit.
    let mut cpu = Cpu::new();
    cpu.register_a = 0x7F;
    cpu.status.set(Flags::Carry, true);
    cpu.execute(Instruction::Adc {
        addressing_mode: AdcAddressingMode::Immediate { mode: AM::Immediate { immediate: 0x00 } },
    });
    assert_eq!(cpu.register_a, 0x80);
    assert!(cpu.status.get(Flags::Overflow));
    assert!(!cpu.status.get(Flags::Carry));
}

#[test]
fn compare_on_every_pair_of_bytes() {
    let mut cpu = Cpu::new();
    for register in [Register::A, Register::X, Register::Y] {
        for r in 0..=0xFFu8 {
            for m in 0..=0xFFu8 {
                cpu.register_a = 0x5A;
                cpu.register_x = 0xA5;
                cpu.register_y = 0x3C;
                cpu.set_register(&register, r);
                let (a, x, y) = (cpu.register_a, cpu.register_x, cpu.register_y);
                cpu.status.set(Flags::Carry, r < m);
                cpu.status.set(Flags::Zero, r != m);
                cpu.status.set(Flags::Negative, m % 2 == 0);
                cpu.status.set(Flags::Overflow, true);
                cpu.execute(Instruction::Cmp {
                    register,
                    addressing_mode: CmpAddressingMode::Immediate {
                        mode: AM::Immediate { immediate: m },
                    },
                });
                assert_eq!(cpu.status.get(Flags::Carry), r >= m);
                assert_eq!(cpu.status.get(Flags::Zero), r == m);
                assert_eq!(cpu.status.get(Flags::Negative), r.wrapping_sub(m) & 0x80 != 0);
                assert!(cpu.status.get(Flags::Overflow));
                assert_eq!((cpu.register_a, cpu.register_x, cpu.register_y), (a, x, y));
            }
        }
    }
}

#[test]
fn cpx_compares_x_and_not_the_accumulator() {
    let mut cpu = Cpu::new();
    // LDA #$10; LDX #$40; CPX #$20; BRK
    cpu.load_and_run_test(&[0xA9, 0x10, 0xA2, 0x40, CPX_IMMEDIATE, 0x20, 0x00]).unwrap();
    assert!(cpu.status.get(Flags::Carry));
    assert!(!cpu.status.get(Flags::Zero));
    assert!(!cpu.status.get(Flags::Negative));
    assert_eq!(cpu.register_x, 0x40);

    let mut cpu = Cpu::new();
    // LDA #$40; LDY #$10; CPY #$20; BRK
    cpu.load_and_run_test(&[0xA9, 0x40, 0xA0, 0x10, CPY_IMMEDIATE, 0x20, 0x00]).unwrap();
    assert!(!cpu.status.get(Flags::Carry));
    assert!(!cpu.status.get(Flags::Zero));
    assert!(cpu.status.get(Flags::Negative));
    assert_eq!(cpu.register_y, 0x10);

    let mut cpu = Cpu::new();
    // LDA #$77; CMP #$77; BRK
    cpu.load_and_run_test(&[0xA9, 0x77, CMP_IMMEDIATE, 0x77, 0x00]).unwrap();
    assert!(cpu.status.get(Flags::Carry));
    assert!(cpu.status.get(Flags::Zero));
    assert!(!cpu.status.get(Flags::Negative));
    assert_eq!(cpu.register_a, 0x77);
}

#[test]
fn compare_opcodes_decode() {
    let cases: [(u8, Register, u16); 14] = [
        (CMP_IMMEDIATE, Register::A, 2),
        (CMP_ZERO_PAGE, Register::A, 2),
        (CMP_ZERO_PAGE_X, Register::A, 2),
        (CMP_ABSOLUTE, Register::A, 3),
        (CMP_ABSOLUTE_X, Register::A, 3),
        (CMP_ABSOLUTE_Y, Register::A, 3),
        (CMP_INDIRECT_X, Register::A, 2),
        (CMP_INDIRECT_Y, Register::A, 2),
        (CPX_IMMEDIATE, Register::X, 2),
        (CPX_ZERO_PAGE, Register::X, 2),
        (CPX_ABSOLUTE, Register::X, 3),
        (CPY_IMMEDIATE, Register::Y, 2),
        (CPY_ZERO_PAGE, Register::Y, 2),
        (CPY_ABSOLUTE, Register::Y, 3),
    ];
    for (opcode, expected, length) in cases {
        let (instruction, next) = decode_bytes(0x8000, &[opcode, 0xAB, 0xCD]).unwrap();
        assert_eq!(next, 0x8000 + length);
        match instruction {
            Instruction::Cmp { register, .. } => assert_eq!(register, expected),
            _ => panic!("opcode {opcode:#04x} is a compare"),
        }
    }
    assert!(matches!(
        decode_bytes(0x8000, &[CMP_ABSOLUTE_X, 0xAB, 0xCD]).unwrap().0,
        Instruction::Cmp {
            register: Register::A,
            addressing_mode: CmpAddressingMode::CmpAddressAddressingMode {
                mode: CmpAddressAddressingMode::AbsoluteX {
                    mode: AM::AbsoluteX { address: 0xCDAB },
                }
            }
        }
    ));
    assert!(matches!(
        decode_bytes(0x8000, &[CPY_ZERO_PAGE, 0xAB, 0xCD]).unwrap().0,
        Instruction::Cmp {
            register: Register::Y,
            addressing_mode: CmpAddressingMode::CmpAddressAddressingMode {
                mode: CmpAddressAddressingMode::ZeroPage { mode: AM::ZeroPage { address: 0xAB } }
            }
        }
    ));
}

#[test]
fn branch_moves_by_the_signed_offset() {
    let mut cpu = Cpu::new();
    for flag in FLAGS {
        for branch_if in [false, true] {
            for value in [false, true] {
                for byte in 0..=0xFFu8 {
                    for start in [0x0000u16, 0x007F, 0x8002, 0xFF80, 0xFFFF] {
                        cpu.program_counter = start;
                        cpu.status.set(flag, value);
                        cpu.execute(Instruction::Branch {
                            addressing_mode: AM::Relative { offset: byte as i8 },
                            flag,
                            branch_if,
                        });
                        let expected = if value == branch_if {
                            ((start as i32 + (byte as i8) as i32).rem_euclid(0x10000)) as u16
                        } else {
                            start
                        };
                        assert_eq!(cpu.program_counter, expected);
                        assert_eq!(cpu.status.get(flag), value);
                    }
                }
            }
        }
    }
}

#[test]
fn zero_page_indexing_wraps_within_the_page() {
    let mut cpu = Cpu::new();
    cpu.memory.write(0x0001, 0x42);
    cpu.memory.write(0x0101, 0x99);
    // LDX #$02; LDA $FF,X; BRK
    cpu.load_and_run_test(&[0xA2, 0x02, LDA_ZERO_PAGE_X, 0xFF, 0x00]).unwrap();
    assert_eq!(cpu.register_a, 0x42);

    let mut cpu = Cpu::new();
    cpu.register_x = 0x02;
    cpu.register_y = 0x03;
    assert_eq!(AM::ZeroPageX { address: 0xFF }.into_address(&cpu), 0x0001);
    assert_eq!(AM::ZeroPageY { address: 0xFF }.into_address(&cpu), 0x0002);
    assert_eq!(AM::ZeroPage { address: 0xFF }.into_address(&cpu), 0x00FF);
    for address in 0..=0xFFu8 {
        for x in 0..=0xFFu8 {
            cpu.register_x = x;
            let expected = (address as u16 + x as u16) % 0x100;
            assert_eq!(AM::ZeroPageX { address }.into_address(&cpu), expected);
        }
    }
}

#[test]
fn absolute_indexing_wraps_at_16_bits() {
    let mut cpu = Cpu::new();
    cpu.register_x = 0x02;
    cpu.register_y = 0xFF;
    assert_eq!(AM::Absolute { address: 0xFFFF }.into_address(&cpu), 0xFFFF);
    assert_eq!(AM::AbsoluteX { address: 0xFFFF }.into_address(&cpu), 0x0001);
    assert_eq!(AM::AbsoluteY { address: 0xFF01 }.into_address(&cpu), 0x0000);
    assert_eq!(AM::AbsoluteY { address: 0x1000 }.into_address(&cpu), 0x10FF);

    let mut cpu = Cpu::new();
    cpu.memory.write(0x0004, 0x77);
    // LDY #$05; LDX $FFFF,Y; BRK
    cpu.load_and_run_test(&[0xA0, 0x05, LDX_ABSOLUTE_Y, 0xFF, 0xFF, 0x00]).unwrap();
    assert_eq!(cpu.register_x, 0x77);
}

#[test]
fn indirect_pointers_wrap_within_the_zero_page() {
    let mut cpu = Cpu::new();
    cpu.memory.write(0x00FF, 0x34);
    cpu.memory.write(0x0000, 0x12);
    cpu.memory.write(0x0100, 0xEE);
    cpu.register_x = 0x0F;
    cpu.register_y = 0x10;
    assert_eq!(AM::Indirect { address: 0xFF }.into_address(&cpu), 0x1234);
    assert_eq!(AM::IndirectX { address: 0xF0 }.into_address(&cpu), 0x1234);
    assert_eq!(AM::IndirectY { address: 0xFF }.into_address(&cpu), 0x1244);

    cpu.memory.write(0x1234, 0xAA);
    cpu.memory.write(0x1244, 0xBB);
    assert_eq!(AM::IndirectX { address: 0xF0 }.into_value(&cpu), 0xAA);
    assert_eq!(AM::IndirectY { address: 0xFF }.into_value(&cpu), 0xBB);
    assert_eq!(AM::Immediate { immediate: 0x5C }.into_value(&cpu), 0x5C);

    // The pointer plus Y wraps at 16 bits.
    cpu.memory.write(0x0040, 0xF8);
    cpu.memory.write(0x0041, 0xFF);
    assert_eq!(AM::IndirectY { address: 0x40 }.into_address(&cpu), 0x0008);

    let mut cpu = Cpu::new();
    cpu.memory.write(0x00FF, 0x34);
    cpu.memory.write(0x0000, 0x12);
    cpu.memory.write(0x1234, 0xAA);
    cpu.memory.write(0x1239, 0xBB);
    // LDX #$0F; LDA ($F0,X); BRK
    cpu.load_and_run_test(&[0xA2, 0x0F, LDA_INDIRECT_X, 0xF0, 0x00]).unwrap();
    assert_eq!(cpu.register_a, 0xAA);
    // LDY #$05; LDA ($FF),Y; BRK
    cpu.load_and_run_test(&[0xA0, 0x05, LDA_INDIRECT_Y, 0xFF, 0x00]).unwrap();
    assert_eq!(cpu.register_a, 0xBB);
}

#[test]
fn relative_addresses_count_from_the_program_counter() {
    let mut cpu = Cpu::new();
    cpu.program_counter = 0x8002;
    assert_eq!(AM::Relative { offset: 8 }.into_address(&cpu), 0x800A);
    assert_eq!(AM::Relative { offset: -8 }.into_address(&cpu), 0x7FFA);
    assert_eq!(AM::Relative { offset: -128 }.into_address(&cpu), 0x7F82);
    assert_eq!(AM::Relative { offset: 127 }.into_address(&cpu), 0x8081);
    cpu.program_counter = 0x0001;
    assert_eq!(AM::Relative { offset: -2 }.into_address(&cpu), 0xFFFF);
    cpu.program_counter = 0xFFFF;
    assert_eq!(AM::Relative { offset: 1 }.into_address(&cpu), 0x0000);
}

#[test]
fn every_opcode_decodes_to_its_length_or_is_refused() {
    let one: [u8; 7] = [0x00, 0x0A, 0x18, 0xD8, 0x58, 0xB8, 0xAA];
    let three: [u8; 22] = [
        0x6D, 0x7D, 0x79, 0x2D, 0x3D, 0x39, 0x0E, 0x1E, 0x2C, 0xCD, 0xDD, 0xD9, 0xEC, 0xCC, 0xAD,
        0xBD, 0xB9, 0xAE, 0xBE, 0xAC, 0xBC, 0xE8,
    ];
    let two: [u8; 41] = [
        0x69, 0x65, 0x75, 0x61, 0x71, 0x29, 0x25, 0x35, 0x21, 0x31, 0x06, 0x16, 0x90, 0xB0, 0xF0,
        0x24, 0x30, 0xD0, 0x10, 0x50, 0x70, 0xC9, 0xC5, 0xD5, 0xC1, 0xD1, 0xE0, 0xE4, 0xC0, 0xC4,
        0xA9, 0xA5, 0xB5, 0xA1, 0xB1, 0xA2, 0xA6, 0xB6, 0xA0, 0xA4, 0xB4,
    ];
    let mut known = 0;
    for opcode in 0..=0xFFu8 {
        let expected = if opcode == INX || one.contains(&opcode) {
            Some(1)
        } else if two.contains(&opcode) {
            Some(2)
        } else if three.contains(&opcode) {
            Some(3)
        } else {
            None
        };
        for start in [0x8000u16, 0xFFFD, 0xFFFE, 0xFFFF] {
            let result = decode_bytes(start, &[opcode, 0x11, 0x22]);
            match (expected, result) {
                (Some(length), Ok((_, next))) => assert_eq!(next, start.wrapping_add(length)),
                (None, Err(InstructionError::InvalidInstructionCode { code })) => {
                    assert_eq!(code, opcode)
                }
                _ => panic!("opcode {opcode:#04x}"),
            }
        }
        if expected.is_some() {
            known += 1;
        }
    }
    assert_eq!(known, 70);
}

#[test]
fn operands_wrap_past_the_last_address() {
    // The opcode at 0xFFFF takes its operand word from 0x0000 and 0x0001.
    let decoded = decode_bytes(0xFFFF, &[0xAD, 0x34, 0x12]).unwrap();
    assert!(matches!(
        decoded,
        (
            Instruction::Ld {
                destination: Register::A,
                addressing_mode: LdAddressingMode::LdAddressAddressingMode {
                    mode: LdAddressAddressingMode::Absolute {
                        mode: AM::Absolute { address: 0x1234 },
                    }
                }
            },
            0x0002
        )
    ));
    // The operand word itself may lie across the end of memory.
    let decoded = decode_bytes(0xFFFE, &[0xAD, 0x34, 0x12]).unwrap();
    assert!(matches!(
        decoded,
        (
            Instruction::Ld {
                destination: Register::A,
                addressing_mode: LdAddressingMode::LdAddressAddressingMode {
                    mode: LdAddressAddressingMode::Absolute {
                        mode: AM::Absolute { address: 0x1234 },
                    }
                }
            },
            0x0001
        )
    ));
}

#[test]
fn mode_constructors_step_over_their_operand() {
    let mut memory = Memory::new();
    memory.write(0x0010, 0x80);
    memory.write(0x0011, 0x7F);
    memory.write(0xFFFF, 0xCD);
    memory.write(0x0000, 0xAB);

    let mut pc = 0x0010;
    assert_eq!(AM::Immediate::new(&memory, &mut pc).immediate, 0x80);
    assert_eq!(pc, 0x0011);
    let mut pc = 0x0010;
    assert_eq!(AM::ZeroPage::new(&memory, &mut pc).address, 0x80);
    assert_eq!(pc, 0x0011);
    let mut pc = 0x0010;
    assert_eq!(AM::ZeroPageX::new(&memory, &mut pc).address, 0x80);
    assert_eq!(pc, 0x0011);
    let mut pc = 0x0010;
    assert_eq!(AM::ZeroPageY::new(&memory, &mut pc).address, 0x80);
    assert_eq!(pc, 0x0011);
    let mut pc = 0x0010;
    assert_eq!(AM::Relative::new(&memory, &mut pc).offset, -128);
    assert_eq!(AM::Relative::new(&memory, &mut pc).offset, 127);
    assert_eq!(pc, 0x0012);
    let mut pc = 0x0010;
    assert_eq!(AM::Indirect::new(&memory, &mut pc).address, 0x80);
    assert_eq!(AM::IndirectX::new(&memory, &mut pc).address, 0x7F);
    assert_eq!(AM::IndirectY::new(&memory, &mut pc).address, 0x00);
    assert_eq!(pc, 0x0013);
    let mut pc = 0x0010;
    assert_eq!(AM::Absolute::new(&memory, &mut pc).address, 0x7F80);
    assert_eq!(pc, 0x0012);
    let mut pc = 0xFFFF;
    assert_eq!(AM::AbsoluteX::new(&memory, &mut pc).address, 0xABCD);
    assert_eq!(pc, 0x0001);
    let mut pc = 0xFFFF;
    assert_eq!(AM::AbsoluteY::new(&memory, &mut pc).address, 0xABCD);
    assert_eq!(pc, 0x0001);
    let mut pc = 0xFFFF;
    assert_eq!(AM::Immediate::new(&memory, &mut pc).immediate, 0xCD);
    assert_eq!(pc, 0x0000);
}

#[test]
fn asl_shifts_memory_in_place() {
    let mut cpu = Cpu::new();
    cpu.memory.write(0x0010, 0b1100_0001);
    cpu.load(&[ASL_ZERO_PAGE, 0x10, 0x00]).unwrap();
    cpu.reset().unwrap();
    cpu.program_counter = 0x8000;
    cpu.register_a = 0x55;
    cpu.run().unwrap();
    assert_eq!(cpu.memory.read(0x0010), 0b1000_0010);
    assert_eq!(cpu.register_a, 0x55);
    assert!(cpu.status.get(Flags::Carry));
    assert!(cpu.status.get(Flags::Negative));
    assert!(!cpu.status.get(Flags::Zero));

    for source in 0..=0xFFu8 {
        let mut cpu = Cpu::new();
        cpu.register_a = source;
        cpu.execute(Instruction::Asl {
            addressing_mode: AslAddressingMode::Accumulator { mode: AM::Accumulator {} },
        });
        let shifted = ((source as u16 * 2) % 256) as u8;
        assert_eq!(cpu.register_a, shifted);
        assert_eq!(cpu.status.get(Flags::Carry), source >= 0x80);
        assert_eq!(cpu.status.get(Flags::Zero), shifted == 0);
        assert_eq!(cpu.status.get(Flags::Negative), shifted >= 0x80);

        let mut cpu = Cpu::new();
        cpu.register_x = 0x04;
        cpu.memory.write(0x0204, source);
        cpu.execute(Instruction::Asl {
            addressing_mode: AslAddressingMode::AslAddressAddressingMode {
                mode: AslAddressAddressingMode::AbsoluteX {
                    mode: AM::AbsoluteX { address: 0x0200 },
                },
            },
        });
        assert_eq!(cpu.memory.read(0x0204), shifted);
        assert_eq!(cpu.register_a, 0);
        assert_eq!(cpu.status.get(Flags::Carry), source >= 0x80);
    }
}

#[test]
fn bit_tests_against_the_accumulator() {
    for a in [0x00u8, 0x01, 0x3F, 0x40, 0x80, 0xC0, 0xFF] {
        for m in 0..=0xFFu8 {
            let mut cpu = Cpu::new();
            cpu.register_a = a;
            cpu.memory.write(0x1234, m);
            cpu.status.set(Flags::Carry, true);
            cpu.execute(Instruction::Bit {
                addressing_mode: BitAddressingMode::Absolute {
                    mode: AM::Absolute { address: 0x1234 },
                },
            });
            assert_eq!(cpu.status.get(Flags::Negative), m & 0x80 != 0);
            assert_eq!(cpu.status.get(Flags::Overflow), m & 0x40 != 0);
            assert_eq!(cpu.status.get(Flags::Zero), a & m == 0);
            assert!(cpu.status.get(Flags::Carry));
            assert_eq!(cpu.register_a, a);
            assert_eq!(cpu.memory.read(0x1234), m);
        }
    }
    let decoded = decode_bytes(0x8000, &[BIT_ABSOLUTE, 0x34, 0x12]).unwrap();
    assert!(matches!(
        decoded,
        (
            Instruction::Bit {
                addressing_mode: BitAddressingMode::Absolute {
                    mode: AM::Absolute { address: 0x1234 },
                }
            },
            0x8003
        )
    ));
}

#[test]
fn increment_sets_zero_and_negative_only() {
    for destination in [Register::A, Register::X, Register::Y] {
        for value in 0..=0xFFu8 {
            for overflow in [false, true] {
                let mut cpu = Cpu::new();
                cpu.set_register(&destination, value);
                cpu.status.set(Flags::Overflow, overflow);
                cpu.status.set(Flags::Carry, overflow);
                cpu.execute(Instruction::In { destination });
                let expected = value.wrapping_add(1);
                assert_eq!(cpu.get_register(&destination), expected);
                assert_eq!(cpu.status.get(Flags::Zero), expected == 0);
                assert_eq!(cpu.status.get(Flags::Negative), expected >= 0x80);
                assert_eq!(cpu.status.get(Flags::Overflow), overflow);
                assert_eq!(cpu.status.get(Flags::Carry), overflow);
            }
        }
    }
}

#[test]
fn transfer_copies_between_any_two_registers() {
    for origin in [Register::A, Register::X, Register::Y] {
        for destination in [Register::A, Register::X, Register::Y] {
            for value in [0x00u8, 0x01, 0x7F, 0x80, 0xFF] {
                let mut cpu = Cpu::new();
                cpu.register_a = 0x11;
                cpu.register_x = 0x22;
                cpu.register_y = 0x33;
                cpu.set_register(&origin, value);
                cpu.execute(Instruction::Trr { origin, destination });
                assert_eq!(cpu.get_register(&destination), value);
                assert_eq!(cpu.get_register(&origin), value);
                assert_eq!(cpu.status.get(Flags::Zero), value == 0);
                assert_eq!(cpu.status.get(Flags::Negative), value >= 0x80);
            }
        }
    }
}

#[test]
fn and_combines_the_accumulator_with_the_operand() {
    for a in [0x00u8, 0x0F, 0x55, 0x80, 0xAA, 0xFF] {
        for m in 0..=0xFFu8 {
            let mut cpu = Cpu::new();
            cpu.register_a = a;
            cpu.status.set(Flags::Carry, true);
            cpu.status.set(Flags::Overflow, true);
            cpu.load(&[0x29, m, 0x00]).unwrap();
            cpu.program_counter = 0x8000;
            cpu.run().unwrap();
            assert_eq!(cpu.register_a, a & m);
            assert_eq!(cpu.status.get(Flags::Zero), a & m == 0);
            assert_eq!(cpu.status.get(Flags::Negative), (a & m) >= 0x80);
            assert!(cpu.status.get(Flags::Carry));
            assert!(cpu.status.get(Flags::Overflow));
        }
    }
}

#[test]
fn break_leaves_everything_but_the_program_counter() {
    let mut cpu = Cpu::new();
    cpu.register_a = 0x12;
    cpu.status.set(Flags::Carry, true);
    cpu.program_counter = 0x4000;
    assert!(matches!(cpu.step(), Ok(true)));
    assert_eq!(cpu.program_counter, 0x4001);
    assert_eq!(cpu.register_a, 0x12);
    assert!(cpu.status.get(Flags::Carry));
    assert_eq!(cpu.stack_pointer, 0xFF);
    cpu.execute(Instruction::Break);
    assert_eq!(cpu.program_counter, 0x4001);
}
