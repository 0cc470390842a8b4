//! The addressing modes: what an instruction's operand bytes mean.
//!
//! A mode's descriptor holds only the operand bytes that were decoded from
//! the instruction stream.  The address or value that they stand for depends
//! on the registers and the memory at the time the instruction executes, and
//! is worked out then: [`IntoAddress`] gives the effective address,
//! [`IntoValue`] the effective value.
use vstd::prelude::*;
use crate::cpu::memory::{
    address_after, high_byte, low_byte, word_from_bytes, word_of, Memory,
};
use crate::cpu::state::CpuState;
use crate::cpu::Cpu;

verus! {

/// The byte read as a two's-complement number.
pub open spec fn signed_byte(byte: u8) -> i8 {
    if byte >= 0x80 {
        (byte - 0x100) as i8
    } else {
        byte as i8
    }
}

/// The byte that reads as `number` in two's complement.
pub open spec fn unsigned_byte(number: i8) -> u8 {
    if number < 0 {
        (number + 0x100) as u8
    } else {
        number as u8
    }
}

/// The word that the zero page holds at `pointer`: the low byte there, the
/// high byte at the next address of the page, which after `0xFF` is `0x00`.
pub open spec fn zero_page_pointer(memory: Seq<u8>, pointer: u8) -> u16 {
    word_of(memory[pointer as int], memory[(pointer + 1) % 0x100])
}

/// A cast from `u8` to `i8` reads the byte as a two's-complement number.
pub proof fn lemma_cast_is_signed_byte(byte: u8)
    by (bit_vector)
    ensures
        byte >= 0x80 ==> (byte as i8) as int == byte as int - 0x100,
        byte < 0x80 ==> (byte as i8) as int == byte as int,
{
}

/// A mode whose operand designates a place in memory.
pub trait IntoAddress {
    /// The effective address of the operand in a given processor state.
    spec fn effective_address(&self, cpu: CpuState) -> u16;

    /// Computes the effective address of the operand.
    fn into_address(&self, cpu: &Cpu) -> (address: u16)
        ensures
            address == self.effective_address(cpu@),
    ;
}

/// A mode whose operand designates a byte to work on.
pub trait IntoValue {
    /// The effective value of the operand in a given processor state.
    spec fn effective_value(&self, cpu: CpuState) -> u8;

    /// Fetches the effective value of the operand.
    fn into_value(&self, cpu: &Cpu) -> (value: u8)
        ensures
            value == self.effective_value(cpu@),
    ;
}

/// The effective value of a mode that designates a place in memory is the
/// byte stored there.
impl<T: IntoAddress> IntoValue for T {
    open spec fn effective_value(&self, cpu: CpuState) -> u8 {
        cpu.memory[self.effective_address(cpu) as int]
    }

    fn into_value(&self, cpu: &Cpu) -> (value: u8) {
        let address = self.into_address(cpu);
        let result = cpu.memory.read(address);
        result
    }
}

/// No operand: the instruction names everything it works on.
#[derive(Debug, Clone, Copy)]
pub struct Implicit {}

/// The operand is the accumulator.
#[derive(Debug, Clone, Copy)]
pub struct Accumulator {}

/// The operand byte is the value itself.
#[derive(Debug, Clone, Copy)]
pub struct Immediate {
    pub immediate: u8,
}

impl Immediate {
    /// The operand bytes that follow the opcode.
    pub open spec fn operand(self) -> Seq<u8> {
        seq![self.immediate]
    }

    /// Reads the operand byte at `program_counter` and steps over it.
    pub fn new(memory: &Memory, program_counter: &mut u16) -> (mode: Immediate)
        ensures
            mode.immediate == memory@[*old(program_counter) as int],
            *final(program_counter) == address_after(*old(program_counter), 1),
    {
        let immediate = memory.read(*program_counter);
        *program_counter = program_counter.wrapping_add(1);
        Immediate { immediate }
    }
}

impl IntoValue for Immediate {
    open spec fn effective_value(&self, cpu: CpuState) -> u8 {
        self.immediate
    }

    fn into_value(&self, _cpu: &Cpu) -> (value: u8) {
        self.immediate
    }
}

/// The operand byte is an address in the zero page.
#[derive(Debug, Clone, Copy)]
pub struct ZeroPage {
    pub address: u8,
}

impl ZeroPage {
    /// The operand bytes that follow the opcode.
    pub open spec fn operand(self) -> Seq<u8> {
        seq![self.address]
    }

    /// Reads the operand byte at `program_counter` and steps over it.
    pub fn new(memory: &Memory, program_counter: &mut u16) -> (mode: ZeroPage)
        ensures
            mode.address == memory@[*old(program_counter) as int],
            *final(program_counter) == address_after(*old(program_counter), 1),
    {
        let address = memory.read(*program_counter);
        *program_counter = program_counter.wrapping_add(1);
        ZeroPage { address }
    }
}

/// The operand byte plus register X, wrapping within the zero page.
#[derive(Debug, Clone, Copy)]
pub struct ZeroPageX {
    pub address: u8,
}

impl ZeroPageX {
    /// The operand bytes that follow the opcode.
    pub open spec fn operand(self) -> Seq<u8> {
        seq![self.address]
    }

    /// Reads the operand byte at `program_counter` and steps over it.
    pub fn new(memory: &Memory, program_counter: &mut u16) -> (mode: ZeroPageX)
        ensures
            mode.address == memory@[*old(program_counter) as int],
            *final(program_counter) == address_after(*old(program_counter), 1),
    {
        let address: u8 = memory.read(*program_counter);
        *program_counter = program_counter.wrapping_add(1);
        ZeroPageX { address }
    }
}

/// The operand byte plus register Y, wrapping within the zero page.
#[derive(Debug, Clone, Copy)]
pub struct ZeroPageY {
    pub address: u8,
}

impl ZeroPageY {
    /// The operand bytes that follow the opcode.
    pub open spec fn operand(self) -> Seq<u8> {
        seq![self.address]
    }

    /// Reads the operand byte at `program_counter` and steps over it.
    pub fn new(memory: &Memory, program_counter: &mut u16) -> (mode: ZeroPageY)
        ensures
            mode.address == memory@[*old(program_counter) as int],
            *final(program_counter) == address_after(*old(program_counter), 1),
    {
        let address: u8 = memory.read(*program_counter);
        *program_counter = program_counter.wrapping_add(1);
        ZeroPageY { address }
    }
}

/// The operand byte is a signed distance from the program counter.
#[derive(Debug, Clone, Copy)]
pub struct Relative {
    pub offset: i8,
}

impl Relative {
    /// The operand bytes that follow the opcode.
    pub open spec fn operand(self) -> Seq<u8> {
        seq![unsigned_byte(self.offset)]
    }

    /// Reads the operand byte at `program_counter` as a signed offset and
    /// steps over it.
    pub fn new(memory: &Memory, program_counter: &mut u16) -> (mode: Relative)
        ensures
            mode.offset == signed_byte(memory@[*old(program_counter) as int]),
            *final(program_counter) == address_after(*old(program_counter), 1),
    {
        let byte = memory.read(*program_counter);
        proof {
            lemma_cast_is_signed_byte(byte);
        }
        let offset = byte as i8;
        *program_counter = program_counter.wrapping_add(1);
        Relative { offset }
    }
}

/// The operand word is the address.
#[derive(Debug, Clone, Copy)]
pub struct Absolute {
    pub address: u16,
}

impl Absolute {
    /// The operand bytes that follow the opcode.
    pub open spec fn operand(self) -> Seq<u8> {
        seq![low_byte(self.address), high_byte(self.address)]
    }

    /// Reads the little-endian operand word at `program_counter` and steps
    /// over it.
    pub fn new(memory: &Memory, program_counter: &mut u16) -> (mode: Absolute)
        ensures
            mode.address == crate::cpu::memory::read_u16_spec(memory@, *old(program_counter)),
            *final(program_counter) == address_after(*old(program_counter), 2),
    {
        let address = memory.read_u16(*program_counter);
        *program_counter = program_counter.wrapping_add(2);
        Absolute { address }
    }
}

/// The operand word plus register X, wrapping at 16 bits.
#[derive(Debug, Clone, Copy)]
pub struct AbsoluteX {
    pub address: u16,
}

impl AbsoluteX {
    /// The operand bytes that follow the opcode.
    pub open spec fn operand(self) -> Seq<u8> {
        seq![low_byte(self.address), high_byte(self.address)]
    }

    /// Reads the little-endian operand word at `program_counter` and steps
    /// over it.
    pub fn new(memory: &Memory, program_counter: &mut u16) -> (mode: AbsoluteX)
        ensures
            mode.address == crate::cpu::memory::read_u16_spec(memory@, *old(program_counter)),
            *final(program_counter) == address_after(*old(program_counter), 2),
    {
        let address = memory.read_u16(*program_counter);
        *program_counter = program_counter.wrapping_add(2);
        AbsoluteX { address }
    }
}

/// The operand word plus register Y, wrapping at 16 bits.
#[derive(Debug, Clone, Copy)]
pub struct AbsoluteY {
    pub address: u16,
}

impl AbsoluteY {
    /// The operand bytes that follow the opcode.
    pub open spec fn operand(self) -> Seq<u8> {
        seq![low_byte(self.address), high_byte(self.address)]
    }

    /// Reads the little-endian operand word at `program_counter` and steps
    /// over it.
    pub fn new(memory: &Memory, program_counter: &mut u16) -> (mode: AbsoluteY)
        ensures
            mode.address == crate::cpu::memory::read_u16_spec(memory@, *old(program_counter)),
            *final(program_counter) == address_after(*old(program_counter), 2),
    {
        let address = memory.read_u16(*program_counter);
        *program_counter = program_counter.wrapping_add(2);
        AbsoluteY { address }
    }
}

/// The operand byte names a zero-page pointer to the address.
#[derive(Debug, Clone, Copy)]
pub struct Indirect {
    pub address: u8,
}

impl Indirect {
    /// The operand bytes that follow the opcode.
    pub open spec fn operand(self) -> Seq<u8> {
        seq![self.address]
    }

    /// Reads the operand byte at `program_counter` and steps over it.
    pub fn new(memory: &Memory, program_counter: &mut u16) -> (mode: Indirect)
        ensures
            mode.address == memory@[*old(program_counter) as int],
            *final(program_counter) == address_after(*old(program_counter), 1),
    {
        let address = memory.read(*program_counter);
        *program_counter = program_counter.wrapping_add(1);
        Indirect { address }
    }
}

/// The operand byte plus register X names a zero-page pointer to the
/// address.
#[derive(Debug, Clone, Copy)]
pub struct IndirectX {
    pub address: u8,
}

impl IndirectX {
    /// The operand bytes that follow the opcode.
    pub open spec fn operand(self) -> Seq<u8> {
        seq![self.address]
    }

    /// Reads the operand byte at `program_counter` and steps over it.
    pub fn new(memory: &Memory, program_counter: &mut u16) -> (mode: IndirectX)
        ensures
            mode.address == memory@[*old(program_counter) as int],
            *final(program_counter) == address_after(*old(program_counter), 1),
    {
        let address = memory.read(*program_counter);
        *program_counter = program_counter.wrapping_add(1);
        IndirectX { address }
    }
}

/// The operand byte names a zero-page pointer; the address is what it holds
/// plus register Y.
#[derive(Debug, Clone, Copy)]
pub struct IndirectY {
    pub address: u8,
}

impl IndirectY {
    /// The operand bytes that follow the opcode.
    pub open spec fn operand(self) -> Seq<u8> {
        seq![self.address]
    }

    /// Reads the operand byte at `program_counter` and steps over it.
    pub fn new(memory: &Memory, program_counter: &mut u16) -> (mode: IndirectY)
        ensures
            mode.address == memory@[*old(program_counter) as int],
            *final(program_counter) == address_after(*old(program_counter), 1),
    {
        let address = memory.read(*program_counter);
        *program_counter = program_counter.wrapping_add(1);
        IndirectY { address }
    }
}

impl IntoAddress for ZeroPage {
    open spec fn effective_address(&self, cpu: CpuState) -> u16 {
        self.address as u16
    }

    fn into_address(&self, _cpu: &Cpu) -> (address: u16) {
        self.address as u16
    }
}

impl IntoAddress for ZeroPageX {
    open spec fn effective_address(&self, cpu: CpuState) -> u16 {
        ((self.address + cpu.register_x) % 0x100) as u16
    }

    fn into_address(&self, cpu: &Cpu) -> (address: u16) {
        let address = self.address.wrapping_add(cpu.register_x);
        address as u16
    }
}

impl IntoAddress for ZeroPageY {
    open spec fn effective_address(&self, cpu: CpuState) -> u16 {
        ((self.address + cpu.register_y) % 0x100) as u16
    }

    fn into_address(&self, cpu: &Cpu) -> (address: u16) {
        let address = self.address.wrapping_add(cpu.register_y);
        address as u16
    }
}

impl IntoAddress for Relative {
    open spec fn effective_address(&self, cpu: CpuState) -> u16 {
        address_after(cpu.program_counter, self.offset as int)
    }

    fn into_address(&self, cpu: &Cpu) -> (address: u16) {
        cpu.program_counter.wrapping_add_signed(self.offset as i16)
    }
}

impl IntoAddress for Absolute {
    open spec fn effective_address(&self, cpu: CpuState) -> u16 {
        self.address
    }

    fn into_address(&self, _cpu: &Cpu) -> (address: u16) {
        self.address
    }
}

impl IntoAddress for AbsoluteX {
    open spec fn effective_address(&self, cpu: CpuState) -> u16 {
        address_after(self.address, cpu.register_x as int)
    }

    fn into_address(&self, cpu: &Cpu) -> (address: u16) {
        let address = self.address.wrapping_add(cpu.register_x as u16);
        address
    }
}

impl IntoAddress for AbsoluteY {
    open spec fn effective_address(&self, cpu: CpuState) -> u16 {
        address_after(self.address, cpu.register_y as int)
    }

    fn into_address(&self, cpu: &Cpu) -> (address: u16) {
        let address = self.address.wrapping_add(cpu.register_y as u16);
        address
    }
}

impl IntoAddress for Indirect {
    open spec fn effective_address(&self, cpu: CpuState) -> u16 {
        zero_page_pointer(cpu.memory, self.address)
    }

    fn into_address(&self, cpu: &Cpu) -> (address: u16) {
        let base = self.address;
        let lo = cpu.memory.read(base as u16);
        let hi = cpu.memory.read(base.wrapping_add(1) as u16);
        let address = word_from_bytes(lo, hi);
        address
    }
}

impl IntoAddress for IndirectX {
    open spec fn effective_address(&self, cpu: CpuState) -> u16 {
        zero_page_pointer(cpu.memory, ((self.address + cpu.register_x) % 0x100) as u8)
    }

    fn into_address(&self, cpu: &Cpu) -> (address: u16) {
        let base = self.address.wrapping_add(cpu.register_x);
        let lo = cpu.memory.read(base as u16);
        let hi = cpu.memory.read(base.wrapping_add(1) as u16);
        let address = word_from_bytes(lo, hi);
        address
    }
}

impl IntoAddress for IndirectY {
    open spec fn effective_address(&self, cpu: CpuState) -> u16 {
        address_after(zero_page_pointer(cpu.memory, self.address), cpu.register_y as int)
    }

    fn into_address(&self, cpu: &Cpu) -> (address: u16) {
        let lo = cpu.memory.read(self.address as u16);
        let hi = cpu.memory.read(self.address.wrapping_add(1) as u16);
        let address = word_from_bytes(lo, hi);
        let address = address.wrapping_add(cpu.register_y as u16);
        address
    }
}

} // verus!
