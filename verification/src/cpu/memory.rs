//! The processor's address space: 64 KiB of bytes, one for every 16-bit
//! address.
//!
//! The model of a [`Memory`] is the sequence of its 65 536 bytes.  Addresses
//! wrap: the byte after `0xFFFF` is the byte at `0x0000`.
use vstd::prelude::*;

verus! {

/// The number of bytes in the address space.
pub const MEMORY_SIZE: usize = 0x10000;

/// The address that follows `address` by `distance` bytes, wrapping at 16
/// bits.
pub open spec fn address_after(address: u16, distance: int) -> u16 {
    ((address + distance) % 0x10000) as u16
}

/// The 16-bit word with the given low and high bytes.
pub open spec fn word_of(lo: u8, hi: u8) -> u16 {
    (lo + 0x100 * hi) as u16
}

/// The low byte of a word.
pub open spec fn low_byte(word: u16) -> u8 {
    (word % 0x100) as u8
}

/// The high byte of a word.
pub open spec fn high_byte(word: u16) -> u8 {
    (word / 0x100) as u8
}

/// The little-endian word stored at `address`: the low byte there, the high
/// byte at the next address.
pub open spec fn read_u16_spec(memory: Seq<u8>, address: u16) -> u16 {
    word_of(memory[address as int], memory[address_after(address, 1) as int])
}

/// The memory after a little-endian word has been stored at `address`.
pub open spec fn write_u16_spec(memory: Seq<u8>, address: u16, data: u16) -> Seq<u8> {
    memory.update(address as int, low_byte(data)).update(
        address_after(address, 1) as int,
        high_byte(data),
    )
}

/// The memory after `data` has been copied to `address` and the addresses
/// that follow it.
pub open spec fn load_spec(memory: Seq<u8>, address: u16, data: Seq<u8>) -> Seq<u8> {
    Seq::new(
        memory.len(),
        |i: int|
            if address <= i < address + data.len() {
                data[i - address]
            } else {
                memory[i]
            },
    )
}

/// Every memory holds exactly 64 KiB.
pub broadcast proof fn lemma_memory_len(memory: &Memory)
    ensures
        #[trigger] memory@.len() == 0x10000,
{
}

/// A word that has been written is read back unchanged, at every address:
/// also at `0xFFFF`, where the high byte wraps to address 0.
pub proof fn lemma_write_then_read_u16(memory: Seq<u8>, address: u16, data: u16)
    requires
        memory.len() == 0x10000,
    ensures
        read_u16_spec(write_u16_spec(memory, address, data), address) == data,
{
}

/// After a load of at least two bytes, the word at the load address is made
/// of the first two bytes loaded, low byte first.
pub proof fn lemma_load_then_read_u16(memory: Seq<u8>, address: u16, data: Seq<u8>)
    requires
        memory.len() == 0x10000,
        data.len() >= 2,
        address + data.len() <= 0x10000,
    ensures
        read_u16_spec(load_spec(memory, address, data), address) == word_of(data[0], data[1]),
{
}

/// Shifts and masks on a word agree with the arithmetic that the
/// specifications use.
proof fn lemma_word_bits(lo: u16, hi: u16, word: u16)
    by (bit_vector)
    requires
        lo < 0x100,
        hi < 0x100,
    ensures
        (hi << 8) | lo == lo + 0x100 * hi,
        word >> 8 == word / 0x100,
        word & 0xff == word % 0x100,
        word >> 8 < 0x100,
        word & 0xff < 0x100,
{
}

/// The word with low byte `lo` and high byte `hi`.
pub fn word_from_bytes(lo: u8, hi: u8) -> (word: u16)
    ensures
        word == word_of(lo, hi),
{
    let lo = lo as u16;
    let hi = hi as u16;
    proof {
        lemma_word_bits(lo, hi, 0);
    }
    (hi << 8) | lo
}

/// The error of a memory operation.
#[derive(Debug)]
pub enum CpuMemoryError {
    /// A block of bytes does not fit between its start address and the end of
    /// the address space.
    IndexOutOfBounds { address: u16 },
}

/// A flat memory of 64 KiB.
#[derive(Debug)]
pub struct Memory {
    memory: [u8; 0x10000],
}

impl View for Memory {
    type V = Seq<u8>;

    closed spec fn view(&self) -> Seq<u8> {
        self.memory@
    }
}

impl Memory {
    /// A memory filled with zeroes.
    pub fn new() -> (memory: Memory)
        ensures
            memory@ == Seq::new(0x10000, |i: int| 0u8),
    {
        Memory { memory: [0; 0x10000] }
    }

    /// An iterator over the 65 536 bytes, from address 0 upwards.
    pub fn iter(&self) -> (iter: std::slice::Iter<'_, u8>)
        ensures
            vstd::std_specs::slice::into_iter_elts(iter) == self@,
    {
        self.memory.as_slice().iter()
    }

    /// The byte at `address`.
    pub fn read(&self, address: u16) -> (byte: u8)
        ensures
            byte == self@[address as int],
    {
        self.memory[address as usize]
    }

    /// The little-endian word at `address`.
    pub fn read_u16(&self, address: u16) -> (word: u16)
        ensures
            word == read_u16_spec(self@, address),
    {
        let lo = self.read(address);
        let hi = self.read(address.wrapping_add(1));
        word_from_bytes(lo, hi)
    }

    /// Stores `data` at `address`.
    pub fn write(&mut self, address: u16, data: u8)
        ensures
            final(self)@ == old(self)@.update(address as int, data),
    {
        self.memory[address as usize] = data;
    }

    /// Stores `data` at `address`, low byte first.
    pub fn write_u16(&mut self, address: u16, data: u16)
        ensures
            final(self)@ == write_u16_spec(old(self)@, address, data),
    {
        proof {
            lemma_word_bits(0, 0, data);
        }
        let hi = (data >> 8) as u8;
        let lo = (data & 0xff) as u8;
        self.write(address, lo);
        self.write(address.wrapping_add(1), hi);
    }

    /// Copies `data` to `address` and the addresses that follow it.
    ///
    /// Fails, and leaves the memory as it was, when the block would reach
    /// past the last address.
    pub fn load(&mut self, address: u16, data: &[u8]) -> (result: Result<(), CpuMemoryError>)
        ensures
            result is Ok <==> address + data@.len() <= 0x10000,
            result is Ok ==> final(self)@ == load_spec(old(self)@, address, data@),
            result is Ok ==> forall|i: int|
                0 <= i < data@.len() ==> final(self)@[address + i] == data@[i],
            result is Ok ==> forall|a: int|
                0 <= a < 0x10000 && !(address <= a < address + data@.len()) ==> final(self)@[a]
                    == old(self)@[a],
            result is Err ==> result == Err::<(), CpuMemoryError>(
                CpuMemoryError::IndexOutOfBounds { address },
            ),
            result is Err ==> final(self)@ == old(self)@,
    {
        let start = address as usize;
        let len = data.len();
        if len > MEMORY_SIZE - start {
            return Err(CpuMemoryError::IndexOutOfBounds { address });
        }
        let ghost before = self@;
        let mut i: usize = 0;
        while i < len
            invariant
                i <= len,
                len == data@.len(),
                start == address,
                start + len <= 0x10000,
                before.len() == 0x10000,
                self@ == load_spec(before, address, data@.subrange(0, i as int)),
            decreases len - i,
        {
            self.memory[start + i] = data[i];
            i += 1;
        }
        Ok(())
    }
}

} // verus!
