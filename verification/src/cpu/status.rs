//! The processor status register: six named flags packed into one byte.
//!
//! The register is modelled twice.  [`Status::bits`] is the packed byte, with
//! every flag at the position the 6502 gives it; [`StatusView`] is the same
//! information as six named booleans, which is what the rest of the processor
//! reasons about.
use vstd::prelude::*;

verus! {

/// The architectural flags of the status register.
#[derive(Debug, Clone, Copy, PartialEq, Eq, Structural)]
pub enum Flags {
    Carry,
    Zero,
    InterruptDisable,
    Decimal,
    Overflow,
    Negative,
}

impl Flags {
    /// The bit that holds the flag in the packed status byte.
    pub open spec fn mask(self) -> u8 {
        match self {
            Flags::Carry => 0b0000_0001,
            Flags::Zero => 0b0000_0010,
            Flags::InterruptDisable => 0b0000_0100,
            Flags::Decimal => 0b0000_1000,
            Flags::Overflow => 0b0100_0000,
            Flags::Negative => 0b1000_0000,
        }
    }
}

impl From<Flags> for u8 {
    /// The flag's bit in the packed status byte.
    fn from(value: Flags) -> (mask: u8)
        ensures
            mask == value.mask(),
    {
        match value {
            Flags::Carry => 0b0000_0001,
            Flags::Zero => 0b0000_0010,
            Flags::InterruptDisable => 0b0000_0100,
            Flags::Decimal => 0b0000_1000,
            Flags::Overflow => 0b0100_0000,
            Flags::Negative => 0b1000_0000,
        }
    }
}

impl vstd::std_specs::convert::FromSpecImpl<Flags> for u8 {
    open spec fn obeys_from_spec() -> bool {
        true
    }

    open spec fn from_spec(value: Flags) -> u8 {
        value.mask()
    }
}

/// Whether bit 7 of the byte is set: whether the byte, read as a signed
/// number, is negative.
pub open spec fn bit_7(byte: u8) -> bool {
    byte >= 0x80
}

/// Whether bit 6 of the byte is set.
pub open spec fn bit_6(byte: u8) -> bool {
    byte % 0x80 >= 0x40
}

/// Bits 7 and 6 of a byte are what the masks `0x80` and `0x40` select.
pub proof fn lemma_bits_are_masked(byte: u8)
    by (bit_vector)
    ensures
        bit_7(byte) == (byte & 0b1000_0000 != 0),
        bit_6(byte) == (byte & 0b0100_0000 != 0),
{
}

/// The status register as six named booleans.
pub struct StatusView {
    pub carry: bool,
    pub zero: bool,
    pub interrupt_disable: bool,
    pub decimal: bool,
    pub overflow: bool,
    pub negative: bool,
}

impl StatusView {
    /// The register with every flag clear.
    pub open spec fn cleared() -> StatusView {
        StatusView {
            carry: false,
            zero: false,
            interrupt_disable: false,
            decimal: false,
            overflow: false,
            negative: false,
        }
    }

    /// The flags that a packed status byte holds.
    pub open spec fn unpack(bits: u8) -> StatusView {
        StatusView {
            carry: bits & 0b0000_0001 != 0,
            zero: bits & 0b0000_0010 != 0,
            interrupt_disable: bits & 0b0000_0100 != 0,
            decimal: bits & 0b0000_1000 != 0,
            overflow: bits & 0b0100_0000 != 0,
            negative: bits & 0b1000_0000 != 0,
        }
    }

    /// The value of one flag.
    pub open spec fn get(self, flag: Flags) -> bool {
        match flag {
            Flags::Carry => self.carry,
            Flags::Zero => self.zero,
            Flags::InterruptDisable => self.interrupt_disable,
            Flags::Decimal => self.decimal,
            Flags::Overflow => self.overflow,
            Flags::Negative => self.negative,
        }
    }

    /// The register with one flag replaced and the other five kept.
    pub open spec fn set(self, flag: Flags, value: bool) -> StatusView {
        match flag {
            Flags::Carry => StatusView { carry: value, ..self },
            Flags::Zero => StatusView { zero: value, ..self },
            Flags::InterruptDisable => StatusView { interrupt_disable: value, ..self },
            Flags::Decimal => StatusView { decimal: value, ..self },
            Flags::Overflow => StatusView { overflow: value, ..self },
            Flags::Negative => StatusView { negative: value, ..self },
        }
    }

    /// The register after the Zero and Negative flags have been set from a
    /// result byte: Zero when the byte is 0, Negative when its bit 7 is set.
    pub open spec fn set_zero_and_negative(self, result: u8) -> StatusView {
        StatusView { zero: result == 0, negative: bit_7(result), ..self }
    }
}

/// A flag that has just been set reads back as set to that value, and no
/// other flag is touched by setting it.
pub proof fn lemma_set_then_get(status: StatusView, flag: Flags, value: bool, other: Flags)
    ensures
        status.set(flag, value).get(flag) == value,
        other != flag ==> status.set(flag, value).get(other) == status.get(other),
{
}

/// Bit algebra behind [`Status::set`]: or-ing a flag's bit in, or masking it
/// out, changes that flag alone and leaves the two unused bits as they were.
proof fn lemma_single_bit_update(bits: u8, m: u8, n: u8)
    by (bit_vector)
    requires
        m == 0x01 || m == 0x02 || m == 0x04 || m == 0x08 || m == 0x40 || m == 0x80,
        n == 0x01 || n == 0x02 || n == 0x04 || n == 0x08 || n == 0x40 || n == 0x80,
    ensures
        ((bits | m) & n != 0) == (n == m || bits & n != 0),
        ((bits & (0xff ^ m)) & n != 0) == (n != m && bits & n != 0),
        (bits | m) & 0x30 == bits & 0x30,
        (bits & (0xff ^ m)) & 0x30 == bits & 0x30,
        0u8 & n == 0,
        0u8 & 0x30 == 0,
{
}

/// The processor status register.
#[derive(Debug)]
pub struct Status {
    flags: u8,
}

impl View for Status {
    type V = StatusView;

    open spec fn view(&self) -> StatusView {
        StatusView::unpack(self.bits())
    }
}

impl Status {
    /// The packed status byte: Carry in bit 0, Zero in bit 1, InterruptDisable
    /// in bit 2, Decimal in bit 3, Overflow in bit 6 and Negative in bit 7.
    pub closed spec fn bits(&self) -> u8 {
        self.flags
    }

    /// The two bits of the packed byte that hold no flag (bits 4 and 5).
    pub open spec fn unused_bits(&self) -> u8 {
        self.bits() & 0b0011_0000
    }

    /// A status register with every flag clear.
    pub fn new() -> (status: Status)
        ensures
            status.bits() == 0,
            status.unused_bits() == 0,
            status@ == StatusView::cleared(),
    {
        proof {
            lemma_single_bit_update(0, 0x01, 0x01);
            lemma_single_bit_update(0, 0x01, 0x02);
            lemma_single_bit_update(0, 0x01, 0x04);
            lemma_single_bit_update(0, 0x01, 0x08);
            lemma_single_bit_update(0, 0x01, 0x40);
            lemma_single_bit_update(0, 0x01, 0x80);
        }
        Status { flags: 0b0000_0000 }
    }

    /// Sets `flag` to `condition` and leaves every other bit of the register
    /// as it was.
    pub fn set(&mut self, flag: Flags, condition: bool)
        ensures
            final(self).bits() == (if condition {
                old(self).bits() | flag.mask()
            } else {
                old(self).bits() & (0b1111_1111 ^ flag.mask())
            }),
            final(self).unused_bits() == old(self).unused_bits(),
            final(self)@ == old(self)@.set(flag, condition),
            final(self)@.get(flag) == condition,
            forall|other: Flags| other != flag ==> final(self)@.get(other) == old(self)@.get(other),
    {
        let mask = u8::from(flag);
        proof {
            lemma_single_bit_update(self.flags, mask, 0x01);
            lemma_single_bit_update(self.flags, mask, 0x02);
            lemma_single_bit_update(self.flags, mask, 0x04);
            lemma_single_bit_update(self.flags, mask, 0x08);
            lemma_single_bit_update(self.flags, mask, 0x40);
            lemma_single_bit_update(self.flags, mask, 0x80);
        }
        if condition {
            self.flags = self.flags | mask;
        } else {
            self.flags = self.flags & (0b1111_1111 ^ mask);
        }
    }

    /// Whether `flag` is set.
    pub fn get(&self, flag: Flags) -> (value: bool)
        ensures
            value == self@.get(flag),
    {
        self.flags & u8::from(flag) != 0b0000_0000
    }
}

} // verus!
