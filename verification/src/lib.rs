//! An interpreter core for the MOS 6502 family of 8-bit microprocessors.
//!
//! [`cpu`] models the processor's architectural state (registers, status
//! flags and a flat 64 KiB memory), decodes machine instructions from memory
//! and executes them.  [`addressing_enum`] plans, for an instruction and the
//! addressing modes it accepts, the types that describe its operand.
//!
//! Every operation carries a contract over a mathematical model of what it
//! works on, and the contracts are machine-checked.
pub mod addressing_enum;
pub mod cpu;
