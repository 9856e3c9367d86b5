//! Register file and status-flag encoding of an 8-bit, Game Boy-class CPU.
//!
//! Eight independent 8-bit registers are read and written one by one or as
//! four 16-bit pairs, and the four status flags are packed into, and unpacked
//! from, the high nibble of a byte.

pub mod flags;
pub mod registers;
pub mod word;
