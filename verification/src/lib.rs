//! A register file for an 8-bit CPU in the style of classic Z80-derived
//! cores: an accumulator and flags byte, three general-purpose 16-bit
//! register pairs, a stack pointer and a program counter. The pairs are
//! views over their two bytes, and the four condition flags live in the
//! upper nibble of the flags byte; the lower nibble is always zero.

pub mod registers;
