//! An interpreter core for the RV32I base instruction set with the integer
//! multiply/divide extension: field decoding, the opcode table, a register
//! file, a byte-addressed memory port and the fetch-decode-execute step.
pub mod instruction;
pub mod regs;
pub mod mem;
pub mod decode;
pub mod alu;
pub mod hart;
