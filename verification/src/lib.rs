//! A bytecode interpreter for a 16-bit, register-based virtual architecture:
//! 32,768 words of memory, eight general registers, an unbounded LIFO stack,
//! and byte-oriented input/output queues. A program image is loaded at address
//! zero and executed one instruction at a time; each step reports whether the
//! machine continues, halts, blocks on input, or faults.

pub mod fault;
pub mod helper;
pub mod instruction;
pub mod laws;
pub mod machine;
pub mod operation;
