//! The reasons a load or an execution step can fail.

use vstd::prelude::*;
use crate::helper::{spec_decimal, u16_to_string};

verus! {

/// Why a load or a single execution step failed. Every kind is fatal to the
/// current run; only the separate blocked-on-input outcome is retryable.
#[derive(Clone, Copy, PartialEq, Eq, Debug, Structural)]
pub enum Fault {
    /// The word at the program counter is not one of the 22 defined opcodes.
    UnknownOpcode(u16),
    /// A value operand outside both the literal range [0, 32767] and the
    /// register range [32768, 32775].
    InvalidOperand(u16),
    /// A destination operand that is not a register reference.
    InvalidRegister(u16),
    /// A memory address outside the 32,768-word address space.
    InvalidAddress(u16),
    /// Pop or Ret with nothing on the stack.
    EmptyStack,
    /// A program image of more than 32,768 words.
    ImageTooLarge,
    /// A byte image that is not a whole number of 16-bit words.
    OddImageLength,
    /// Modulo by zero.
    ArithmeticFault,
}

/// The text of `Fault::message`.
pub open spec fn spec_fault_message(f: Fault) -> Seq<char> {
    match f {
        Fault::UnknownOpcode(v) => "Unknown instruction: "@ + spec_decimal(v as nat),
        Fault::InvalidOperand(v) => "Invalid argument: "@ + spec_decimal(v as nat),
        Fault::InvalidRegister(v) => "Invalid register: "@ + spec_decimal(v as nat),
        Fault::InvalidAddress(v) => "Invalid address: "@ + spec_decimal(v as nat),
        Fault::EmptyStack => "Empty stack"@,
        Fault::ImageTooLarge => "Memory exceeds maximum size"@,
        Fault::OddImageLength => "Not a valid image"@,
        Fault::ArithmeticFault => "Modulo by zero"@,
    }
}

impl Fault {
    /// A human-readable description of the fault, for the host's log.
    pub fn message(&self) -> (r: String)
        ensures
            r@ == spec_fault_message(*self),
    {
        let mut s = String::new();
        match *self {
            Fault::UnknownOpcode(v) => {
                s.push_str("Unknown instruction: ");
                s.push_str(u16_to_string(v).as_str());
            },
            Fault::InvalidOperand(v) => {
                s.push_str("Invalid argument: ");
                s.push_str(u16_to_string(v).as_str());
            },
            Fault::InvalidRegister(v) => {
                s.push_str("Invalid register: ");
                s.push_str(u16_to_string(v).as_str());
            },
            Fault::InvalidAddress(v) => {
                s.push_str("Invalid address: ");
                s.push_str(u16_to_string(v).as_str());
            },
            Fault::EmptyStack => {
                s.push_str("Empty stack");
            },
            Fault::ImageTooLarge => {
                s.push_str("Memory exceeds maximum size");
            },
            Fault::OddImageLength => {
                s.push_str("Not a valid image");
            },
            Fault::ArithmeticFault => {
                s.push_str("Modulo by zero");
            },
        }
        proof {
            assert(s@ =~= spec_fault_message(*self));
        }
        s
    }
}

} // verus!
