//! The instruction catalog: the fixed mapping from opcode value to
//! instruction identity, each instruction's operand count, and the rendering
//! of one executed instruction as a trace line.

use vstd::prelude::*;
use crate::fault::Fault;
use crate::helper::{spec_decimal, u16_to_string};

verus! {

/// The 22 instructions of the architecture, in opcode order: `Halt` is
/// opcode 0, `Noop` is opcode 21.
#[derive(Clone, Copy, PartialEq, Eq, Debug, Structural)]
pub enum Instruction {
    Halt,
    SetReg,
    Push,
    Pop,
    Eq,
    Gt,
    Jmp,
    Jt,
    Jf,
    Add,
    Mul,
    Mod,
    And,
    Or,
    Not,
    Rmem,
    Wmem,
    Call,
    Ret,
    Out,
    In,
    Noop,
}

/// Which instruction, if any, the 16-bit word `instr` names: exactly the
/// values 0 through 21 decode, every other value is an unknown opcode.
pub open spec fn spec_decode(instr: u16) -> Result<Instruction, Fault> {
    if instr == 0 {
        Ok(Instruction::Halt)
    } else if instr == 1 {
        Ok(Instruction::SetReg)
    } else if instr == 2 {
        Ok(Instruction::Push)
    } else if instr == 3 {
        Ok(Instruction::Pop)
    } else if instr == 4 {
        Ok(Instruction::Eq)
    } else if instr == 5 {
        Ok(Instruction::Gt)
    } else if instr == 6 {
        Ok(Instruction::Jmp)
    } else if instr == 7 {
        Ok(Instruction::Jt)
    } else if instr == 8 {
        Ok(Instruction::Jf)
    } else if instr == 9 {
        Ok(Instruction::Add)
    } else if instr == 10 {
        Ok(Instruction::Mul)
    } else if instr == 11 {
        Ok(Instruction::Mod)
    } else if instr == 12 {
        Ok(Instruction::And)
    } else if instr == 13 {
        Ok(Instruction::Or)
    } else if instr == 14 {
        Ok(Instruction::Not)
    } else if instr == 15 {
        Ok(Instruction::Rmem)
    } else if instr == 16 {
        Ok(Instruction::Wmem)
    } else if instr == 17 {
        Ok(Instruction::Call)
    } else if instr == 18 {
        Ok(Instruction::Ret)
    } else if instr == 19 {
        Ok(Instruction::Out)
    } else if instr == 20 {
        Ok(Instruction::In)
    } else if instr == 21 {
        Ok(Instruction::Noop)
    } else {
        Err(Fault::UnknownOpcode(instr))
    }
}

/// How many operand words follow the opcode in memory.
pub open spec fn spec_argument_count(inst: Instruction) -> nat {
    match inst {
        Instruction::Halt | Instruction::Noop | Instruction::Ret => 0,
        Instruction::Call
        | Instruction::In
        | Instruction::Jmp
        | Instruction::Out
        | Instruction::Pop
        | Instruction::Push => 1,
        Instruction::Jf
        | Instruction::Jt
        | Instruction::Not
        | Instruction::Rmem
        | Instruction::SetReg
        | Instruction::Wmem => 2,
        Instruction::Add
        | Instruction::And
        | Instruction::Eq
        | Instruction::Gt
        | Instruction::Mod
        | Instruction::Mul
        | Instruction::Or => 3,
    }
}

/// The mnemonic of `inst`, as it appears in a trace line.
pub open spec fn spec_mnemonic(inst: Instruction) -> Seq<char> {
    match inst {
        Instruction::Halt => "halt"@,
        Instruction::SetReg => "set"@,
        Instruction::Push => "push"@,
        Instruction::Pop => "pop"@,
        Instruction::Eq => "eq"@,
        Instruction::Gt => "gt"@,
        Instruction::Jmp => "jmp"@,
        Instruction::Jt => "jt"@,
        Instruction::Jf => "jf"@,
        Instruction::Add => "add"@,
        Instruction::Mul => "mul"@,
        Instruction::Mod => "mod"@,
        Instruction::And => "and"@,
        Instruction::Or => "or"@,
        Instruction::Not => "not"@,
        Instruction::Rmem => "rmem"@,
        Instruction::Wmem => "wmem"@,
        Instruction::Call => "call"@,
        Instruction::Ret => "ret"@,
        Instruction::Out => "out"@,
        Instruction::In => "in"@,
        Instruction::Noop => "noop"@,
    }
}

/// The textual rendering of the raw operand words, each preceded by a space.
pub open spec fn spec_args_text(args: Seq<u16>) -> Seq<char>
    decreases args.len(),
{
    if args.len() == 0 {
        Seq::empty()
    } else {
        spec_args_text(args.drop_last()) + " "@ + spec_decimal(args.last() as nat)
    }
}

/// The full trace line for `inst` executed at the address `pc - args.len() - 1`
/// (`pc` is the program counter after the provisional advance): the address in
/// decimal, a colon, the mnemonic, and each raw operand word.
pub open spec fn spec_trace_line(inst: Instruction, pc: nat, args: Seq<u16>) -> Seq<char> {
    spec_decimal((pc - args.len() - 1) as nat) + ": "@ + spec_mnemonic(inst) + spec_args_text(args)
}

impl Instruction {
    /// Renders one executed instruction as a human-readable trace line.
    /// `pc` has already been advanced past the opcode and its operands, so the
    /// instruction's own address is `pc - args.len() - 1`.
    pub fn log_instruction(&self, pc: usize, args: &[u16]) -> (r: String)
        requires
            args@.len() + 1 <= pc,
            pc - args@.len() - 1 <= u16::MAX,
        ensures
            r@ == spec_trace_line(*self, pc as nat, args@),
    {
        // pc was already incremented, revert for output
        let mut s = u16_to_string((pc - args.len() - 1) as u16);
        s.push_str(": ");
        let mnemonic = match *self {
            Instruction::Halt => "halt",
            Instruction::SetReg => "set",
            Instruction::Push => "push",
            Instruction::Pop => "pop",
            Instruction::Eq => "eq",
            Instruction::Gt => "gt",
            Instruction::Jmp => "jmp",
            Instruction::Jt => "jt",
            Instruction::Jf => "jf",
            Instruction::Add => "add",
            Instruction::Mul => "mul",
            Instruction::Mod => "mod",
            Instruction::And => "and",
            Instruction::Or => "or",
            Instruction::Not => "not",
            Instruction::Rmem => "rmem",
            Instruction::Wmem => "wmem",
            Instruction::Call => "call",
            Instruction::Ret => "ret",
            Instruction::Out => "out",
            Instruction::In => "in",
            Instruction::Noop => "noop",
        };
        s.push_str(mnemonic);

        let mut i: usize = 0;
        while i < args.len()
            invariant
                i <= args@.len(),
                s@ == spec_decimal((pc - args@.len() - 1) as nat) + ": "@ + spec_mnemonic(*self)
                    + spec_args_text(args@.take(i as int)),
                args@.len() + 1 <= pc,
                pc - args@.len() - 1 <= u16::MAX,
            decreases args@.len() - i,
        {
            s.push_str(" ");
            s.push_str(u16_to_string(args[i]).as_str());
            proof {
                assert(args@.take(i + 1).drop_last() =~= args@.take(i as int));
                assert(s@ =~= spec_decimal((pc - args@.len() - 1) as nat) + ": "@
                    + spec_mnemonic(*self) + spec_args_text(args@.take(i + 1)));
            }
            i = i + 1;
        }
        proof {
            assert(args@.take(args@.len() as int) =~= args@);
        }
        s
    }

    /// Decodes a raw 16-bit word into an instruction; exactly the values
    /// 0 through 21 succeed, any other value is an `UnknownOpcode` fault.
    pub fn new(instr: u16) -> (r: Result<Instruction, Fault>)
        ensures
            r == spec_decode(instr),
    {
        match instr {
            0 => Ok(Instruction::Halt),
            1 => Ok(Instruction::SetReg),
            2 => Ok(Instruction::Push),
            3 => Ok(Instruction::Pop),
            4 => Ok(Instruction::Eq),
            5 => Ok(Instruction::Gt),
            6 => Ok(Instruction::Jmp),
            7 => Ok(Instruction::Jt),
            8 => Ok(Instruction::Jf),
            9 => Ok(Instruction::Add),
            10 => Ok(Instruction::Mul),
            11 => Ok(Instruction::Mod),
            12 => Ok(Instruction::And),
            13 => Ok(Instruction::Or),
            14 => Ok(Instruction::Not),
            15 => Ok(Instruction::Rmem),
            16 => Ok(Instruction::Wmem),
            17 => Ok(Instruction::Call),
            18 => Ok(Instruction::Ret),
            19 => Ok(Instruction::Out),
            20 => Ok(Instruction::In),
            21 => Ok(Instruction::Noop),
            _ => Err(Fault::UnknownOpcode(instr)),
        }
    }

    /// Whether the instruction ends the run: true only for Halt.
    pub fn is_terminal(&self) -> (r: bool)
        ensures
            r == (*self is Halt),
    {
        match *self {
            Instruction::Halt => true,
            _ => false,
        }
    }

    /// How many operand words follow the opcode: 0, 1, 2 or 3.
    pub fn argument_count(&self) -> (r: usize)
        ensures
            r == spec_argument_count(*self),
            r <= 3,
    {
        match *self {
            Instruction::Halt | Instruction::Noop | Instruction::Ret => 0,
            Instruction::Call
            | Instruction::In
            | Instruction::Jmp
            | Instruction::Out
            | Instruction::Pop
            | Instruction::Push => 1,
            Instruction::Jf
            | Instruction::Jt
            | Instruction::Not
            | Instruction::Rmem
            | Instruction::SetReg
            | Instruction::Wmem => 2,
            Instruction::Add
            | Instruction::And
            | Instruction::Eq
            | Instruction::Gt
            | Instruction::Mod
            | Instruction::Mul
            | Instruction::Or => 3,
        }
    }
}

} // verus!
