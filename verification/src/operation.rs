//! The execution engine: the exact semantics of one execution step, stated as
//! spec functions over the machine model, and the executable dispatch that is
//! proved to implement them.

use vstd::prelude::*;
use crate::fault::Fault;
use crate::instruction::{Instruction, spec_argument_count, spec_decode, spec_trace_line};
use crate::machine::{Machine, MachineV};

verus! {

/// The outcome of one execution step, as the step's `Result` reports it:
/// `Ok(())` is "continue", the error carries a halt, a blocked-on-input
/// report, or a fatal fault.
#[derive(Clone, Copy, PartialEq, Eq, Debug, Structural)]
pub enum ExecuteError {
    /// A fatal fault; the host is expected to stop stepping.
    Error(Fault),
    /// The machine needs an input byte; the same instruction is re-executed
    /// once input is available.
    NeedInput,
    /// The program halted normally.
    Halt,
}

/// Addition reduced into [0, 32767].
pub open spec fn spec_add(a: u16, b: u16) -> u16 {
    ((a + b) % 32768) as u16
}

/// Multiplication reduced into [0, 32767].
pub open spec fn spec_mul(a: u16, b: u16) -> u16 {
    ((a * b) % 32768) as u16
}

/// 15-bit bitwise negation: the result stays in [0, 32767].
pub open spec fn spec_not(v: u16) -> u16 {
    !v & 0x7fff
}

/// The value a binary operation produces from its two resolved operands.
/// Only the seven binary instructions are meaningful here; modulo by zero is
/// an arithmetic fault.
pub open spec fn spec_binary_result(inst: Instruction, a: u16, b: u16) -> Result<u16, Fault> {
    match inst {
        Instruction::Add => Ok(spec_add(a, b)),
        Instruction::Mul => Ok(spec_mul(a, b)),
        Instruction::Mod => if b == 0 {
            Err(Fault::ArithmeticFault)
        } else {
            Ok((a % b) as u16)
        },
        Instruction::And => Ok(a & b),
        Instruction::Or => Ok(a | b),
        Instruction::Eq => Ok(if a == b {
            1
        } else {
            0
        }),
        Instruction::Gt => Ok(if a > b {
            1
        } else {
            0
        }),
        _ => Ok(0),
    }
}

/// One binary instruction: operands 1 and 2 are resolved in order, the value
/// is computed, and the result is stored in the register that operand 0
/// names. A fault leaves the machine unchanged.
pub open spec fn spec_binary(inst: Instruction, args: Seq<u16>, s: MachineV) -> (MachineV, Result<
    (),
    Fault,
>) {
    match s.resolve(args[1]) {
        Ok(a) => match s.resolve(args[2]) {
            Ok(b) => match spec_binary_result(inst, a, b) {
                Ok(v) => match s.set_value(args[0], v) {
                    Ok(s2) => (s2, Ok(())),
                    Err(f) => (s, Err(f)),
                },
                Err(f) => (s, Err(f)),
            },
            Err(f) => (s, Err(f)),
        },
        Err(f) => (s, Err(f)),
    }
}

/// Storing a value through register-write validation, as a step outcome.
pub open spec fn spec_store(s: MachineV, dst: u16, v: u16) -> (MachineV, Result<
    (),
    ExecuteError,
>) {
    match s.set_value(dst, v) {
        Ok(s2) => (s2, Ok(())),
        Err(f) => (s, Err(ExecuteError::Error(f))),
    }
}

/// Redirecting the program counter through operand resolution, as a step
/// outcome.
pub open spec fn spec_jump(s: MachineV, target: u16) -> (MachineV, Result<(), ExecuteError>) {
    match s.set_pc(target) {
        Ok(s2) => (s2, Ok(())),
        Err(f) => (s, Err(ExecuteError::Error(f))),
    }
}

/// The trace line the step emits before taking effect, when tracing is
/// enabled. `s` is the machine after the provisional program-counter advance,
/// so the line names the address `s.pc - args.len() - 1`.
pub open spec fn spec_traced(inst: Instruction, args: Seq<u16>, s: MachineV) -> MachineV {
    if s.debug {
        MachineV { trace: s.trace.push(spec_trace_line(inst, s.pc, args)), ..s }
    } else {
        s
    }
}

/// The semantics of one instruction, applied to the machine after the
/// provisional program-counter advance and after any trace line was emitted.
/// `args` is the operand window that followed the opcode in memory.
pub open spec fn spec_execute(inst: Instruction, args: Seq<u16>, s: MachineV) -> (MachineV, Result<
    (),
    ExecuteError,
>) {
    match inst {
        Instruction::Noop => (s, Ok(())),
        Instruction::Halt => (s, Err(ExecuteError::Halt)),
        Instruction::In => if s.input.len() > 0 {
            let s1 = MachineV { input: s.input.subrange(1, s.input.len() as int), ..s };
            spec_store(s1, args[0], s.input[0] as u16)
        } else {
            // rewind to the address of this same In instruction, so that the
            // step is retryable once input is available
            (MachineV { pc: (s.pc - 2) as nat, ..s }, Err(ExecuteError::NeedInput))
        },
        Instruction::Out => match s.resolve(args[0]) {
            Ok(v) => (s.emit((v % 256) as u8), Ok(())),
            Err(f) => (s, Err(ExecuteError::Error(f))),
        },
        Instruction::Jmp => spec_jump(s, args[0]),
        Instruction::Jt => match s.resolve(args[0]) {
            Ok(v) => if v != 0 {
                spec_jump(s, args[1])
            } else {
                (s, Ok(()))
            },
            Err(f) => (s, Err(ExecuteError::Error(f))),
        },
        Instruction::Jf => match s.resolve(args[0]) {
            Ok(v) => if v == 0 {
                spec_jump(s, args[1])
            } else {
                (s, Ok(()))
            },
            Err(f) => (s, Err(ExecuteError::Error(f))),
        },
        Instruction::SetReg => spec_store(s, args[0], args[1]),
        Instruction::Push => match s.resolve(args[0]) {
            Ok(v) => (s.push(v), Ok(())),
            Err(f) => (s, Err(ExecuteError::Error(f))),
        },
        Instruction::Pop => match s.pop() {
            Ok((s1, v)) => spec_store(s1, args[0], v),
            Err(f) => (s, Err(ExecuteError::Error(f))),
        },
        Instruction::Rmem => match s.read_mem(args[1]) {
            Ok(v) => spec_store(s, args[0], v),
            Err(f) => (s, Err(ExecuteError::Error(f))),
        },
        Instruction::Wmem => match s.write_mem(args[0], args[1]) {
            Ok(s1) => (s1, Ok(())),
            Err(f) => (s, Err(ExecuteError::Error(f))),
        },
        Instruction::Add
        | Instruction::Mul
        | Instruction::Mod
        | Instruction::And
        | Instruction::Or
        | Instruction::Eq
        | Instruction::Gt => {
            let (s2, r) = spec_binary(inst, args, s);
            match r {
                Ok(u) => (s2, Ok(u)),
                Err(f) => (s2, Err(ExecuteError::Error(f))),
            }
        },
        Instruction::Not => match s.resolve(args[1]) {
            Ok(v) => spec_store(s, args[0], spec_not(v)),
            Err(f) => (s, Err(ExecuteError::Error(f))),
        },
        Instruction::Call => {
            // the provisionally advanced program counter is the return
            // address: the instruction immediately after the Call
            let s1 = s.push(s.pc as u16);
            spec_jump(s1, args[0])
        },
        Instruction::Ret => match s.pop() {
            // the popped word is already a concrete address: it is not put
            // through operand resolution
            Ok((s1, v)) => (MachineV { pc: v as nat, ..s1 }, Ok(())),
            Err(f) => (s, Err(ExecuteError::Error(f))),
        },
    }
}

/// One full execution step from a machine at rest: decode the opcode at the
/// program counter, read the operand window, provisionally advance the
/// program counter past both, emit a trace line when tracing is enabled, and
/// apply the instruction's semantics. A program counter outside memory, or an
/// operand window that would run past the end of memory, is an invalid
/// address at the instruction's own address.
pub open spec fn spec_step(s: MachineV) -> (MachineV, Result<(), ExecuteError>) {
    if s.pc >= 32768 {
        (s, Err(ExecuteError::Error(Fault::InvalidAddress(s.pc as u16))))
    } else {
        match spec_decode(s.memory[s.pc as int]) {
            Err(f) => (s, Err(ExecuteError::Error(f))),
            Ok(inst) => {
                let n = spec_argument_count(inst);
                if s.pc + 1 + n > 32768 {
                    (s, Err(ExecuteError::Error(Fault::InvalidAddress(s.pc as u16))))
                } else {
                    let args = s.memory.subrange(s.pc + 1 as int, (s.pc + 1 + n) as int);
                    let s1 = MachineV { pc: s.pc + 1 + n, ..s };
                    spec_execute(inst, args, spec_traced(inst, args, s1))
                }
            },
        }
    }
}

/// Something the execution engine can dispatch to: one instruction's worth of
/// effect on the machine.
pub trait Operation {
    /// How many operand words the operation reads.
    spec fn operand_count(&self) -> nat;

    /// The operation's full effect: the machine afterwards and the outcome
    /// reported, given the operand window and the machine just after the
    /// provisional program-counter advance.
    spec fn effect(&self, args: Seq<u16>, pre: MachineV) -> (MachineV, Result<(), ExecuteError>);

    /// Executes the operation against the machine, including the trace line
    /// when tracing is enabled.
    fn execute(&self, args: &[u16], ma: &mut Machine) -> (r: Result<(), ExecuteError>)
        requires
            old(ma)@.wf(),
            args@.len() == self.operand_count(),
            1 + self.operand_count() <= old(ma)@.pc <= 32768,
        ensures
            final(ma)@.wf(),
            (final(ma)@, r) == self.effect(args@, old(ma)@),
    ;
}

/// Resolves operands 1 and 2, combines them with the arithmetic or bitwise
/// operation that `inst` names, and stores the result in the register that
/// operand 0 names.
fn arithmetic(inst: Instruction, args: &[u16], ma: &mut Machine) -> (r: Result<(), Fault>)
    requires
        old(ma)@.wf(),
        args@.len() == 3,
        inst is Add || inst is Mul || inst is Mod || inst is And || inst is Or,
    ensures
        final(ma)@.wf(),
        ({
            let (s2, r2) = spec_binary(inst, args@, old(ma)@);
            final(ma)@ == s2 && r == r2
        }),
{
    let v1 = match ma.value(args[1]) {
        Ok(v) => v,
        Err(f) => {
            return Err(f);
        },
    };
    let v2 = match ma.value(args[2]) {
        Ok(v) => v,
        Err(f) => {
            return Err(f);
        },
    };
    let res: u16 = match inst {
        Instruction::Add => ((v1 as u32 + v2 as u32) % 32768) as u16,
        Instruction::Mul => {
            proof {
                assert((v1 as int) * (v2 as int) < 0x40000000) by (nonlinear_arith)
                    requires
                        v1 < 32768,
                        v2 < 32768,
                ;
            }
            ((v1 as u32 * v2 as u32) % 32768) as u16
        },
        Instruction::Mod => {
            if v2 == 0 {
                return Err(Fault::ArithmeticFault);
            }
            v1 % v2
        },
        Instruction::And => v1 & v2,
        Instruction::Or => v1 | v2,
        _ => 0,
    };
    ma.set_value(args[0], res)
}

/// Resolves operands 1 and 2, compares them with the comparison that `inst`
/// names, and stores 1 or 0 in the register that operand 0 names.
fn comparison(inst: Instruction, args: &[u16], ma: &mut Machine) -> (r: Result<(), Fault>)
    requires
        old(ma)@.wf(),
        args@.len() == 3,
        inst is Eq || inst is Gt,
    ensures
        final(ma)@.wf(),
        ({
            let (s2, r2) = spec_binary(inst, args@, old(ma)@);
            final(ma)@ == s2 && r == r2
        }),
{
    let v1 = match ma.value(args[1]) {
        Ok(v) => v,
        Err(f) => {
            return Err(f);
        },
    };
    let v2 = match ma.value(args[2]) {
        Ok(v) => v,
        Err(f) => {
            return Err(f);
        },
    };
    let cond = match inst {
        Instruction::Eq => v1 == v2,
        Instruction::Gt => v1 > v2,
        _ => false,
    };
    let res: u16 = if cond {
        1
    } else {
        0
    };
    ma.set_value(args[0], res)
}

impl Operation for Instruction {
    open spec fn operand_count(&self) -> nat {
        spec_argument_count(*self)
    }

    open spec fn effect(&self, args: Seq<u16>, pre: MachineV) -> (MachineV, Result<
        (),
        ExecuteError,
    >) {
        spec_execute(*self, args, spec_traced(*self, args, pre))
    }

    fn execute(&self, args: &[u16], ma: &mut Machine) -> (r: Result<(), ExecuteError>) {
        if ma.debug() {
            let line = self.log_instruction(ma.pc(), args);
            ma.push_trace(line);
        }
        match *self {
            Instruction::Noop => Ok(()),
            Instruction::Halt => Err(ExecuteError::Halt),
            // In out
            Instruction::In => match ma.pop_input() {
                Some(v) => match ma.set_value(args[0], v as u16) {
                    Ok(u) => Ok(u),
                    Err(f) => Err(ExecuteError::Error(f)),
                },
                None => {
                    // return PC so the In gets re-executed
                    let reset_pc = ma.pc() - 1 - self.argument_count();
                    match ma.set_pc(reset_pc as u16) {
                        Ok(_) => Err(ExecuteError::NeedInput),
                        Err(f) => Err(ExecuteError::Error(f)),
                    }
                },
            },
            Instruction::Out => match ma.value(args[0]) {
                Ok(val) => {
                    ma.push_output((val % 256) as u8);
                    Ok(())
                },
                Err(f) => Err(ExecuteError::Error(f)),
            },
            // Jumps
            Instruction::Jmp => match ma.set_pc(args[0]) {
                Ok(u) => Ok(u),
                Err(f) => Err(ExecuteError::Error(f)),
            },
            Instruction::Jt => match ma.value(args[0]) {
                Ok(v) => if v != 0 {
                    match ma.set_pc(args[1]) {
                        Ok(u) => Ok(u),
                        Err(f) => Err(ExecuteError::Error(f)),
                    }
                } else {
                    Ok(())
                },
                Err(f) => Err(ExecuteError::Error(f)),
            },
            Instruction::Jf => match ma.value(args[0]) {
                Ok(v) => if v == 0 {
                    match ma.set_pc(args[1]) {
                        Ok(u) => Ok(u),
                        Err(f) => Err(ExecuteError::Error(f)),
                    }
                } else {
                    Ok(())
                },
                Err(f) => Err(ExecuteError::Error(f)),
            },
            // Reg/Memory
            Instruction::SetReg => match ma.set_value(args[0], args[1]) {
                Ok(u) => Ok(u),
                Err(f) => Err(ExecuteError::Error(f)),
            },
            Instruction::Push => match ma.value(args[0]) {
                Ok(v) => {
                    ma.stack_push(v);
                    Ok(())
                },
                Err(f) => Err(ExecuteError::Error(f)),
            },
            Instruction::Pop => match ma.stack_pop() {
                Ok(v) => match ma.set_value(args[0], v) {
                    Ok(u) => Ok(u),
                    Err(f) => Err(ExecuteError::Error(f)),
                },
                Err(f) => Err(ExecuteError::Error(f)),
            },
            Instruction::Rmem => match ma.read_memory(args[1]) {
                Ok(val) => match ma.set_value(args[0], val) {
                    Ok(u) => Ok(u),
                    Err(f) => Err(ExecuteError::Error(f)),
                },
                Err(f) => Err(ExecuteError::Error(f)),
            },
            Instruction::Wmem => match ma.write_memory(args[0], args[1]) {
                Ok(u) => Ok(u),
                Err(f) => Err(ExecuteError::Error(f)),
            },
            // Maths
            Instruction::Add
            | Instruction::Mul
            | Instruction::Mod
            | Instruction::And
            | Instruction::Or => match arithmetic(*self, args, ma) {
                Ok(u) => Ok(u),
                Err(f) => Err(ExecuteError::Error(f)),
            },
            Instruction::Not => match ma.value(args[1]) {
                Ok(v) => {
                    // 15 bit
                    let res = !v & 0x7fff;
                    match ma.set_value(args[0], res) {
                        Ok(u) => Ok(u),
                        Err(f) => Err(ExecuteError::Error(f)),
                    }
                },
                Err(f) => Err(ExecuteError::Error(f)),
            },
            // Comparison
            Instruction::Eq | Instruction::Gt => match comparison(*self, args, ma) {
                Ok(u) => Ok(u),
                Err(f) => Err(ExecuteError::Error(f)),
            },
            // Functions
            Instruction::Call => {
                let ret_addr = ma.pc() as u16;
                ma.stack_push(ret_addr);
                match ma.set_pc(args[0]) {
                    Ok(u) => Ok(u),
                    Err(f) => Err(ExecuteError::Error(f)),
                }
            },
            Instruction::Ret => match ma.stack_pop() {
                Ok(ret_addr) => {
                    ma.set_pc_direct(ret_addr);
                    Ok(())
                },
                Err(f) => Err(ExecuteError::Error(f)),
            },
        }
    }
}

} // verus!
