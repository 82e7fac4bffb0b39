//! General properties of the machine, proved once and for all inputs:
//! operand resolution on each of its three ranges, range closure of the
//! reduced arithmetic, involution of the 15-bit negation, the LIFO discipline
//! of the stack, the blocking-input resumption protocol, and the pairing of
//! Call with Ret.

use vstd::prelude::*;
use crate::fault::Fault;
use crate::instruction::{Instruction, spec_decode};
use crate::machine::MachineV;
use crate::operation::{spec_add, spec_mul, spec_not, spec_step, ExecuteError};

verus! {

/// Every literal resolves to itself: for all values in [0, 32767], resolution
/// returns the value unchanged, whatever the machine state.
pub proof fn lemma_resolve_literal(s: MachineV, raw: u16)
    requires
        raw <= 32767,
    ensures
        s.resolve(raw) == Ok::<u16, Fault>(raw),
{
}

/// Every register reference resolves to that register's current content: for
/// all registers in [0, 7], the value 32768 + r resolves to the content of
/// register r.
pub proof fn lemma_resolve_register(s: MachineV, r: u16)
    requires
        r < 8,
    ensures
        s.resolve((32768 + r) as u16) == Ok::<u16, Fault>(s.registers[r as int]),
{
}

/// Every raw value in [32776, 65535] is an invalid operand, whatever the
/// machine state.
pub proof fn lemma_resolve_invalid(s: MachineV, raw: u16)
    requires
        raw >= 32776,
    ensures
        s.resolve(raw) == Err::<u16, Fault>(Fault::InvalidOperand(raw)),
{
}

/// Reduced addition and multiplication land in [0, 32767] whatever the
/// operands' magnitude.
pub proof fn lemma_arith_in_range(a: u16, b: u16)
    ensures
        spec_add(a, b) <= 32767,
        spec_mul(a, b) <= 32767,
{
    assert(0 <= (a as int) * (b as int)) by (nonlinear_arith);
}

/// The 15-bit negation is an involution: applied twice it returns the
/// original value, for every value in [0, 32767].
pub proof fn lemma_not_involution(x: u16)
    requires
        x < 32768,
    ensures
        spec_not(spec_not(x)) == x,
{
    assert((!(!x & 0x7fff) & 0x7fff) == x) by (bit_vector)
        requires
            x < 32768,
    ;
}

/// Push then pop returns the pushed value unchanged and restores the machine
/// exactly.
pub proof fn lemma_push_pop(s: MachineV, v: u16)
    ensures
        s.push(v).pop() == Ok::<(MachineV, u16), Fault>((s, v)),
{
    let s1 = s.push(v);
    assert(s1.stack.drop_last() =~= s.stack);
    assert(s1.pop()->Ok_0.0 =~= s);
}

/// The machine after pushing every word of `vs` in order, oldest first.
pub open spec fn push_all(s: MachineV, vs: Seq<u16>) -> MachineV
    decreases vs.len(),
{
    if vs.len() == 0 {
        s
    } else {
        push_all(s, vs.drop_last()).push(vs.last())
    }
}

/// The machine after `n` pops, paired with the popped words in the order they
/// came out; popping stops early if the stack empties.
pub open spec fn pop_all(s: MachineV, n: nat) -> (MachineV, Seq<u16>)
    decreases n,
{
    if n == 0 {
        (s, Seq::empty())
    } else {
        match s.pop() {
            Ok((s1, v)) => {
                let (s2, rest) = pop_all(s1, (n - 1) as nat);
                (s2, seq![v] + rest)
            },
            Err(_) => (s, Seq::empty()),
        }
    }
}

/// Pushing every word of `vs` leaves the rest of the machine alone and
/// appends `vs` to the stack.
pub proof fn lemma_push_all(s: MachineV, vs: Seq<u16>)
    ensures
        push_all(s, vs) == (MachineV { stack: s.stack + vs, ..s }),
    decreases vs.len(),
{
    if vs.len() == 0 {
        assert(s.stack + vs =~= s.stack);
        assert(push_all(s, vs) =~= (MachineV { stack: s.stack + vs, ..s }));
    } else {
        lemma_push_all(s, vs.drop_last());
        assert((s.stack + vs.drop_last()).push(vs.last()) =~= s.stack + vs);
        assert(push_all(s, vs) =~= (MachineV { stack: s.stack + vs, ..s }));
    }
}

/// The stack is LIFO: pushing the words of `vs` in order and then popping as
/// many times returns the words in reverse order and restores the machine
/// exactly.
pub proof fn lemma_lifo(s: MachineV, vs: Seq<u16>)
    ensures
        pop_all(push_all(s, vs), vs.len()) == (s, vs.reverse()),
    decreases vs.len(),
{
    if vs.len() == 0 {
        assert(vs.reverse() =~= Seq::<u16>::empty());
    } else {
        let s1 = push_all(s, vs);
        lemma_push_all(s, vs);
        assert(s1.stack =~= s.stack + vs);
        assert(s1.stack.len() > 0);
        let shorter = push_all(s, vs.drop_last());
        lemma_push_all(s, vs.drop_last());
        assert(s1.stack.drop_last() =~= s.stack + vs.drop_last());
        assert(s1.pop()->Ok_0.0 =~= shorter);
        assert(s1.pop()->Ok_0.1 == vs.last());
        lemma_lifo(s, vs.drop_last());
        assert(seq![vs.last()] + vs.drop_last().reverse() =~= vs.reverse());
    }
}

/// An In instruction with an empty input queue changes nothing but the trace:
/// registers, memory, stack, both byte queues and the program counter are
/// exactly as before, and the step reports that input is needed — so the same
/// instruction is re-decoded and re-executed on the next step.
pub proof fn lemma_in_blocks(s: MachineV)
    requires
        s.wf(),
        s.pc + 2 <= 32768,
        spec_decode(s.memory[s.pc as int]) == Ok::<Instruction, Fault>(Instruction::In),
        s.input.len() == 0,
    ensures
        ({
            let (s2, r) = spec_step(s);
            &&& r == Err::<(), ExecuteError>(ExecuteError::NeedInput)
            &&& s2.registers == s.registers
            &&& s2.output == s.output
            &&& s2.memory == s.memory
            &&& s2.stack == s.stack
            &&& s2.input == s.input
            &&& s2.pc == s.pc
            &&& s2.debug == s.debug
        }),
{
}

/// Once one byte is fed to the blocked machine, the same In instruction
/// completes exactly once: the step consumes exactly that byte, stores it in
/// the register the operand names, advances past the instruction, and changes
/// nothing else but the trace.
pub proof fn lemma_in_resumes(s: MachineV, b: u8)
    requires
        s.wf(),
        s.pc + 2 <= 32768,
        spec_decode(s.memory[s.pc as int]) == Ok::<Instruction, Fault>(Instruction::In),
        s.input.len() == 0,
        32768 <= s.memory[s.pc + 1 as int] <= 32775,
    ensures
        ({
            let (s2, r) = spec_step(s.feed(b));
            &&& r == Ok::<(), ExecuteError>(())
            &&& s2.input == s.input
            &&& s2.registers == s.registers.update(s.memory[s.pc + 1 as int] - 32768, b as u16)
            &&& s2.pc == s.pc + 2
            &&& s2.output == s.output
            &&& s2.memory == s.memory
            &&& s2.stack == s.stack
        }),
{
    let fed = s.feed(b);
    assert(fed.input.len() == 1);
    assert(fed.input.subrange(1, 1) =~= s.input);
}

/// Call pushes the address of the instruction immediately after itself and
/// jumps; a Ret at the call target pops that address back into the program
/// counter. After the pair, the program counter stands exactly one Call
/// instruction further, and stack, registers and memory are as before.
pub proof fn lemma_call_then_ret(s: MachineV)
    requires
        s.wf(),
        s.pc + 2 <= 32768,
        spec_decode(s.memory[s.pc as int]) == Ok::<Instruction, Fault>(Instruction::Call),
        s.resolve(s.memory[s.pc + 1 as int]) is Ok,
        spec_decode(s.memory[s.resolve(s.memory[s.pc + 1 as int])->Ok_0 as int]) == Ok::<
            Instruction,
            Fault,
        >(Instruction::Ret),
    ensures
        ({
            let (s1, r1) = spec_step(s);
            let (s2, r2) = spec_step(s1);
            &&& r1 == Ok::<(), ExecuteError>(())
            &&& s1.pc == s.resolve(s.memory[s.pc + 1 as int])->Ok_0
            &&& r2 == Ok::<(), ExecuteError>(())
            &&& s2.pc == s.pc + 2
            &&& s2.stack == s.stack
            &&& s2.registers == s.registers
            &&& s2.memory == s.memory
        }),
{
    let (s1, r1) = spec_step(s);
    let ret_addr = (s.pc + 2) as u16;
    assert(s1.stack =~= s.stack.push(ret_addr));
    let (s2, r2) = spec_step(s1);
    assert(s2.stack =~= s.stack);
}

} // verus!
