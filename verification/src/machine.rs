//! Machine state: memory, registers, stack, program counter and the byte
//! queues that decouple the machine from its host, together with the ghost
//! model `MachineV` that every contract of the crate speaks of.

use vstd::prelude::*;
use std::collections::VecDeque;
use crate::fault::Fault;
use crate::instruction::Instruction;
use crate::operation::{ExecuteError, Operation, spec_step};

verus! {

/// Words of addressable memory; addresses run from 0 to 32767.
pub const MEMORY_SIZE: usize = 32768;

/// Number of general-purpose registers, addressed by 32768 through 32775.
pub const REGISTER_COUNT: usize = 8;

/// The mathematical model of a machine: what every contract of this crate
/// states its claims over.
#[verifier::ext_equal]
pub struct MachineV {
    /// The 32,768 words of memory.
    pub memory: Seq<u16>,
    /// The eight register slots; they only ever hold literals in [0, 32767].
    pub registers: Seq<u16>,
    /// The LIFO stack; the last element is the top.
    pub stack: Seq<u16>,
    /// Index into memory of the next instruction to decode.
    pub pc: nat,
    /// Pending input bytes, oldest first.
    pub input: Seq<u8>,
    /// Produced output bytes, oldest first.
    pub output: Seq<u8>,
    /// Pending trace lines, oldest first.
    pub trace: Seq<Seq<char>>,
    /// Whether each executed instruction emits a trace line.
    pub debug: bool,
}

impl MachineV {
    /// Well-formedness: full memory, eight registers that hold fully-resolved
    /// literals, and a program counter that fits in a 16-bit word.
    pub open spec fn wf(self) -> bool {
        &&& self.memory.len() == 32768
        &&& self.registers.len() == 8
        &&& forall|i: int| 0 <= i < 8 ==> self.registers[i] < 32768
        &&& self.pc <= 0xFFFF
    }

    /// Operand resolution: a value in [0, 32767] is itself a literal, a value
    /// in [32768, 32775] names a register whose content is returned, and any
    /// other value is an invalid operand.
    pub open spec fn resolve(self, raw: u16) -> Result<u16, Fault> {
        if raw < 32768 {
            Ok(raw)
        } else if raw <= 32775 {
            Ok(self.registers[raw - 32768])
        } else {
            Err(Fault::InvalidOperand(raw))
        }
    }

    /// Writing a register: `argument` must name a register, and `value` is
    /// itself resolved before it is stored, so registers only ever hold
    /// fully-resolved literals.
    pub open spec fn set_value(self, argument: u16, value: u16) -> Result<MachineV, Fault> {
        if argument < 32768 || argument > 32775 {
            Err(Fault::InvalidRegister(argument))
        } else {
            match self.resolve(value) {
                Ok(v) => Ok(
                    MachineV { registers: self.registers.update(argument - 32768, v), ..self },
                ),
                Err(f) => Err(f),
            }
        }
    }

    /// Redirecting the program counter: the operand is resolved and the
    /// program counter set to the resolved value.
    pub open spec fn set_pc(self, value: u16) -> Result<MachineV, Fault> {
        match self.resolve(value) {
            Ok(v) => Ok(MachineV { pc: v as nat, ..self }),
            Err(f) => Err(f),
        }
    }

    /// Pushing one word onto the stack.
    pub open spec fn push(self, value: u16) -> MachineV {
        MachineV { stack: self.stack.push(value), ..self }
    }

    /// Popping the top of the stack; faults when the stack is empty.
    pub open spec fn pop(self) -> Result<(MachineV, u16), Fault> {
        if self.stack.len() == 0 {
            Err(Fault::EmptyStack)
        } else {
            Ok((MachineV { stack: self.stack.drop_last(), ..self }, self.stack.last()))
        }
    }

    /// The resolved address for a memory access, bounds-checked against the
    /// memory size.
    pub open spec fn address_of(self, addr: u16) -> Result<u16, Fault> {
        match self.resolve(addr) {
            Ok(a) => if a <= 32768 {
                Ok(a)
            } else {
                Err(Fault::InvalidAddress(a))
            },
            Err(f) => Err(f),
        }
    }

    /// Writing memory: both operands are resolved, the address is
    /// bounds-checked, and the resolved value is stored. Writes may alter the
    /// program image itself (self-modifying code is permitted).
    pub open spec fn write_mem(self, addr: u16, value: u16) -> Result<MachineV, Fault> {
        match self.resolve(addr) {
            Ok(a) => if a > 32768 {
                Err(Fault::InvalidAddress(a))
            } else {
                match self.resolve(value) {
                    Ok(v) => Ok(MachineV { memory: self.memory.update(a as int, v), ..self }),
                    Err(f) => Err(f),
                }
            },
            Err(f) => Err(f),
        }
    }

    /// Reading memory at a resolved, bounds-checked address.
    pub open spec fn read_mem(self, addr: u16) -> Result<u16, Fault> {
        match self.address_of(addr) {
            Ok(a) => Ok(self.memory[a as int]),
            Err(f) => Err(f),
        }
    }

    /// Appending one byte to the input queue.
    pub open spec fn feed(self, val: u8) -> MachineV {
        MachineV { input: self.input.push(val), ..self }
    }

    /// Appending one byte to the output queue.
    pub open spec fn emit(self, val: u8) -> MachineV {
        MachineV { output: self.output.push(val), ..self }
    }
}

/// The mutable execution context. All mutation goes through validated
/// accessors whose contracts are stated over the ghost model `MachineV`.
pub struct Machine {
    memory: Vec<u16>,
    registers: Vec<u16>,
    stack: Vec<u16>,
    pc: usize,
    input: VecDeque<u8>,
    output: VecDeque<u8>,
    trace: VecDeque<String>,
    debug: bool,
}

impl View for Machine {
    type V = MachineV;

    closed spec fn view(&self) -> MachineV {
        MachineV {
            memory: self.memory@,
            registers: self.registers@,
            stack: self.stack@,
            pc: self.pc as nat,
            input: self.input@,
            output: self.output@,
            trace: self.trace.deep_view(),
            debug: self.debug,
        }
    }
}

/// The 16-bit word that bytes `2 * k` (low half) and `2 * k + 1` (high half)
/// of a little-endian image encode.
pub open spec fn spec_le_word(bytes: Seq<u8>, k: int) -> u16 {
    (bytes[2 * k] + 256 * bytes[2 * k + 1]) as u16
}

/// A machine freshly loaded with `image`: the image in low memory, zeroes
/// above it, zeroed registers, empty stack and queues, program counter zero.
pub open spec fn spec_loaded(m: MachineV, image: Seq<u16>, debug: bool) -> bool {
    &&& m.wf()
    &&& m.memory.len() == 32768
    &&& forall|i: int| 0 <= i < image.len() ==> m.memory[i] == image[i]
    &&& forall|i: int| image.len() <= i < 32768 ==> m.memory[i] == 0
    &&& forall|i: int| 0 <= i < 8 ==> m.registers[i] == 0
    &&& m.stack.len() == 0
    &&& m.pc == 0
    &&& m.input.len() == 0
    &&& m.output.len() == 0
    &&& m.trace.len() == 0
    &&& m.debug == debug
}

impl Machine {
    /// Loads a little-endian byte image: byte pairs become 16-bit words, low
    /// byte first. A buffer that is not a whole number of words is rejected,
    /// as is an image of more than 32,768 words.
    pub fn new_u8(input: &[u8], debug: bool) -> (r: Result<Machine, Fault>)
        ensures
            match r {
                Ok(m) => {
                    &&& input@.len() % 2 == 0
                    &&& input@.len() / 2 <= 32768
                    &&& spec_loaded(
                        m@,
                        Seq::new(input@.len() / 2, |k: int| spec_le_word(input@, k)),
                        debug,
                    )
                },
                Err(f) => {
                    ||| (f == Fault::OddImageLength && input@.len() % 2 != 0)
                    ||| (f == Fault::ImageTooLarge && input@.len() % 2 == 0 && input@.len() / 2
                        > 32768)
                },
            },
    {
        if input.len() % 2 != 0 {
            return Err(Fault::OddImageLength);
        }
        // little endian
        let word_count = input.len() / 2;
        let mut data: Vec<u16> = Vec::new();
        let mut k: usize = 0;
        while k < word_count
            invariant
                word_count == input@.len() / 2,
                input@.len() <= usize::MAX,
                input@.len() % 2 == 0,
                k <= word_count,
                data@.len() == k,
                forall|j: int| 0 <= j < k ==> data@[j] == spec_le_word(input@, j),
            decreases word_count - k,
        {
            proof {
                assert(2 * k + 1 < input@.len());
            }
            let low = input[2 * k] as u16;
            let high = input[2 * k + 1] as u16;
            data.push(low + 256 * high);
            k = k + 1;
        }
        proof {
            assert(data@ =~= Seq::new(input@.len() / 2, |j: int| spec_le_word(input@, j)));
        }
        Self::new(data.as_slice(), debug)
    }

    /// Loads a word image: the single initialization path. The image is
    /// copied to the low addresses, everything else is reset as
    /// `spec_loaded` states; an image of more than 32,768 words is rejected.
    pub fn new(input: &[u16], debug: bool) -> (r: Result<Machine, Fault>)
        ensures
            match r {
                Ok(m) => input@.len() <= 32768 && spec_loaded(m@, input@, debug),
                Err(f) => f == Fault::ImageTooLarge && input@.len() > 32768,
            },
    {
        if MEMORY_SIZE < input.len() {
            return Err(Fault::ImageTooLarge);
        }
        let mut memory: Vec<u16> = Vec::new();
        let mut i: usize = 0;
        while i < input.len()
            invariant
                i <= input@.len(),
                memory@ =~= input@.take(i as int),
            decreases input@.len() - i,
        {
            memory.push(input[i]);
            i = i + 1;
        }
        while memory.len() < MEMORY_SIZE
            invariant
                input@.len() <= memory@.len() <= 32768,
                forall|j: int| 0 <= j < input@.len() ==> memory@[j] == input@[j],
                forall|j: int| input@.len() <= j < memory@.len() ==> memory@[j] == 0,
            decreases MEMORY_SIZE - memory@.len(),
        {
            memory.push(0);
        }
        let mut registers: Vec<u16> = Vec::new();
        let mut j: usize = 0;
        while j < REGISTER_COUNT
            invariant
                j <= 8,
                registers@.len() == j,
                forall|i2: int| 0 <= i2 < j ==> registers@[i2] == 0,
            decreases REGISTER_COUNT - j,
        {
            registers.push(0);
            j = j + 1;
        }
        Ok(
            Machine {
                memory,
                registers,
                stack: Vec::new(),
                pc: 0,
                input: VecDeque::new(),
                output: VecDeque::new(),
                trace: VecDeque::new(),
                debug,
            },
        )
    }

    /// Executes exactly one instruction: decodes the opcode at the program
    /// counter, reads the operand window, provisionally advances the program
    /// counter past both, and applies the instruction's semantics —
    /// `spec_step` states the whole of it. `Ok(())` means the machine can be
    /// stepped again; the error carries a halt, a blocked-on-input report, or
    /// a fatal fault.
    pub fn execute(&mut self) -> (r: Result<(), ExecuteError>)
        requires
            old(self)@.wf(),
        ensures
            final(self)@.wf(),
            (final(self)@, r) == spec_step(old(self)@),
    {
        if self.pc >= MEMORY_SIZE {
            return Err(ExecuteError::Error(Fault::InvalidAddress(self.pc as u16)));
        }
        let inst = match Instruction::new(self.memory[self.pc]) {
            Ok(i) => i,
            Err(f) => {
                return Err(ExecuteError::Error(f));
            },
        };
        let count = inst.argument_count();
        if self.pc + 1 + count > MEMORY_SIZE {
            return Err(ExecuteError::Error(Fault::InvalidAddress(self.pc as u16)));
        }
        let arg_idx = self.pc + 1;
        let mut args: Vec<u16> = Vec::new();
        let mut i: usize = 0;
        while i < count
            invariant
                i <= count,
                count <= 3,
                arg_idx + count <= 32768,
                self@ == old(self)@,
                self@.memory.len() == 32768,
                arg_idx == self@.pc + 1,
                args@ == self@.memory.subrange(arg_idx as int, arg_idx + i),
            decreases count - i,
        {
            args.push(self.memory[arg_idx + i]);
            proof {
                assert(args@ =~= self@.memory.subrange(arg_idx as int, arg_idx + i + 1));
            }
            i = i + 1;
        }
        self.pc = arg_idx + count;
        proof {
            assert(self@ =~= (MachineV {
                pc: (old(self)@.pc + 1 + count) as nat,
                ..old(self)@
            }));
        }
        inst.execute(args.as_slice(), self)
    }

    /// Resolves a value operand: literals return unchanged, register
    /// references return the register's current content, anything else is an
    /// `InvalidOperand` fault. A resolved value is always in [0, 32767].
    pub fn value(&self, value: u16) -> (r: Result<u16, Fault>)
        requires
            self@.wf(),
        ensures
            r == self@.resolve(value),
            r is Ok ==> r->Ok_0 < 32768,
    {
        if value < 0x8000 {
            Ok(value)
        } else if value <= 0x8007 {
            Ok(self.registers[(value - 0x8000) as usize])
        } else {
            Err(Fault::InvalidOperand(value))
        }
    }

    /// Stores a resolved value into the register that `argument` names;
    /// faults `InvalidRegister` when `argument` is not a register reference
    /// and `InvalidOperand` when `value` does not resolve, mutating nothing
    /// in either case.
    pub fn set_value(&mut self, argument: u16, value: u16) -> (r: Result<(), Fault>)
        requires
            old(self)@.wf(),
        ensures
            final(self)@.wf(),
            match old(self)@.set_value(argument, value) {
                Ok(s) => r == Ok::<(), Fault>(()) && final(self)@ == s,
                Err(f) => r == Err::<(), Fault>(f) && final(self)@ == old(self)@,
            },
    {
        if argument < 0x8000 || argument > 0x8007 {
            return Err(Fault::InvalidRegister(argument));
        }
        let reg_num = (argument - 0x8000) as usize;
        let resolved = match self.value(value) {
            Ok(v) => v,
            Err(f) => {
                return Err(f);
            },
        };
        self.registers.set(reg_num, resolved);
        proof {
            assert(final(self)@ =~= old(self)@.set_value(argument, value)->Ok_0);
        }
        Ok(())
    }

    /// Redirects the program counter to the resolved target. No range check
    /// beyond operand resolution: an out-of-range target is only detected
    /// when execution reaches it.
    pub fn set_pc(&mut self, value: u16) -> (r: Result<(), Fault>)
        requires
            old(self)@.wf(),
        ensures
            final(self)@.wf(),
            match old(self)@.set_pc(value) {
                Ok(s) => r == Ok::<(), Fault>(()) && final(self)@ == s,
                Err(f) => r == Err::<(), Fault>(f) && final(self)@ == old(self)@,
            },
    {
        let dst = match self.value(value) {
            Ok(v) => v,
            Err(f) => {
                return Err(f);
            },
        };
        self.pc = dst as usize;
        proof {
            assert(final(self)@ =~= old(self)@.set_pc(value)->Ok_0);
        }
        Ok(())
    }

    /// Sets the program counter to a concrete address, without operand
    /// resolution: Ret places its popped word here directly.
    pub(crate) fn set_pc_direct(&mut self, target: u16)
        ensures
            final(self)@ == (MachineV { pc: target as nat, ..old(self)@ }),
    {
        self.pc = target as usize;
        proof {
            assert(final(self)@ =~= (MachineV { pc: target as nat, ..old(self)@ }));
        }
    }

    /// The current program counter.
    pub fn pc(&self) -> (r: usize)
        ensures
            r == self@.pc,
    {
        self.pc
    }

    /// Pushes one word onto the stack.
    pub fn stack_push(&mut self, value: u16)
        ensures
            final(self)@ == old(self)@.push(value),
    {
        self.stack.push(value);
        proof {
            assert(final(self)@ =~= old(self)@.push(value));
        }
    }

    /// Pops the top of the stack; faults `EmptyStack` when there is nothing
    /// to pop.
    pub fn stack_pop(&mut self) -> (r: Result<u16, Fault>)
        ensures
            match old(self)@.pop() {
                Ok((s, v)) => r == Ok::<u16, Fault>(v) && final(self)@ == s,
                Err(f) => r == Err::<u16, Fault>(f) && final(self)@ == old(self)@,
            },
    {
        if let Some(val) = self.stack.pop() {
            proof {
                assert(final(self)@ =~= old(self)@.pop()->Ok_0.0);
            }
            Ok(val)
        } else {
            Err(Fault::EmptyStack)
        }
    }

    /// Writes the resolved value to the resolved, bounds-checked address.
    /// The image may alter its own not-yet-executed instructions.
    pub fn write_memory(&mut self, addr: u16, value: u16) -> (r: Result<(), Fault>)
        requires
            old(self)@.wf(),
        ensures
            final(self)@.wf(),
            match old(self)@.write_mem(addr, value) {
                Ok(s) => r == Ok::<(), Fault>(()) && final(self)@ == s,
                Err(f) => r == Err::<(), Fault>(f) && final(self)@ == old(self)@,
            },
    {
        let addr = match self.value(addr) {
            Ok(a) => a,
            Err(f) => {
                return Err(f);
            },
        };
        if addr as usize > MEMORY_SIZE {
            return Err(Fault::InvalidAddress(addr));
        }
        let value = match self.value(value) {
            Ok(v) => v,
            Err(f) => {
                return Err(f);
            },
        };
        self.memory.set(addr as usize, value);
        proof {
            assert(final(self)@ =~= old(self)@.write_mem(addr, value)->Ok_0);
        }
        Ok(())
    }

    /// Reads the word at the resolved, bounds-checked address.
    pub fn read_memory(&mut self, addr: u16) -> (r: Result<u16, Fault>)
        requires
            old(self)@.wf(),
        ensures
            final(self)@ == old(self)@,
            r == old(self)@.read_mem(addr),
    {
        let addr = match self.get_address(addr) {
            Ok(a) => a,
            Err(f) => {
                return Err(f);
            },
        };
        Ok(self.memory[addr])
    }

    fn get_address(&self, addr: u16) -> (r: Result<usize, Fault>)
        requires
            self@.wf(),
        ensures
            match self@.address_of(addr) {
                Ok(a) => r == Ok::<usize, Fault>(a as usize) && a < 32768,
                Err(f) => r == Err::<usize, Fault>(f),
            },
    {
        let addr = match self.value(addr) {
            Ok(a) => a,
            Err(f) => {
                return Err(f);
            },
        } as usize;
        if addr <= MEMORY_SIZE {
            Ok(addr)
        } else {
            Err(Fault::InvalidAddress(addr as u16))
        }
    }

    /// Appends one input byte; accepted at any time.
    pub fn push_input(&mut self, val: u8)
        ensures
            final(self)@ == old(self)@.feed(val),
    {
        self.input.push_back(val);
        proof {
            assert(final(self)@ =~= old(self)@.feed(val));
        }
    }

    /// Removes and returns the oldest pending input byte, if any.
    pub fn pop_input(&mut self) -> (r: Option<u8>)
        ensures
            match r {
                Some(b) => old(self)@.input.len() > 0 && b == old(self)@.input[0] && final(self)@
                    == (MachineV {
                    input: old(self)@.input.subrange(1, old(self)@.input.len() as int),
                    ..old(self)@
                }),
                None => old(self)@.input.len() == 0 && final(self)@ == old(self)@,
            },
    {
        let r = self.input.pop_front();
        proof {
            if r is Some {
                assert(final(self)@ =~= (MachineV {
                    input: old(self)@.input.subrange(1, old(self)@.input.len() as int),
                    ..old(self)@
                }));
            }
        }
        r
    }

    /// Appends one output byte.
    pub fn push_output(&mut self, val: u8)
        ensures
            final(self)@ == old(self)@.emit(val),
    {
        self.output.push_back(val);
        proof {
            assert(final(self)@ =~= old(self)@.emit(val));
        }
    }

    /// Removes and returns the oldest queued output byte, if any.
    pub fn pop_output(&mut self) -> (r: Option<u8>)
        ensures
            match r {
                Some(b) => old(self)@.output.len() > 0 && b == old(self)@.output[0] && final(self)@
                    == (MachineV {
                    output: old(self)@.output.subrange(1, old(self)@.output.len() as int),
                    ..old(self)@
                }),
                None => old(self)@.output.len() == 0 && final(self)@ == old(self)@,
            },
    {
        let r = self.output.pop_front();
        proof {
            if r is Some {
                assert(final(self)@ =~= (MachineV {
                    output: old(self)@.output.subrange(1, old(self)@.output.len() as int),
                    ..old(self)@
                }));
            }
        }
        r
    }

    /// Appends one rendered trace line.
    pub fn push_trace(&mut self, line: String)
        ensures
            final(self)@ == (MachineV { trace: old(self)@.trace.push(line@), ..old(self)@ }),
    {
        self.trace.push_back(line);
        proof {
            assert(final(self)@ =~= (MachineV {
                trace: old(self)@.trace.push(line@),
                ..old(self)@
            }));
        }
    }

    /// Removes and returns the oldest pending trace line, if any.
    pub fn pop_trace(&mut self) -> (r: Option<String>)
        ensures
            match r {
                Some(line) => old(self)@.trace.len() > 0 && line@ == old(self)@.trace[0]
                    && final(self)@ == (MachineV {
                    trace: old(self)@.trace.subrange(1, old(self)@.trace.len() as int),
                    ..old(self)@
                }),
                None => old(self)@.trace.len() == 0 && final(self)@ == old(self)@,
            },
    {
        let r = self.trace.pop_front();
        proof {
            if r is Some {
                assert(final(self)@ =~= (MachineV {
                    trace: old(self)@.trace.subrange(1, old(self)@.trace.len() as int),
                    ..old(self)@
                }));
            }
        }
        r
    }

    /// Whether per-instruction tracing is enabled.
    pub fn debug(&self) -> (r: bool)
        ensures
            r == self@.debug,
    {
        self.debug
    }
}

} // verus!
