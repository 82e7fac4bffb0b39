use vm16::fault::Fault;
use vm16::helper::u16_to_string;
use vm16::instruction::Instruction;
use vm16::machine::Machine;
use vm16::operation::ExecuteError;

fn machine_from(words: &[u16]) -> Machine {
    Machine::new(words, false).expect("image fits in memory")
}

#[test]
fn decimal_rendering() {
    assert_eq!(u16_to_string(0), "0");
    assert_eq!(u16_to_string(9), "9");
    assert_eq!(u16_to_string(10), "10");
    assert_eq!(u16_to_string(12345), "12345");
    assert_eq!(u16_to_string(65535), "65535");
}

#[test]
fn fault_messages() {
    assert_eq!(Fault::UnknownOpcode(22).message(), "Unknown instruction: 22");
    assert_eq!(Fault::InvalidOperand(40000).message(), "Invalid argument: 40000");
    assert_eq!(Fault::InvalidRegister(5).message(), "Invalid register: 5");
    assert_eq!(Fault::EmptyStack.message(), "Empty stack");
    assert_eq!(Fault::ImageTooLarge.message(), "Memory exceeds maximum size");
    assert_eq!(Fault::OddImageLength.message(), "Not a valid image");
}

#[test]
fn decode_all_defined_opcodes() {
    let expected = [
        Instruction::Halt,
        Instruction::SetReg,
        Instruction::Push,
        Instruction::Pop,
        Instruction::Eq,
        Instruction::Gt,
        Instruction::Jmp,
        Instruction::Jt,
        Instruction::Jf,
        Instruction::Add,
        Instruction::Mul,
        Instruction::Mod,
        Instruction::And,
        Instruction::Or,
        Instruction::Not,
        Instruction::Rmem,
        Instruction::Wmem,
        Instruction::Call,
        Instruction::Ret,
        Instruction::Out,
        Instruction::In,
        Instruction::Noop,
    ];
    for (code, inst) in expected.iter().enumerate() {
        assert_eq!(Instruction::new(code as u16), Ok(*inst));
    }
}

#[test]
fn decode_rejects_undefined_opcodes() {
    assert_eq!(Instruction::new(22), Err(Fault::UnknownOpcode(22)));
    assert_eq!(Instruction::new(100), Err(Fault::UnknownOpcode(100)));
    assert_eq!(Instruction::new(65535), Err(Fault::UnknownOpcode(65535)));
}

#[test]
fn argument_counts() {
    assert_eq!(Instruction::Halt.argument_count(), 0);
    assert_eq!(Instruction::Noop.argument_count(), 0);
    assert_eq!(Instruction::Ret.argument_count(), 0);
    assert_eq!(Instruction::Call.argument_count(), 1);
    assert_eq!(Instruction::In.argument_count(), 1);
    assert_eq!(Instruction::Jmp.argument_count(), 1);
    assert_eq!(Instruction::Out.argument_count(), 1);
    assert_eq!(Instruction::Pop.argument_count(), 1);
    assert_eq!(Instruction::Push.argument_count(), 1);
    assert_eq!(Instruction::Jf.argument_count(), 2);
    assert_eq!(Instruction::Jt.argument_count(), 2);
    assert_eq!(Instruction::Not.argument_count(), 2);
    assert_eq!(Instruction::Rmem.argument_count(), 2);
    assert_eq!(Instruction::SetReg.argument_count(), 2);
    assert_eq!(Instruction::Wmem.argument_count(), 2);
    assert_eq!(Instruction::Add.argument_count(), 3);
    assert_eq!(Instruction::And.argument_count(), 3);
    assert_eq!(Instruction::Eq.argument_count(), 3);
    assert_eq!(Instruction::Gt.argument_count(), 3);
    assert_eq!(Instruction::Mod.argument_count(), 3);
    assert_eq!(Instruction::Mul.argument_count(), 3);
    assert_eq!(Instruction::Or.argument_count(), 3);
}

#[test]
fn only_halt_is_terminal() {
    for code in 0..22u16 {
        let inst = Instruction::new(code).unwrap();
        assert_eq!(inst.is_terminal(), code == 0);
    }
}

#[test]
fn trace_line_rendering() {
    // the instruction sat at address 0; pc has been advanced past opcode + 3 args
    let line = Instruction::Add.log_instruction(4, &[32768, 5, 9]);
    assert_eq!(line, "0: add 32768 5 9");
    let line = Instruction::Halt.log_instruction(13, &[]);
    assert_eq!(line, "12: halt");
}

#[test]
fn resolve_literal_is_identity() {
    let m = machine_from(&[]);
    assert_eq!(m.value(0), Ok(0));
    assert_eq!(m.value(123), Ok(123));
    assert_eq!(m.value(32767), Ok(32767));
}

#[test]
fn resolve_register_returns_content() {
    // set r0 := 7, r7 := 32767, then read them back through resolution
    let mut m = machine_from(&[]);
    m.set_value(32768, 7).unwrap();
    m.set_value(32775, 32767).unwrap();
    assert_eq!(m.value(32768), Ok(7));
    assert_eq!(m.value(32775), Ok(32767));
    // untouched registers read zero
    assert_eq!(m.value(32769), Ok(0));
}

#[test]
fn resolve_rejects_out_of_range_values() {
    let m = machine_from(&[]);
    assert_eq!(m.value(32776), Err(Fault::InvalidOperand(32776)));
    assert_eq!(m.value(40000), Err(Fault::InvalidOperand(40000)));
    assert_eq!(m.value(65535), Err(Fault::InvalidOperand(65535)));
}

#[test]
fn set_value_validates_register_and_resolves_value() {
    let mut m = machine_from(&[]);
    assert_eq!(m.set_value(100, 1), Err(Fault::InvalidRegister(100)));
    assert_eq!(m.set_value(32776, 1), Err(Fault::InvalidRegister(32776)));
    // the stored value is itself resolved: r1 := r0
    m.set_value(32768, 4660).unwrap();
    m.set_value(32769, 32768).unwrap();
    assert_eq!(m.value(32769), Ok(4660));
    // a value operand that resolves to nothing faults and stores nothing
    assert_eq!(m.set_value(32769, 40000), Err(Fault::InvalidOperand(40000)));
    assert_eq!(m.value(32769), Ok(4660));
}

#[test]
fn add_reduces_modulo_32768() {
    // r0 := 32767; r1 := r0 + 32767
    let mut m = machine_from(&[1, 32768, 32767, 9, 32769, 32768, 32767, 0]);
    assert_eq!(m.execute(), Ok(()));
    assert_eq!(m.execute(), Ok(()));
    assert_eq!(m.value(32769), Ok(32766));
    assert_eq!(m.execute(), Err(ExecuteError::Halt));
}

#[test]
fn mul_reduces_modulo_32768_without_overflow() {
    // r0 := 32767; r1 := r0 * r0 == 32767 * 32767 == 1 (mod 32768)
    let mut m = machine_from(&[1, 32768, 32767, 10, 32769, 32768, 32768, 0]);
    assert_eq!(m.execute(), Ok(()));
    assert_eq!(m.execute(), Ok(()));
    assert_eq!(m.value(32769), Ok(1));
}

#[test]
fn modulo_and_bitwise_operations() {
    // r0 := 7 % 3; r1 := 12 & 10; r2 := 12 | 10
    let mut m = machine_from(&[11, 32768, 7, 3, 12, 32769, 12, 10, 13, 32770, 12, 10, 0]);
    assert_eq!(m.execute(), Ok(()));
    assert_eq!(m.execute(), Ok(()));
    assert_eq!(m.execute(), Ok(()));
    assert_eq!(m.value(32768), Ok(1));
    assert_eq!(m.value(32769), Ok(8));
    assert_eq!(m.value(32770), Ok(14));
}

#[test]
fn modulo_by_zero_faults() {
    let mut m = machine_from(&[11, 32768, 7, 0]);
    assert_eq!(m.execute(), Err(ExecuteError::Error(Fault::ArithmeticFault)));
}

#[test]
fn comparisons_store_one_or_zero() {
    // r0 := (5 == 5); r1 := (5 == 6); r2 := (6 > 5); r3 := (5 > 5)
    let mut m = machine_from(&[
        4, 32768, 5, 5, 4, 32769, 5, 6, 5, 32770, 6, 5, 5, 32771, 5, 5, 0,
    ]);
    for _ in 0..4 {
        assert_eq!(m.execute(), Ok(()));
    }
    assert_eq!(m.value(32768), Ok(1));
    assert_eq!(m.value(32769), Ok(0));
    assert_eq!(m.value(32770), Ok(1));
    assert_eq!(m.value(32771), Ok(0));
}

#[test]
fn not_applied_twice_restores_value() {
    // r0 := !5 (15-bit); r1 := !r0
    let mut m = machine_from(&[14, 32768, 5, 14, 32769, 32768, 0]);
    assert_eq!(m.execute(), Ok(()));
    assert_eq!(m.execute(), Ok(()));
    assert_eq!(m.value(32768), Ok(32762));
    assert_eq!(m.value(32769), Ok(5));
}

#[test]
fn not_of_zero_is_15_bit_mask() {
    let mut m = machine_from(&[14, 32768, 0, 0]);
    assert_eq!(m.execute(), Ok(()));
    assert_eq!(m.value(32768), Ok(32767));
}

#[test]
fn push_then_pop_returns_value_unchanged() {
    let mut m = machine_from(&[]);
    m.stack_push(42);
    assert_eq!(m.stack_pop(), Ok(42));
}

#[test]
fn stack_is_lifo() {
    let mut m = machine_from(&[]);
    m.stack_push(1);
    m.stack_push(2);
    m.stack_push(3);
    assert_eq!(m.stack_pop(), Ok(3));
    assert_eq!(m.stack_pop(), Ok(2));
    assert_eq!(m.stack_pop(), Ok(1));
    assert_eq!(m.stack_pop(), Err(Fault::EmptyStack));
}

#[test]
fn push_and_pop_opcodes_round_trip() {
    // Push 123; Pop r0
    let mut m = machine_from(&[2, 123, 3, 32768, 0]);
    assert_eq!(m.execute(), Ok(()));
    assert_eq!(m.execute(), Ok(()));
    assert_eq!(m.value(32768), Ok(123));
}

#[test]
fn pop_opcode_on_empty_stack_faults() {
    let mut m = machine_from(&[3, 32768]);
    assert_eq!(m.execute(), Err(ExecuteError::Error(Fault::EmptyStack)));
}

#[test]
fn ret_on_empty_stack_faults() {
    let mut m = machine_from(&[18]);
    assert_eq!(m.execute(), Err(ExecuteError::Error(Fault::EmptyStack)));
}

#[test]
fn jumps_redirect_the_program_counter() {
    // Jmp 5; (skipped); Noop at 5
    let mut m = machine_from(&[6, 5, 0, 0, 0, 21, 0]);
    assert_eq!(m.execute(), Ok(()));
    assert_eq!(m.pc(), 5);
    // Jt with a nonzero condition jumps, with zero falls through
    let mut m = machine_from(&[7, 1, 6, 0, 0, 0, 21]);
    assert_eq!(m.execute(), Ok(()));
    assert_eq!(m.pc(), 6);
    let mut m = machine_from(&[7, 0, 6, 0]);
    assert_eq!(m.execute(), Ok(()));
    assert_eq!(m.pc(), 3);
    // Jf jumps exactly when the condition is zero
    let mut m = machine_from(&[8, 0, 6, 0, 0, 0, 21]);
    assert_eq!(m.execute(), Ok(()));
    assert_eq!(m.pc(), 6);
    let mut m = machine_from(&[8, 1, 6, 0]);
    assert_eq!(m.execute(), Ok(()));
    assert_eq!(m.pc(), 3);
}

#[test]
fn memory_write_then_read() {
    // Wmem [100] := 42; Rmem r0 := [100]
    let mut m = machine_from(&[16, 100, 42, 15, 32768, 100, 0]);
    assert_eq!(m.execute(), Ok(()));
    assert_eq!(m.read_memory(100), Ok(42));
    assert_eq!(m.execute(), Ok(()));
    assert_eq!(m.value(32768), Ok(42));
}

#[test]
fn self_modifying_code_is_permitted() {
    // Wmem [3] := 21 turns the word after it into a Noop
    let mut m = machine_from(&[16, 3, 21, 99, 0]);
    assert_eq!(m.execute(), Ok(()));
    assert_eq!(m.execute(), Ok(()));
    assert_eq!(m.pc(), 4);
}

#[test]
fn call_then_ret_resumes_after_the_call() {
    // Call 3; Halt; Ret
    let mut m = machine_from(&[17, 3, 0, 18]);
    assert_eq!(m.execute(), Ok(()));
    assert_eq!(m.pc(), 3);
    assert_eq!(m.execute(), Ok(()));
    assert_eq!(m.pc(), 2);
    assert_eq!(m.execute(), Err(ExecuteError::Halt));
}

#[test]
fn out_emits_low_byte() {
    // Out 65; Out 321 (truncates to 65)
    let mut m = machine_from(&[19, 65, 19, 321, 0]);
    assert_eq!(m.execute(), Ok(()));
    assert_eq!(m.execute(), Ok(()));
    assert_eq!(m.pop_output(), Some(65));
    assert_eq!(m.pop_output(), Some(65));
    assert_eq!(m.pop_output(), None);
}

#[test]
fn in_blocks_on_empty_queue_and_resumes_exactly_once() {
    // In r0; Out r0; Halt
    let mut m = machine_from(&[20, 32768, 19, 32768, 0]);
    assert_eq!(m.execute(), Err(ExecuteError::NeedInput));
    // the blocked step changed nothing: pc rewound, register and output as before
    assert_eq!(m.pc(), 0);
    assert_eq!(m.value(32768), Ok(0));
    assert_eq!(m.pop_output(), None);
    // a second blocked attempt is just as harmless
    assert_eq!(m.execute(), Err(ExecuteError::NeedInput));
    assert_eq!(m.pc(), 0);
    // feed two bytes: the re-executed In consumes exactly the first
    m.push_input(65);
    m.push_input(66);
    assert_eq!(m.execute(), Ok(()));
    assert_eq!(m.value(32768), Ok(65));
    assert_eq!(m.pc(), 2);
    assert_eq!(m.pop_input(), Some(66));
    assert_eq!(m.pop_input(), None);
}

#[test]
fn in_with_invalid_destination_faults() {
    let mut m = machine_from(&[20, 5]);
    m.push_input(65);
    assert_eq!(m.execute(), Err(ExecuteError::Error(Fault::InvalidRegister(5))));
}

#[test]
fn end_to_end_output_program() {
    // Out 'A'; Halt — stepping to completion drains exactly "A"
    let mut m = machine_from(&[19, 65, 0]);
    assert_eq!(m.execute(), Ok(()));
    assert_eq!(m.execute(), Err(ExecuteError::Halt));
    assert_eq!(m.pop_output(), Some(b'A'));
    assert_eq!(m.pop_output(), None);
}

#[test]
fn undefined_opcode_faults_on_first_step() {
    let mut m = machine_from(&[22]);
    assert_eq!(m.execute(), Err(ExecuteError::Error(Fault::UnknownOpcode(22))));
}

#[test]
fn odd_length_byte_image_fails_to_load() {
    assert!(matches!(Machine::new_u8(&[1, 0, 2], false), Err(Fault::OddImageLength)));
}

#[test]
fn little_endian_byte_image_loads_low_byte_first() {
    let mut m = Machine::new_u8(&[0x34, 0x12, 0x01, 0x80], false).unwrap();
    assert_eq!(m.read_memory(0), Ok(0x1234));
    assert_eq!(m.read_memory(1), Ok(0x8001));
    assert_eq!(m.read_memory(2), Ok(0));
}

#[test]
fn oversized_image_fails_to_load() {
    let words = vec![0u16; 32769];
    assert!(matches!(Machine::new(&words, false), Err(Fault::ImageTooLarge)));
    let bytes = vec![0u8; 2 * 32769];
    assert!(matches!(Machine::new_u8(&bytes, false), Err(Fault::ImageTooLarge)));
    // exactly full is fine
    let words = vec![0u16; 32768];
    assert!(Machine::new(&words, false).is_ok());
}

#[test]
fn fresh_machine_state_after_load() {
    let mut m = machine_from(&[21, 0]);
    assert_eq!(m.pc(), 0);
    for r in 0..8u16 {
        assert_eq!(m.value(32768 + r), Ok(0));
    }
    assert_eq!(m.stack_pop(), Err(Fault::EmptyStack));
    assert_eq!(m.pop_input(), None);
    assert_eq!(m.pop_output(), None);
    assert_eq!(m.pop_trace(), None);
    assert!(!m.debug());
}

#[test]
fn tracing_emits_one_line_per_executed_instruction() {
    let mut m = Machine::new(&[21, 1, 32768, 7, 0], true).unwrap();
    assert!(m.debug());
    assert_eq!(m.execute(), Ok(()));
    assert_eq!(m.execute(), Ok(()));
    assert_eq!(m.execute(), Err(ExecuteError::Halt));
    assert_eq!(m.pop_trace().as_deref(), Some("0: noop"));
    assert_eq!(m.pop_trace().as_deref(), Some("1: set 32768 7"));
    assert_eq!(m.pop_trace().as_deref(), Some("4: halt"));
    assert_eq!(m.pop_trace(), None);
}

#[test]
fn tracing_disabled_emits_nothing() {
    let mut m = machine_from(&[21, 0]);
    assert_eq!(m.execute(), Ok(()));
    assert_eq!(m.pop_trace(), None);
}

#[test]
fn running_off_the_end_of_memory_faults() {
    // Jmp to the last word, which holds a Noop; stepping past it leaves the
    // program counter at 32768, where the next decode is an invalid address
    let mut words = vec![0u16; 32768];
    words[0] = 6;
    words[1] = 32767;
    words[32767] = 21;
    let mut m = Machine::new(&words, false).unwrap();
    assert_eq!(m.execute(), Ok(()));
    assert_eq!(m.pc(), 32767);
    assert_eq!(m.execute(), Ok(()));
    assert_eq!(m.pc(), 32768);
    assert_eq!(m.execute(), Err(ExecuteError::Error(Fault::InvalidAddress(32768))));
}

#[test]
fn operand_window_past_end_of_memory_faults() {
    // an Add opcode in the last word has no room for its three operands
    let mut words = vec![0u16; 32768];
    words[0] = 6;
    words[1] = 32767;
    words[32767] = 9;
    let mut m = Machine::new(&words, false).unwrap();
    assert_eq!(m.execute(), Ok(()));
    assert_eq!(m.execute(), Err(ExecuteError::Error(Fault::InvalidAddress(32767))));
}

#[test]
fn set_opcode_resolves_register_valued_operand() {
    // r0 := 9; r1 := r0
    let mut m = machine_from(&[1, 32768, 9, 1, 32769, 32768, 0]);
    assert_eq!(m.execute(), Ok(()));
    assert_eq!(m.execute(), Ok(()));
    assert_eq!(m.value(32769), Ok(9));
}

#[test]
fn invalid_operand_inside_an_opcode_faults() {
    // Push with an unresolvable operand
    let mut m = machine_from(&[2, 40000]);
    assert_eq!(m.execute(), Err(ExecuteError::Error(Fault::InvalidOperand(40000))));
}
