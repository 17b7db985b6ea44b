use befunge::funge_space::FungeSpace;
use befunge::instructions::{Instruction, RuntimeError};
use befunge::interpreter::{Interpreter, ReadMode};
use befunge::numerals::{format_int, parse_int};
use befunge::stack::StackValue;
use befunge::symbol_mapper::map_symbol_to_instruction;

fn interpreter_for(program: &str, input: &[u8]) -> Interpreter {
    let rows: Vec<Vec<char>> = program.lines().map(|l| l.chars().collect()).collect();
    Interpreter::new(FungeSpace::new(rows), input.to_vec())
}

#[test]
fn a_lone_halt_terminates_after_exactly_one_step() {
    let mut interp = interpreter_for("@", b"");
    assert!(!interp.is_finished());
    interp.step().unwrap();
    assert!(interp.is_finished());
    assert_eq!(interp.stack.depth(), 0);
    assert_eq!(interp.get_output().len(), 0);
}

#[test]
fn string_mode_pushes_characters_and_returns_to_normal() {
    let mut interp = interpreter_for("\"ab\"@", b"");
    let halted = interp.run(100).unwrap();
    assert!(halted);
    assert_eq!(interp.get_mode(), ReadMode::Normal);
    assert_eq!(interp.stack.depth(), 2);
    assert_eq!(interp.stack.value_at(0), StackValue::Char('a'));
    assert_eq!(interp.stack.value_at(1), StackValue::Char('b'));
}

#[test]
fn bridge_skips_exactly_one_cell() {
    let mut interp = interpreter_for("#5@", b"");
    interp.step().unwrap();
    // after processing `#` the cursor has ended two cells to the right
    assert_eq!(interp.pointer.get_x(), 2);
    interp.step().unwrap();
    assert!(interp.is_finished());
    // the skipped `5` was never executed
    assert_eq!(interp.stack.depth(), 0);
}

#[test]
fn digits_push_their_value_and_add_combines_them() {
    let mut interp = interpreter_for("53+@", b"");
    let halted = interp.run(100).unwrap();
    assert!(halted);
    assert_eq!(interp.stack.depth(), 1);
    assert_eq!(interp.stack.value_at(0), StackValue::Int(8));
}

#[test]
fn print_int_writes_decimal_text() {
    let mut interp = interpreter_for("5.@", b"");
    interp.run(100).unwrap();
    assert_eq!(interp.get_output(), b"5");
}

#[test]
fn print_int_writes_a_negative_value_with_its_sign() {
    // 0 then 5 then sub: 0 - 5 == -5
    let mut interp = interpreter_for("05-.@", b"");
    interp.run(100).unwrap();
    assert_eq!(interp.get_output(), b"-5");
}

#[test]
fn print_char_writes_the_raw_byte() {
    let mut interp = interpreter_for("\"A\",@", b"");
    interp.run(100).unwrap();
    assert_eq!(interp.get_output(), b"A");
}

#[test]
fn printing_an_empty_stack_writes_the_diagnostic() {
    let mut interp = interpreter_for(".@", b"");
    interp.run(100).unwrap();
    assert_eq!(interp.get_output(), b"Stack is empty!");
}

#[test]
fn unmapped_symbols_are_silent_no_ops() {
    let mut interp = interpreter_for("q 5@", b"");
    let halted = interp.run(100).unwrap();
    assert!(halted);
    assert_eq!(interp.stack.depth(), 1);
    assert_eq!(interp.stack.value_at(0), StackValue::Int(5));
}

#[test]
fn directional_symbols_steer_the_cursor_over_both_rows() {
    let program = "v  @\n>5.^";
    let mut interp = interpreter_for(program, b"");
    let halted = interp.run(100).unwrap();
    assert!(halted);
    assert_eq!(interp.get_output(), b"5");
}

#[test]
fn a_program_without_a_halt_runs_out_of_fuel_unhalted() {
    let mut interp = interpreter_for(">", b"");
    let halted = interp.run(50).unwrap();
    assert!(!halted);
}

#[test]
fn read_integer_parses_a_line_and_pushes_it() {
    let mut interp = interpreter_for("&.@", b"42\n");
    interp.run(100).unwrap();
    assert_eq!(interp.get_output(), b"42");
}

#[test]
fn read_integer_consumes_one_line_per_read() {
    let mut interp = interpreter_for("&&+.@", b"2\n3\n");
    interp.run(100).unwrap();
    assert_eq!(interp.get_output(), b"5");
}

#[test]
fn print_int_on_a_char_writes_the_raw_byte_not_text() {
    // the intentional asymmetry: `.` applied to a character behaves
    // like a byte write, not like decimal formatting
    let mut interp = interpreter_for("\"A\".@", b"");
    interp.run(100).unwrap();
    assert_eq!(interp.get_output(), b"A");
}

#[test]
fn read_integer_rejects_malformed_text() {
    let mut interp = interpreter_for("&@", b"four\n");
    let r = interp.run(100);
    assert_eq!(r, Err(RuntimeError::InvalidIntegerInput));
}

#[test]
fn read_char_pushes_one_byte() {
    let mut interp = interpreter_for("~,@", b"Z");
    interp.run(100).unwrap();
    assert_eq!(interp.get_output(), b"Z");
}

#[test]
fn read_char_at_end_of_input_is_fatal() {
    let mut interp = interpreter_for("~@", b"");
    let r = interp.run(100);
    assert_eq!(r, Err(RuntimeError::InputExhausted));
}

#[test]
fn division_by_zero_aborts_a_program() {
    let mut interp = interpreter_for("50/@", b"");
    let r = interp.run(100);
    assert_eq!(r, Err(RuntimeError::DivisionByZero));
}

#[test]
fn lookup_maps_the_instruction_symbols() {
    assert!(matches!(
        map_symbol_to_instruction('+'),
        Some(Instruction::Add(_))
    ));
    assert!(matches!(
        map_symbol_to_instruction('9'),
        Some(Instruction::PutInt(p)) if p.0 == 9
    ));
    assert!(matches!(
        map_symbol_to_instruction('@'),
        Some(Instruction::Finish(_))
    ));
    assert!(map_symbol_to_instruction('q').is_none());
}

#[test]
fn format_int_renders_signed_decimals() {
    assert_eq!(format_int(0), b"0");
    assert_eq!(format_int(2147483647), b"2147483647");
    assert_eq!(format_int(-2147483648), b"-2147483648");
    assert_eq!(format_int(-7), b"-7");
}

#[test]
fn parse_int_trims_and_checks_the_range() {
    assert_eq!(parse_int(&b"  -17 \n".to_vec()), Some(-17));
    assert_eq!(parse_int(&b"+5".to_vec()), Some(5));
    assert_eq!(parse_int(&b"2147483647".to_vec()), Some(2147483647));
    assert_eq!(parse_int(&b"2147483648".to_vec()), None);
    assert_eq!(parse_int(&b"-2147483648".to_vec()), Some(-2147483648));
    assert_eq!(parse_int(&b"-2147483649".to_vec()), None);
    assert_eq!(parse_int(&b"0000000012".to_vec()), Some(12));
    assert_eq!(parse_int(&b"".to_vec()), None);
    assert_eq!(parse_int(&b"+".to_vec()), None);
    assert_eq!(parse_int(&b"12a".to_vec()), None);
}
