use befunge::funge_space::FungeSpace;
use befunge::instructions::{
    convert_empty_stack_value_to_default_int, DuplicateInstruction, Executable, PopValueInstruction,
    PrintCharInstruction, SwapInstruction,
};
use befunge::interpreter::Interpreter;
use befunge::stack::{Stack, StackValue};

fn blank_interpreter() -> Interpreter {
    let space = FungeSpace::new(vec![vec![' ']]);
    Interpreter::new(space, Vec::new())
}

#[test]
fn push_then_pop_returns_last_value() {
    let mut s = Stack::new();
    s.push(StackValue::Int(1));
    s.push(StackValue::Char('x'));
    assert_eq!(s.remove_value_from_stack(), StackValue::Char('x'));
    assert_eq!(s.remove_value_from_stack(), StackValue::Int(1));
}

#[test]
fn popping_empty_stack_yields_empty_not_error() {
    let mut s = Stack::new();
    assert_eq!(s.remove_value_from_stack(), StackValue::Empty);
    assert_eq!(s.depth(), 0);
}

#[test]
fn pop_pair_order_is_top_then_second() {
    let mut s = Stack::new();
    s.push(StackValue::Int(5));
    s.push(StackValue::Int(3));
    let (a, b) = s.get_two_items_from_stack();
    assert_eq!(a, StackValue::Int(3));
    assert_eq!(b, StackValue::Int(5));
    assert_eq!(s.depth(), 0);
}

#[test]
fn pop_pair_on_single_value_fills_with_empty() {
    let mut s = Stack::new();
    s.push(StackValue::Int(7));
    let (a, b) = s.get_two_items_from_stack();
    assert_eq!(a, StackValue::Int(7));
    assert_eq!(b, StackValue::Empty);
}

#[test]
fn coercion_maps_empty_to_zero_and_char_to_codepoint() {
    assert_eq!(
        convert_empty_stack_value_to_default_int(StackValue::Empty),
        StackValue::Int(0)
    );
    assert_eq!(
        convert_empty_stack_value_to_default_int(StackValue::Char('A')),
        StackValue::Int(65)
    );
    assert_eq!(
        convert_empty_stack_value_to_default_int(StackValue::Int(-9)),
        StackValue::Int(-9)
    );
}

#[test]
fn duplicate_keeps_a_char_uncoerced() {
    let mut interp = blank_interpreter();
    interp.stack.push(StackValue::Char('A'));
    DuplicateInstruction {}.execute(&mut interp).unwrap();
    assert_eq!(interp.stack.depth(), 2);
    assert_eq!(interp.stack.value_at(0), StackValue::Char('A'));
    assert_eq!(interp.stack.value_at(1), StackValue::Char('A'));
}

#[test]
fn duplicate_on_empty_stack_duplicates_empty() {
    let mut interp = blank_interpreter();
    DuplicateInstruction {}.execute(&mut interp).unwrap();
    assert_eq!(interp.stack.depth(), 2);
    assert_eq!(interp.stack.value_at(0), StackValue::Empty);
    assert_eq!(interp.stack.value_at(1), StackValue::Empty);
}

#[test]
fn swap_exchanges_and_normalizes_the_two_top_slots() {
    let mut interp = blank_interpreter();
    interp.stack.push(StackValue::Int(5));
    interp.stack.push(StackValue::Char('A'));
    SwapInstruction {}.execute(&mut interp).unwrap();
    assert_eq!(interp.stack.depth(), 2);
    assert_eq!(interp.stack.value_at(0), StackValue::Int(65));
    assert_eq!(interp.stack.value_at(1), StackValue::Int(5));
}

#[test]
fn swap_on_empty_stack_pushes_two_zeroes() {
    let mut interp = blank_interpreter();
    SwapInstruction {}.execute(&mut interp).unwrap();
    assert_eq!(interp.stack.depth(), 2);
    assert_eq!(interp.stack.value_at(0), StackValue::Int(0));
    assert_eq!(interp.stack.value_at(1), StackValue::Int(0));
}

#[test]
fn print_char_writes_the_low_byte_of_an_integer() {
    let mut interp = blank_interpreter();
    interp.stack.push(StackValue::Int(321));
    PrintCharInstruction {}.execute(&mut interp).unwrap();
    // 321 mod 256 == 65 == 'A'
    assert_eq!(interp.get_output(), b"A");
}

#[test]
fn print_char_writes_the_low_byte_of_a_negative_integer() {
    let mut interp = blank_interpreter();
    interp.stack.push(StackValue::Int(-191));
    PrintCharInstruction {}.execute(&mut interp).unwrap();
    // -191 mod 256 == 65 == 'A'
    assert_eq!(interp.get_output(), b"A");
}

#[test]
fn pop_instruction_discards_and_is_a_no_op_on_empty() {
    let mut interp = blank_interpreter();
    interp.stack.push(StackValue::Int(3));
    PopValueInstruction {}.execute(&mut interp).unwrap();
    assert_eq!(interp.stack.depth(), 0);
    PopValueInstruction {}.execute(&mut interp).unwrap();
    assert_eq!(interp.stack.depth(), 0);
}
