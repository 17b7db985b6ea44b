use befunge::funge_space::FungeSpace;
use befunge::instructions::{
    binary_arithmetic_operation_on_stack, AddInstruction, BinaryOp, Executable, RuntimeError,
};
use befunge::interpreter::Interpreter;
use befunge::stack::StackValue;

fn blank_interpreter() -> Interpreter {
    let space = FungeSpace::new(vec![vec![' ']]);
    Interpreter::new(space, Vec::new())
}

fn with_two(b: i32, a: i32) -> Interpreter {
    let mut interp = blank_interpreter();
    interp.stack.push(StackValue::Int(b));
    interp.stack.push(StackValue::Int(a));
    interp
}

#[test]
fn add_of_five_and_three_is_eight() {
    let mut interp = with_two(5, 3);
    binary_arithmetic_operation_on_stack(&mut interp, BinaryOp::Add).unwrap();
    assert_eq!(interp.stack.depth(), 1);
    assert_eq!(interp.stack.value_at(0), StackValue::Int(8));
}

#[test]
fn sub_uses_the_earlier_push_as_left_hand_side() {
    // push(5); push(3); sub  ==>  5 - 3
    let mut interp = with_two(5, 3);
    binary_arithmetic_operation_on_stack(&mut interp, BinaryOp::Sub).unwrap();
    assert_eq!(interp.stack.value_at(0), StackValue::Int(2));
}

#[test]
fn div_uses_the_earlier_push_as_dividend() {
    // push(5); push(3); div  ==>  5 / 3
    let mut interp = with_two(5, 3);
    binary_arithmetic_operation_on_stack(&mut interp, BinaryOp::Div).unwrap();
    assert_eq!(interp.stack.value_at(0), StackValue::Int(1));
}

#[test]
fn mod_uses_the_earlier_push_as_dividend() {
    // push(5); push(3); mod  ==>  5 % 3
    let mut interp = with_two(5, 3);
    binary_arithmetic_operation_on_stack(&mut interp, BinaryOp::Mod).unwrap();
    assert_eq!(interp.stack.value_at(0), StackValue::Int(2));
}

#[test]
fn mul_multiplies() {
    let mut interp = with_two(-4, 6);
    binary_arithmetic_operation_on_stack(&mut interp, BinaryOp::Mul).unwrap();
    assert_eq!(interp.stack.value_at(0), StackValue::Int(-24));
}

#[test]
fn add_on_empty_stack_yields_zero() {
    let mut interp = blank_interpreter();
    binary_arithmetic_operation_on_stack(&mut interp, BinaryOp::Add).unwrap();
    assert_eq!(interp.stack.depth(), 1);
    assert_eq!(interp.stack.value_at(0), StackValue::Int(0));
}

#[test]
fn add_instruction_coerces_a_char_operand() {
    let mut interp = blank_interpreter();
    interp.stack.push(StackValue::Char('A'));
    interp.stack.push(StackValue::Int(1));
    AddInstruction {}.execute(&mut interp).unwrap();
    assert_eq!(interp.stack.value_at(0), StackValue::Int(66));
}

#[test]
fn division_by_zero_is_a_fatal_error() {
    let mut interp = with_two(5, 0);
    let r = binary_arithmetic_operation_on_stack(&mut interp, BinaryOp::Div);
    assert_eq!(r, Err(RuntimeError::DivisionByZero));
}

#[test]
fn modulo_by_zero_is_a_fatal_error() {
    let mut interp = with_two(5, 0);
    let r = binary_arithmetic_operation_on_stack(&mut interp, BinaryOp::Mod);
    assert_eq!(r, Err(RuntimeError::ModuloByZero));
}

#[test]
fn division_truncates_towards_zero() {
    let mut interp = with_two(-7, 2);
    binary_arithmetic_operation_on_stack(&mut interp, BinaryOp::Div).unwrap();
    assert_eq!(interp.stack.value_at(0), StackValue::Int(-3));
}

#[test]
fn remainder_takes_the_sign_of_the_dividend() {
    let mut interp = with_two(-7, 2);
    binary_arithmetic_operation_on_stack(&mut interp, BinaryOp::Mod).unwrap();
    assert_eq!(interp.stack.value_at(0), StackValue::Int(-1));
}

#[test]
fn overflowing_division_wraps() {
    let mut interp = with_two(i32::MIN, -1);
    binary_arithmetic_operation_on_stack(&mut interp, BinaryOp::Div).unwrap();
    assert_eq!(interp.stack.value_at(0), StackValue::Int(i32::MIN));
}

#[test]
fn addition_wraps_on_overflow() {
    let mut interp = with_two(i32::MAX, 1);
    binary_arithmetic_operation_on_stack(&mut interp, BinaryOp::Add).unwrap();
    assert_eq!(interp.stack.value_at(0), StackValue::Int(i32::MIN));
}
