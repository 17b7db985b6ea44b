use befunge::funge_space::FungeSpace;
use befunge::instructions::{Executable, HorizontalIfInstruction, VerticalIfInstruction};
use befunge::interpreter::Interpreter;
use befunge::pointer::{Direction, Pointer};
use befunge::stack::StackValue;

fn space_5_by_3() -> FungeSpace {
    FungeSpace::new(vec![vec![' '; 5], vec![' '; 5], vec![' '; 5]])
}

#[test]
fn advancing_right_off_the_edge_wraps_to_column_zero() {
    let space = space_5_by_3();
    let mut p = Pointer::new();
    p.move_horizontally(4);
    p.wrap_pointer(&space);
    assert_eq!(p.get_x(), 4);
    p.current_move();
    p.wrap_pointer(&space);
    assert_eq!(p.get_x(), 0);
}

#[test]
fn advancing_left_from_column_zero_wraps_to_the_far_edge() {
    let space = space_5_by_3();
    let mut p = Pointer::new();
    p.change_direction(Direction::Left);
    p.current_move();
    p.wrap_pointer(&space);
    assert_eq!(p.get_x(), 4);
}

#[test]
fn advancing_up_from_row_zero_wraps_to_the_bottom() {
    let space = space_5_by_3();
    let mut p = Pointer::new();
    p.change_direction(Direction::Up);
    p.current_move();
    p.wrap_pointer(&space);
    assert_eq!(p.get_y(), 2);
}

#[test]
fn wrapping_normalizes_a_large_negative_overshoot() {
    let space = space_5_by_3();
    let mut p = Pointer::new();
    p.move_vertically(-7);
    p.move_horizontally(13);
    p.wrap_pointer(&space);
    assert_eq!(p.get_y(), 2);
    assert_eq!(p.get_x(), 3);
}

#[test]
fn direction_change_has_no_positional_effect() {
    let mut p = Pointer::new();
    p.change_direction(Direction::Down);
    assert_eq!(p.get_x(), 0);
    assert_eq!(p.get_y(), 0);
    assert_eq!(p.get_direction(), Direction::Down);
}

fn blank_interpreter() -> Interpreter {
    Interpreter::new(space_5_by_3(), Vec::new())
}

#[test]
fn horizontal_if_sends_truthy_left_and_falsy_right() {
    let mut interp = blank_interpreter();
    interp.stack.push(StackValue::Int(1));
    HorizontalIfInstruction {}.execute(&mut interp).unwrap();
    assert_eq!(interp.pointer.get_direction(), Direction::Left);

    interp.stack.push(StackValue::Int(0));
    HorizontalIfInstruction {}.execute(&mut interp).unwrap();
    assert_eq!(interp.pointer.get_direction(), Direction::Right);
}

#[test]
fn horizontal_if_on_empty_stack_goes_right() {
    let mut interp = blank_interpreter();
    HorizontalIfInstruction {}.execute(&mut interp).unwrap();
    assert_eq!(interp.pointer.get_direction(), Direction::Right);
}

#[test]
fn vertical_if_tests_only_the_low_byte_of_a_char() {
    let mut interp = blank_interpreter();
    interp.stack.push(StackValue::Char('A'));
    VerticalIfInstruction {}.execute(&mut interp).unwrap();
    assert_eq!(interp.pointer.get_direction(), Direction::Up);

    // codepoint 0x100 has a zero low byte, so it counts as falsy
    interp.stack.push(StackValue::Char('\u{100}'));
    VerticalIfInstruction {}.execute(&mut interp).unwrap();
    assert_eq!(interp.pointer.get_direction(), Direction::Down);
}

#[test]
fn grid_construction_pads_short_rows_with_blanks() {
    let space = FungeSpace::new(vec![vec!['a', 'b'], vec!['c']]);
    assert_eq!(space.width(), 2);
    assert_eq!(space.height(), 2);
    assert_eq!(space.get_symbol_at(0, 1), 'c');
    assert_eq!(space.get_symbol_at(1, 1), ' ');
}

#[test]
fn an_empty_program_becomes_a_single_blank_cell() {
    let space = FungeSpace::new(Vec::new());
    assert_eq!(space.width(), 1);
    assert_eq!(space.height(), 1);
    assert_eq!(space.get_symbol_at(0, 0), ' ');
}
