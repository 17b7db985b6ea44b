//! The instruction set: a closed collection of operations, each an atomic
//! transformation of the shared interpreter state (stack, cursor
//! direction, read mode, input, output, halt flag).  The effect of every
//! instruction is pinned by the spec function `instruction_effect`.

use vstd::prelude::*;
use vstd::arithmetic::div_mod::{
    lemma_div_is_ordered, lemma_div_is_ordered_by_denominator, lemma_div_nonincreasing,
    lemma_div_pos_is_pos, lemma_mod_bound,
};
use crate::interpreter::{
    advanced, after_line, line_end, toggled_mode, Interpreter, ReadMode, StateModel,
};
use crate::numerals::{dec_repr, int_text_value, trimmed, valid_int_text};
use crate::numerals::{format_int, parse_int};
use crate::pointer::Direction;
use crate::stack::{coerced_int, stack_rest, stack_top, StackValue};

verus! {

/// Why a run was aborted.  Division and modulo by zero are treated as
/// fatal rather than given an arbitrary value, so that they cannot pass
/// silently.
#[derive(Debug, Clone, Copy, PartialEq, Eq, Structural)]
pub enum RuntimeError {
    DivisionByZero,
    ModuloByZero,
    InvalidIntegerInput,
    InputExhausted,
}

/// The five binary arithmetic operations.
#[derive(Debug, Clone, Copy, PartialEq, Eq, Structural)]
pub enum BinaryOp {
    Add,
    Sub,
    Mul,
    Div,
    Mod,
}

/// Division with truncation towards zero, as the division instruction
/// computes it on the coerced operands.
pub open spec fn trunc_div(x: int, d: int) -> int {
    if x == 0 {
        0
    } else if x > 0 && d > 0 {
        x / d
    } else if x < 0 && d < 0 {
        (x * -1) / (d * -1)
    } else if x < 0 {
        ((x * -1) / d) * -1
    } else {
        (x / (d * -1)) * -1
    }
}

/// Remainder with the sign of the dividend, matching the truncating
/// division above.
pub open spec fn trunc_rem(x: int, d: int) -> int {
    if x == 0 {
        0
    } else if x > 0 && d > 0 {
        x % d
    } else if x < 0 && d < 0 {
        ((x * -1) % (d * -1)) * -1
    } else if x < 0 {
        ((x * -1) % d) * -1
    } else {
        x % (d * -1)
    }
}

/// The value a binary operation pushes, with `b` the operand pushed
/// earlier (the left-hand side) and `a` the operand pushed later.  The
/// wrapping operations make every result a well-defined 32-bit value.
pub open spec fn apply_binary_op(op: BinaryOp, b: i32, a: i32) -> i32 {
    match op {
        BinaryOp::Add => b.wrapping_add(a),
        BinaryOp::Sub => b.wrapping_sub(a),
        BinaryOp::Mul => b.wrapping_mul(a),
        BinaryOp::Div => if b == i32::MIN && a == -1 {
            i32::MIN
        } else {
            trunc_div(b as int, a as int) as i32
        },
        BinaryOp::Mod => if b == i32::MIN && a == -1 {
            0
        } else {
            trunc_rem(b as int, a as int) as i32
        },
    }
}

/// Division and modulo fail exactly when the divisor — the value popped
/// first — coerces to zero.
pub open spec fn binary_op_gives_error(op: BinaryOp, a: i32) -> bool {
    (op is Div || op is Mod) && a == 0
}

/// The stack after a successful binary operation: the two topmost slots
/// (missing ones read as `Empty`) are replaced by the single result.
pub open spec fn binary_stack_result(op: BinaryOp, s: Seq<StackValue>) -> Seq<StackValue> {
    let a = coerced_int(stack_top(s));
    let b = coerced_int(stack_top(stack_rest(s)));
    stack_rest(stack_rest(s)).push(StackValue::Int(apply_binary_op(op, b, a)))
}

/// The whole-state effect of a binary arithmetic instruction.
pub open spec fn binary_effect(s: StateModel, op: BinaryOp) -> (StateModel, Option<RuntimeError>) {
    let a = coerced_int(stack_top(s.stack));
    if binary_op_gives_error(op, a) {
        (
            StateModel { stack: stack_rest(stack_rest(s.stack)), ..s },
            Some(if op is Div { RuntimeError::DivisionByZero } else { RuntimeError::ModuloByZero }),
        )
    } else {
        (StateModel { stack: binary_stack_result(op, s.stack), ..s }, None)
    }
}

/// The truthiness test of the branch instructions: an integer is truthy
/// iff nonzero, a character iff its low eight bits are nonzero, and a
/// missing value is falsy.
pub open spec fn truthy(v: StackValue) -> bool {
    match v {
        StackValue::Int(n) => n != 0,
        StackValue::Char(c) => (c as u32) % 256 != 0,
        StackValue::Empty => false,
    }
}

/// The diagnostic written when a print instruction finds nothing to
/// print.
pub open spec fn empty_stack_message() -> Seq<u8> {
    seq![
        83u8, 116u8, 97u8, 99u8, 107u8, 32u8, 105u8, 115u8, 32u8, 101u8, 109u8, 112u8, 116u8,
        121u8, 33u8,
    ]
}

pub open spec fn low_byte_of_int(n: i32) -> u8 {
    (n as int % 256) as u8
}

pub open spec fn low_byte_of_char(c: char) -> u8 {
    ((c as u32) % 256) as u8
}

/// What the print-as-character instruction writes for a popped value.
pub open spec fn print_char_bytes(v: StackValue) -> Seq<u8> {
    match v {
        StackValue::Int(n) => seq![low_byte_of_int(n)],
        StackValue::Char(c) => seq![low_byte_of_char(c)],
        StackValue::Empty => empty_stack_message(),
    }
}

/// What the print-as-integer instruction writes for a popped value: an
/// integer as decimal text, but a character as its raw byte.
pub open spec fn print_int_bytes(v: StackValue) -> Seq<u8> {
    match v {
        StackValue::Int(n) => dec_repr(n as int),
        StackValue::Char(c) => seq![low_byte_of_char(c)],
        StackValue::Empty => empty_stack_message(),
    }
}

#[derive(Debug, Clone, Copy, PartialEq, Eq, Structural)]
pub struct SwitchStringModeInstruction {}

#[derive(Debug, Clone, Copy, PartialEq, Eq, Structural)]
pub struct AddInstruction {}

#[derive(Debug, Clone, Copy, PartialEq, Eq, Structural)]
pub struct SubInstruction {}

#[derive(Debug, Clone, Copy, PartialEq, Eq, Structural)]
pub struct DivInstruction {}

#[derive(Debug, Clone, Copy, PartialEq, Eq, Structural)]
pub struct MulInstruction {}

#[derive(Debug, Clone, Copy, PartialEq, Eq, Structural)]
pub struct ModInstruction {}

#[derive(Debug, Clone, Copy, PartialEq, Eq, Structural)]
pub struct PrintCharInstruction {}

#[derive(Debug, Clone, Copy, PartialEq, Eq, Structural)]
pub struct PrintIntInstruction {}

#[derive(Debug, Clone, Copy, PartialEq, Eq, Structural)]
pub struct FinishInstruction {}

#[derive(Debug, Clone, Copy, PartialEq, Eq, Structural)]
pub struct PutIntInstruction(pub i32);

#[derive(Debug, Clone, Copy, PartialEq, Eq, Structural)]
pub struct PutCharInstruction(pub char);

#[derive(Debug, Clone, Copy, PartialEq, Eq, Structural)]
pub struct MoveUpInstruction {}

#[derive(Debug, Clone, Copy, PartialEq, Eq, Structural)]
pub struct MoveDownInstruction {}

#[derive(Debug, Clone, Copy, PartialEq, Eq, Structural)]
pub struct MoveLeftInstruction {}

#[derive(Debug, Clone, Copy, PartialEq, Eq, Structural)]
pub struct MoveRightInstruction {}

#[derive(Debug, Clone, Copy, PartialEq, Eq, Structural)]
pub struct HorizontalIfInstruction {}

#[derive(Debug, Clone, Copy, PartialEq, Eq, Structural)]
pub struct VerticalIfInstruction {}

#[derive(Debug, Clone, Copy, PartialEq, Eq, Structural)]
pub struct BridgeInstruction {}

#[derive(Debug, Clone, Copy, PartialEq, Eq, Structural)]
pub struct DuplicateInstruction {}

#[derive(Debug, Clone, Copy, PartialEq, Eq, Structural)]
pub struct InputIntInstruction {}

#[derive(Debug, Clone, Copy, PartialEq, Eq, Structural)]
pub struct InputCharInstruction {}

#[derive(Debug, Clone, Copy, PartialEq, Eq, Structural)]
pub struct PopValueInstruction {}

#[derive(Debug, Clone, Copy, PartialEq, Eq, Structural)]
pub struct SwapInstruction {}

/// The closed set of instructions, as a tagged sum over the individual
/// instruction types, so that dispatch is a single exhaustive match.
#[derive(Debug, Clone, Copy, PartialEq, Eq, Structural)]
pub enum Instruction {
    SwitchStringMode(SwitchStringModeInstruction),
    Add(AddInstruction),
    Sub(SubInstruction),
    Div(DivInstruction),
    Mul(MulInstruction),
    Mod(ModInstruction),
    PrintChar(PrintCharInstruction),
    PrintInt(PrintIntInstruction),
    Finish(FinishInstruction),
    PutInt(PutIntInstruction),
    PutChar(PutCharInstruction),
    MoveUp(MoveUpInstruction),
    MoveDown(MoveDownInstruction),
    MoveLeft(MoveLeftInstruction),
    MoveRight(MoveRightInstruction),
    HorizontalIf(HorizontalIfInstruction),
    VerticalIf(VerticalIfInstruction),
    Bridge(BridgeInstruction),
    Duplicate(DuplicateInstruction),
    InputInt(InputIntInstruction),
    InputChar(InputCharInstruction),
    PopValue(PopValueInstruction),
    Swap(SwapInstruction),
}

/// The whole-state effect of the "read integer" instruction: one line is
/// consumed; it must hold — after trimming — an optional sign and digits
/// denoting a value that fits in 32 bits, else the run aborts.
pub open spec fn input_int_effect(s: StateModel) -> (StateModel, Option<RuntimeError>) {
    let line = s.input.subrange(s.input_pos, line_end(s.input, s.input_pos));
    let t = trimmed(line);
    let consumed = StateModel { input_pos: after_line(s.input, s.input_pos), ..s };
    if valid_int_text(t) && i32::MIN <= int_text_value(t) <= i32::MAX {
        (
            StateModel { stack: s.stack.push(StackValue::Int(int_text_value(t) as i32)), ..consumed },
            None,
        )
    } else {
        (consumed, Some(RuntimeError::InvalidIntegerInput))
    }
}

/// The whole-state effect of every instruction: the successor state, and
/// the error that aborts the run, if any.
pub open spec fn instruction_effect(s: StateModel, instruction: Instruction) -> (
    StateModel,
    Option<RuntimeError>,
) {
    match instruction {
        Instruction::SwitchStringMode(_) => (StateModel { mode: toggled_mode(s.mode), ..s }, None),
        Instruction::Add(_) => binary_effect(s, BinaryOp::Add),
        Instruction::Sub(_) => binary_effect(s, BinaryOp::Sub),
        Instruction::Div(_) => binary_effect(s, BinaryOp::Div),
        Instruction::Mul(_) => binary_effect(s, BinaryOp::Mul),
        Instruction::Mod(_) => binary_effect(s, BinaryOp::Mod),
        Instruction::PrintChar(_) => (
            StateModel {
                stack: stack_rest(s.stack),
                output: s.output + print_char_bytes(stack_top(s.stack)),
                ..s
            },
            None,
        ),
        Instruction::PrintInt(_) => (
            StateModel {
                stack: stack_rest(s.stack),
                output: s.output + print_int_bytes(stack_top(s.stack)),
                ..s
            },
            None,
        ),
        Instruction::Finish(_) => (StateModel { finished: true, ..s }, None),
        Instruction::PutInt(p) => (StateModel { stack: s.stack.push(StackValue::Int(p.0)), ..s }, None),
        Instruction::PutChar(p) => (
            StateModel { stack: s.stack.push(StackValue::Char(p.0)), ..s },
            None,
        ),
        Instruction::MoveUp(_) => (StateModel { direction: Direction::Up, ..s }, None),
        Instruction::MoveDown(_) => (StateModel { direction: Direction::Down, ..s }, None),
        Instruction::MoveLeft(_) => (StateModel { direction: Direction::Left, ..s }, None),
        Instruction::MoveRight(_) => (StateModel { direction: Direction::Right, ..s }, None),
        Instruction::HorizontalIf(_) => (
            StateModel {
                stack: stack_rest(s.stack),
                direction: if truthy(stack_top(s.stack)) {
                    Direction::Left
                } else {
                    Direction::Right
                },
                ..s
            },
            None,
        ),
        Instruction::VerticalIf(_) => (
            StateModel {
                stack: stack_rest(s.stack),
                direction: if truthy(stack_top(s.stack)) {
                    Direction::Up
                } else {
                    Direction::Down
                },
                ..s
            },
            None,
        ),
        Instruction::Bridge(_) => (advanced(s), None),
        Instruction::Duplicate(_) => (
            StateModel {
                stack: stack_rest(s.stack).push(stack_top(s.stack)).push(stack_top(s.stack)),
                ..s
            },
            None,
        ),
        Instruction::InputInt(_) => input_int_effect(s),
        Instruction::InputChar(_) => if s.input_pos < s.input.len() {
            (
                StateModel {
                    stack: s.stack.push(StackValue::Char(s.input[s.input_pos] as char)),
                    input_pos: s.input_pos + 1,
                    ..s
                },
                None,
            )
        } else {
            (s, Some(RuntimeError::InputExhausted))
        },
        Instruction::PopValue(_) => (StateModel { stack: stack_rest(s.stack), ..s }, None),
        Instruction::Swap(_) => (
            StateModel {
                stack: stack_rest(stack_rest(s.stack)).push(
                    StackValue::Int(coerced_int(stack_top(s.stack))),
                ).push(StackValue::Int(coerced_int(stack_top(stack_rest(s.stack))))),
                ..s
            },
            None,
        ),
    }
}

/// An instruction: a single atomic transformation of the interpreter's
/// shared state, returning the error that aborts the run, if any.
pub trait Executable {
    fn execute(&self, interpreter: &mut Interpreter) -> (r: Result<(), RuntimeError>)
        requires
            old(interpreter).wf(),
        ensures
            final(interpreter).wf(),
            final(interpreter).space == old(interpreter).space,
        ;
}

/// Replaces the synthetic `Empty` by `Int(0)` and a character by its
/// codepoint, leaving integers untouched: the coercion applied to every
/// arithmetic operand.
pub fn convert_empty_stack_value_to_default_int(value: StackValue) -> (r: StackValue)
    ensures
        r == StackValue::Int(coerced_int(value)),
{
    match value {
        StackValue::Empty => StackValue::Int(0),
        StackValue::Int(a) => StackValue::Int(a),
        StackValue::Char(a) => StackValue::Int(a as i32),
    }
}

/// Pops the two topmost values (top `a`, second `b`), coerces both to
/// integers and pushes the result of `b OP a` — so the operand pushed
/// earlier is the left-hand side.  Division or modulo by a zero divisor
/// aborts the run instead of producing an arbitrary value.
pub fn binary_arithmetic_operation_on_stack(interpreter: &mut Interpreter, operation: BinaryOp) -> (r:
    Result<(), RuntimeError>)
    ensures
        final(interpreter).space == old(interpreter).space,
        ({
            let (post, e) = binary_effect(old(interpreter)@, operation);
            final(interpreter)@ == post && (match r {
                Ok(()) => e is None,
                Err(err) => e == Some(err),
            })
        }),
{
    let (a0, b0) = interpreter.stack.get_two_items_from_stack();
    let a = convert_empty_stack_value_to_default_int(a0);
    let b = convert_empty_stack_value_to_default_int(b0);
    let ghost popped_state = (StateModel { stack: stack_rest(stack_rest(old(interpreter)@.stack)), ..old(interpreter)@ });
    proof {
        assert(interpreter@ =~= popped_state);
    }
    match (a, b) {
        (StackValue::Int(ai), StackValue::Int(bi)) => {
            let result: i32 = match operation {
                BinaryOp::Add => bi.wrapping_add(ai),
                BinaryOp::Sub => bi.wrapping_sub(ai),
                BinaryOp::Mul => bi.wrapping_mul(ai),
                BinaryOp::Div => {
                    if ai == 0 {
                        return Err(RuntimeError::DivisionByZero);
                    }
                    if bi == i32::MIN && ai == -1 {
                        i32::MIN
                    } else {
                        match bi.checked_div(ai) {
                            Some(q) => q,
                            None => {
                                proof {
                                    lemma_trunc_div_fits(bi, ai);
                                }
                                0
                            },
                        }
                    }
                },
                BinaryOp::Mod => {
                    if ai == 0 {
                        return Err(RuntimeError::ModuloByZero);
                    }
                    if bi == i32::MIN && ai == -1 {
                        0
                    } else {
                        match bi.checked_rem(ai) {
                            Some(m) => m,
                            None => {
                                proof {
                                    lemma_trunc_rem_fits(bi, ai);
                                }
                                0
                            },
                        }
                    }
                },
            };
            interpreter.stack.push(StackValue::Int(result));
            proof {
                assert(final(interpreter)@ =~= binary_effect(old(interpreter)@, operation).0);
            }
            Ok(())
        },
        _ => {
            proof {
                assert(false);
            }
            Err(RuntimeError::DivisionByZero)
        },
    }
}

/// For a nonzero divisor, excluding the one overflowing pair, the
/// truncating quotient fits in 32 bits, so `checked_div` succeeds.
proof fn lemma_trunc_div_fits(b: i32, a: i32)
    requires
        a != 0,
        !(b == i32::MIN && a == -1),
    ensures
        i32::MIN <= trunc_div(b as int, a as int) <= i32::MAX,
        b.checked_div(a) == Some(trunc_div(b as int, a as int) as i32),
{
    let x = b as int;
    let d = a as int;
    if x == 0 {
    } else if x > 0 && d > 0 {
        lemma_div_pos_is_pos(x, d);
        lemma_div_nonincreasing(x, d);
    } else if x < 0 && d < 0 {
        lemma_div_pos_is_pos(x * -1, d * -1);
        lemma_div_nonincreasing(x * -1, d * -1);
        if d == -1 {
            assert(x * -1 <= i32::MAX);
            lemma_div_nonincreasing(x * -1, 1);
            assert((x * -1) / 1 == x * -1);
        } else {
            lemma_div_is_ordered_by_denominator(x * -1, 2, d * -1);
            lemma_div_is_ordered(x * -1, 0x8000_0000, 2);
            assert(0x8000_0000int / 2 == 0x4000_0000int);
        }
    } else if x < 0 {
        lemma_div_pos_is_pos(x * -1, d);
        lemma_div_nonincreasing(x * -1, d);
    } else {
        lemma_div_pos_is_pos(x, d * -1);
        lemma_div_nonincreasing(x, d * -1);
    }
}

/// For a nonzero divisor, excluding the one overflowing pair, the
/// truncating remainder fits in 32 bits, so `checked_rem` succeeds.
proof fn lemma_trunc_rem_fits(b: i32, a: i32)
    requires
        a != 0,
        !(b == i32::MIN && a == -1),
    ensures
        i32::MIN <= trunc_rem(b as int, a as int) <= i32::MAX,
        b.checked_rem(a) == Some(trunc_rem(b as int, a as int) as i32),
{
    let x = b as int;
    let d = a as int;
    if x == 0 {
    } else if x > 0 && d > 0 {
        lemma_mod_bound(x, d);
    } else if x < 0 && d < 0 {
        lemma_mod_bound(x * -1, d * -1);
    } else if x < 0 {
        lemma_mod_bound(x * -1, d);
    } else {
        lemma_mod_bound(x, d * -1);
    }
}

/// Changes the cursor's travel direction; nothing else moves until the
/// interpreter's next advance.
pub fn change_pointer_direction(interpreter: &mut Interpreter, direction: Direction)
    ensures
        final(interpreter).space == old(interpreter).space,
        final(interpreter)@ == (StateModel { direction, ..old(interpreter)@ }),
{
    interpreter.pointer.change_direction(direction);
    proof {
        assert(interpreter@ =~= (StateModel { direction, ..old(interpreter)@ }));
    }
}

fn low_byte_of_int_exec(n: i32) -> (b: u8)
    ensures
        b == low_byte_of_int(n),
{
    proof {
        lemma_mod_bound(n as int, 256);
    }
    match n.checked_rem_euclid(256) {
        Some(r) => r as u8,
        None => {
            proof {
                assert(false);
            }
            0
        },
    }
}

fn low_byte_of_char_exec(c: char) -> (b: u8)
    ensures
        b == low_byte_of_char(c),
{
    proof {
        lemma_mod_bound(c as u32 as int, 256);
    }
    ((c as u32) % 256) as u8
}

fn append_empty_stack_message(out: &mut Vec<u8>)
    ensures
        final(out)@ == old(out)@ + empty_stack_message(),
{
    out.push(83);
    out.push(116);
    out.push(97);
    out.push(99);
    out.push(107);
    out.push(32);
    out.push(105);
    out.push(115);
    out.push(32);
    out.push(101);
    out.push(109);
    out.push(112);
    out.push(116);
    out.push(121);
    out.push(33);
    proof {
        assert(final(out)@ =~= old(out)@ + empty_stack_message());
    }
}

impl Executable for AddInstruction {
    fn execute(&self, interpreter: &mut Interpreter) -> (r: Result<(), RuntimeError>)
        ensures
            ({
                let (post, e) = instruction_effect(old(interpreter)@, Instruction::Add(*self));
                final(interpreter)@ == post && (match r {
                    Ok(()) => e is None,
                    Err(err) => e == Some(err),
                })
            }),
    {
        binary_arithmetic_operation_on_stack(interpreter, BinaryOp::Add)
    }
}

impl Executable for SubInstruction {
    fn execute(&self, interpreter: &mut Interpreter) -> (r: Result<(), RuntimeError>)
        ensures
            ({
                let (post, e) = instruction_effect(old(interpreter)@, Instruction::Sub(*self));
                final(interpreter)@ == post && (match r {
                    Ok(()) => e is None,
                    Err(err) => e == Some(err),
                })
            }),
    {
        binary_arithmetic_operation_on_stack(interpreter, BinaryOp::Sub)
    }
}

impl Executable for MulInstruction {
    fn execute(&self, interpreter: &mut Interpreter) -> (r: Result<(), RuntimeError>)
        ensures
            ({
                let (post, e) = instruction_effect(old(interpreter)@, Instruction::Mul(*self));
                final(interpreter)@ == post && (match r {
                    Ok(()) => e is None,
                    Err(err) => e == Some(err),
                })
            }),
    {
        binary_arithmetic_operation_on_stack(interpreter, BinaryOp::Mul)
    }
}

impl Executable for DivInstruction {
    fn execute(&self, interpreter: &mut Interpreter) -> (r: Result<(), RuntimeError>)
        ensures
            ({
                let (post, e) = instruction_effect(old(interpreter)@, Instruction::Div(*self));
                final(interpreter)@ == post && (match r {
                    Ok(()) => e is None,
                    Err(err) => e == Some(err),
                })
            }),
    {
        binary_arithmetic_operation_on_stack(interpreter, BinaryOp::Div)
    }
}

impl Executable for ModInstruction {
    fn execute(&self, interpreter: &mut Interpreter) -> (r: Result<(), RuntimeError>)
        ensures
            ({
                let (post, e) = instruction_effect(old(interpreter)@, Instruction::Mod(*self));
                final(interpreter)@ == post && (match r {
                    Ok(()) => e is None,
                    Err(err) => e == Some(err),
                })
            }),
    {
        binary_arithmetic_operation_on_stack(interpreter, BinaryOp::Mod)
    }
}

impl Executable for SwitchStringModeInstruction {
    fn execute(&self, interpreter: &mut Interpreter) -> (r: Result<(), RuntimeError>)
        ensures
            r is Ok,
            final(interpreter)@ == instruction_effect(
                old(interpreter)@,
                Instruction::SwitchStringMode(*self),
            ).0,
    {
        let mode = interpreter.get_mode();
        match mode {
            ReadMode::Normal => interpreter.set_mode(ReadMode::StringLiteral),
            ReadMode::StringLiteral => interpreter.set_mode(ReadMode::Normal),
        }
        Ok(())
    }
}

impl Executable for FinishInstruction {
    fn execute(&self, interpreter: &mut Interpreter) -> (r: Result<(), RuntimeError>)
        ensures
            r is Ok,
            final(interpreter)@ == instruction_effect(
                old(interpreter)@,
                Instruction::Finish(*self),
            ).0,
    {
        interpreter.finish_execution();
        Ok(())
    }
}

impl Executable for BridgeInstruction {
    fn execute(&self, interpreter: &mut Interpreter) -> (r: Result<(), RuntimeError>)
        ensures
            r is Ok,
            final(interpreter)@ == instruction_effect(
                old(interpreter)@,
                Instruction::Bridge(*self),
            ).0,
    {
        interpreter.advance_pointer();
        Ok(())
    }
}

impl Executable for PutIntInstruction {
    fn execute(&self, interpreter: &mut Interpreter) -> (r: Result<(), RuntimeError>)
        ensures
            r is Ok,
            final(interpreter)@ == instruction_effect(
                old(interpreter)@,
                Instruction::PutInt(*self),
            ).0,
    {
        interpreter.stack.push(StackValue::Int(self.0));
        proof {
            assert(interpreter@ =~= instruction_effect(old(interpreter)@, Instruction::PutInt(*self)).0);
        }
        Ok(())
    }
}

impl Executable for PutCharInstruction {
    fn execute(&self, interpreter: &mut Interpreter) -> (r: Result<(), RuntimeError>)
        ensures
            r is Ok,
            final(interpreter)@ == instruction_effect(
                old(interpreter)@,
                Instruction::PutChar(*self),
            ).0,
    {
        interpreter.stack.push(StackValue::Char(self.0));
        proof {
            assert(interpreter@ =~= instruction_effect(old(interpreter)@, Instruction::PutChar(*self)).0);
        }
        Ok(())
    }
}

impl Executable for MoveUpInstruction {
    fn execute(&self, interpreter: &mut Interpreter) -> (r: Result<(), RuntimeError>)
        ensures
            r is Ok,
            final(interpreter)@ == instruction_effect(
                old(interpreter)@,
                Instruction::MoveUp(*self),
            ).0,
    {
        change_pointer_direction(interpreter, Direction::Up);
        Ok(())
    }
}

impl Executable for MoveDownInstruction {
    fn execute(&self, interpreter: &mut Interpreter) -> (r: Result<(), RuntimeError>)
        ensures
            r is Ok,
            final(interpreter)@ == instruction_effect(
                old(interpreter)@,
                Instruction::MoveDown(*self),
            ).0,
    {
        change_pointer_direction(interpreter, Direction::Down);
        Ok(())
    }
}

impl Executable for MoveLeftInstruction {
    fn execute(&self, interpreter: &mut Interpreter) -> (r: Result<(), RuntimeError>)
        ensures
            r is Ok,
            final(interpreter)@ == instruction_effect(
                old(interpreter)@,
                Instruction::MoveLeft(*self),
            ).0,
    {
        change_pointer_direction(interpreter, Direction::Left);
        Ok(())
    }
}

impl Executable for MoveRightInstruction {
    fn execute(&self, interpreter: &mut Interpreter) -> (r: Result<(), RuntimeError>)
        ensures
            r is Ok,
            final(interpreter)@ == instruction_effect(
                old(interpreter)@,
                Instruction::MoveRight(*self),
            ).0,
    {
        change_pointer_direction(interpreter, Direction::Right);
        Ok(())
    }
}

impl Executable for HorizontalIfInstruction {
    fn execute(&self, interpreter: &mut Interpreter) -> (r: Result<(), RuntimeError>)
        ensures
            r is Ok,
            final(interpreter)@ == instruction_effect(
                old(interpreter)@,
                Instruction::HorizontalIf(*self),
            ).0,
    {
        let top = interpreter.stack.remove_value_from_stack();
        let is_truthy: bool = match top {
            StackValue::Int(val) => val != 0,
            StackValue::Char(val) => low_byte_of_char_exec(val) != 0,
            StackValue::Empty => false,
        };
        if is_truthy {
            change_pointer_direction(interpreter, Direction::Left);
        } else {
            change_pointer_direction(interpreter, Direction::Right);
        }
        proof {
            assert(interpreter@ =~= instruction_effect(
                old(interpreter)@,
                Instruction::HorizontalIf(*self),
            ).0);
        }
        Ok(())
    }
}

impl Executable for VerticalIfInstruction {
    fn execute(&self, interpreter: &mut Interpreter) -> (r: Result<(), RuntimeError>)
        ensures
            r is Ok,
            final(interpreter)@ == instruction_effect(
                old(interpreter)@,
                Instruction::VerticalIf(*self),
            ).0,
    {
        let top = interpreter.stack.remove_value_from_stack();
        let is_truthy: bool = match top {
            StackValue::Int(val) => val != 0,
            StackValue::Char(val) => low_byte_of_char_exec(val) != 0,
            StackValue::Empty => false,
        };
        if is_truthy {
            change_pointer_direction(interpreter, Direction::Up);
        } else {
            change_pointer_direction(interpreter, Direction::Down);
        }
        proof {
            assert(interpreter@ =~= instruction_effect(
                old(interpreter)@,
                Instruction::VerticalIf(*self),
            ).0);
        }
        Ok(())
    }
}

impl Executable for DuplicateInstruction {
    fn execute(&self, interpreter: &mut Interpreter) -> (r: Result<(), RuntimeError>)
        ensures
            r is Ok,
            final(interpreter)@ == instruction_effect(
                old(interpreter)@,
                Instruction::Duplicate(*self),
            ).0,
    {
        let top = interpreter.stack.remove_value_from_stack();
        interpreter.stack.push(top);
        interpreter.stack.push(top);
        proof {
            assert(interpreter@ =~= instruction_effect(
                old(interpreter)@,
                Instruction::Duplicate(*self),
            ).0);
        }
        Ok(())
    }
}

impl Executable for PopValueInstruction {
    fn execute(&self, interpreter: &mut Interpreter) -> (r: Result<(), RuntimeError>)
        ensures
            r is Ok,
            final(interpreter)@ == instruction_effect(
                old(interpreter)@,
                Instruction::PopValue(*self),
            ).0,
    {
        interpreter.stack.remove_value_from_stack();
        proof {
            assert(interpreter@ =~= instruction_effect(
                old(interpreter)@,
                Instruction::PopValue(*self),
            ).0);
        }
        Ok(())
    }
}

impl Executable for SwapInstruction {
    fn execute(&self, interpreter: &mut Interpreter) -> (r: Result<(), RuntimeError>)
        ensures
            r is Ok,
            final(interpreter)@ == instruction_effect(
                old(interpreter)@,
                Instruction::Swap(*self),
            ).0,
    {
        let (a, b) = interpreter.stack.get_two_items_from_stack();
        let a = convert_empty_stack_value_to_default_int(a);
        let b = convert_empty_stack_value_to_default_int(b);
        interpreter.stack.push(a);
        interpreter.stack.push(b);
        proof {
            assert(interpreter@ =~= instruction_effect(old(interpreter)@, Instruction::Swap(*self)).0);
        }
        Ok(())
    }
}

impl Executable for PrintCharInstruction {
    fn execute(&self, interpreter: &mut Interpreter) -> (r: Result<(), RuntimeError>)
        ensures
            r is Ok,
            final(interpreter)@ == instruction_effect(
                old(interpreter)@,
                Instruction::PrintChar(*self),
            ).0,
    {
        let top = interpreter.stack.remove_value_from_stack();
        match top {
            StackValue::Int(val) => {
                let b = low_byte_of_int_exec(val);
                interpreter.output.push(b);
            },
            StackValue::Char(val) => {
                let b = low_byte_of_char_exec(val);
                interpreter.output.push(b);
            },
            StackValue::Empty => append_empty_stack_message(&mut interpreter.output),
        }
        proof {
            assert(interpreter@ =~= instruction_effect(
                old(interpreter)@,
                Instruction::PrintChar(*self),
            ).0);
        }
        Ok(())
    }
}

impl Executable for PrintIntInstruction {
    fn execute(&self, interpreter: &mut Interpreter) -> (r: Result<(), RuntimeError>)
        ensures
            r is Ok,
            final(interpreter)@ == instruction_effect(
                old(interpreter)@,
                Instruction::PrintInt(*self),
            ).0,
    {
        let top = interpreter.stack.remove_value_from_stack();
        match top {
            StackValue::Int(val) => {
                let mut text = format_int(val);
                interpreter.output.append(&mut text);
            },
            StackValue::Char(val) => {
                let b = low_byte_of_char_exec(val);
                interpreter.output.push(b);
            },
            StackValue::Empty => append_empty_stack_message(&mut interpreter.output),
        }
        proof {
            assert(interpreter@ =~= instruction_effect(
                old(interpreter)@,
                Instruction::PrintInt(*self),
            ).0);
        }
        Ok(())
    }
}

impl Executable for InputCharInstruction {
    fn execute(&self, interpreter: &mut Interpreter) -> (r: Result<(), RuntimeError>)
        ensures
            ({
                let (post, e) = instruction_effect(old(interpreter)@, Instruction::InputChar(*self));
                final(interpreter)@ == post && (match r {
                    Ok(()) => e is None,
                    Err(err) => e == Some(err),
                })
            }),
    {
        match interpreter.read_input_byte() {
            Some(b) => {
                interpreter.stack.push(StackValue::Char(b as char));
                proof {
                    assert(interpreter@ =~= instruction_effect(
                        old(interpreter)@,
                        Instruction::InputChar(*self),
                    ).0);
                }
                Ok(())
            },
            None => Err(RuntimeError::InputExhausted),
        }
    }
}

impl Executable for InputIntInstruction {
    fn execute(&self, interpreter: &mut Interpreter) -> (r: Result<(), RuntimeError>)
        ensures
            ({
                let (post, e) = instruction_effect(old(interpreter)@, Instruction::InputInt(*self));
                final(interpreter)@ == post && (match r {
                    Ok(()) => e is None,
                    Err(err) => e == Some(err),
                })
            }),
    {
        let line = interpreter.read_input_line();
        match parse_int(&line) {
            Some(value) => {
                interpreter.stack.push(StackValue::Int(value));
                proof {
                    assert(interpreter@ =~= instruction_effect(
                        old(interpreter)@,
                        Instruction::InputInt(*self),
                    ).0);
                }
                Ok(())
            },
            None => Err(RuntimeError::InvalidIntegerInput),
        }
    }
}

/// Executes one resolved instruction against the interpreter's state:
/// the single exhaustive dispatch over the closed instruction set.
pub fn execute_instruction(interpreter: &mut Interpreter, instruction: Instruction) -> (r: Result<
    (),
    RuntimeError,
>)
    requires
        old(interpreter).wf(),
    ensures
        final(interpreter).wf(),
        final(interpreter).space == old(interpreter).space,
        ({
            let (post, e) = instruction_effect(old(interpreter)@, instruction);
            final(interpreter)@ == post && (match r {
                Ok(()) => e is None,
                Err(err) => e == Some(err),
            })
        }),
{
    match instruction {
        Instruction::SwitchStringMode(i) => i.execute(interpreter),
        Instruction::Add(i) => i.execute(interpreter),
        Instruction::Sub(i) => i.execute(interpreter),
        Instruction::Div(i) => i.execute(interpreter),
        Instruction::Mul(i) => i.execute(interpreter),
        Instruction::Mod(i) => i.execute(interpreter),
        Instruction::PrintChar(i) => i.execute(interpreter),
        Instruction::PrintInt(i) => i.execute(interpreter),
        Instruction::Finish(i) => i.execute(interpreter),
        Instruction::PutInt(i) => i.execute(interpreter),
        Instruction::PutChar(i) => i.execute(interpreter),
        Instruction::MoveUp(i) => i.execute(interpreter),
        Instruction::MoveDown(i) => i.execute(interpreter),
        Instruction::MoveLeft(i) => i.execute(interpreter),
        Instruction::MoveRight(i) => i.execute(interpreter),
        Instruction::HorizontalIf(i) => i.execute(interpreter),
        Instruction::VerticalIf(i) => i.execute(interpreter),
        Instruction::Bridge(i) => i.execute(interpreter),
        Instruction::Duplicate(i) => i.execute(interpreter),
        Instruction::InputInt(i) => i.execute(interpreter),
        Instruction::InputChar(i) => i.execute(interpreter),
        Instruction::PopValue(i) => i.execute(interpreter),
        Instruction::Swap(i) => i.execute(interpreter),
    }
}

/// Law: pushing `a` then `b` and adding yields the single value
/// `Int(a + b)` in their place, whenever that sum fits in 32 bits.
pub proof fn lemma_push_push_add(s: Seq<StackValue>, a: i32, b: i32)
    requires
        i32::MIN <= a + b <= i32::MAX,
    ensures
        binary_stack_result(
            BinaryOp::Add,
            s.push(StackValue::Int(a)).push(StackValue::Int(b)),
        ) == s.push(StackValue::Int((a + b) as i32)),
{
    let s2 = s.push(StackValue::Int(a)).push(StackValue::Int(b));
    assert(stack_rest(s2) =~= s.push(StackValue::Int(a)));
    assert(stack_rest(stack_rest(s2)) =~= s);
}

/// Law: pushing `a` then `b` and subtracting yields the single value
/// `Int(a - b)` — the operand pushed earlier is the left-hand side —
/// whenever that difference fits in 32 bits.
pub proof fn lemma_push_push_sub(s: Seq<StackValue>, a: i32, b: i32)
    requires
        i32::MIN <= a - b <= i32::MAX,
    ensures
        binary_stack_result(
            BinaryOp::Sub,
            s.push(StackValue::Int(a)).push(StackValue::Int(b)),
        ) == s.push(StackValue::Int((a - b) as i32)),
{
    let s2 = s.push(StackValue::Int(a)).push(StackValue::Int(b));
    assert(stack_rest(s2) =~= s.push(StackValue::Int(a)));
    assert(stack_rest(stack_rest(s2)) =~= s);
}

/// Law: on an empty stack every binary arithmetic operation other than
/// division and modulo — whose divisor would be zero — pushes `Int(0)`:
/// both missing operands are read as zero.
pub proof fn lemma_binary_op_on_empty_stack(op: BinaryOp)
    requires
        !(op is Div) && !(op is Mod),
    ensures
        binary_stack_result(op, Seq::<StackValue>::empty()) == seq![
            StackValue::Int(apply_binary_op(op, 0, 0)),
        ],
        apply_binary_op(op, 0, 0) == 0,
{
    assert(binary_stack_result(op, Seq::<StackValue>::empty()) =~= seq![
        StackValue::Int(apply_binary_op(op, 0, 0)),
    ]);
}

} // verus!
