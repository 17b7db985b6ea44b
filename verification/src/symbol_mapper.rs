//! The symbol-to-instruction lookup table, and the mode-aware resolution
//! of a fetched symbol: in string-literal mode every symbol but the
//! delimiter becomes character data.

use vstd::prelude::*;
use crate::instructions::{
    AddInstruction, BridgeInstruction, DivInstruction, DuplicateInstruction, FinishInstruction,
    HorizontalIfInstruction, InputCharInstruction, InputIntInstruction, Instruction,
    ModInstruction, MoveDownInstruction, MoveLeftInstruction, MoveRightInstruction,
    MoveUpInstruction, MulInstruction, PopValueInstruction, PrintCharInstruction,
    PrintIntInstruction, PutCharInstruction, PutIntInstruction, SubInstruction, SwapInstruction,
    SwitchStringModeInstruction, VerticalIfInstruction,
};
use crate::interpreter::ReadMode;

verus! {

/// The lookup table: a pure, total function from a symbol to the
/// instruction it denotes in normal mode, with `None` for every unmapped
/// symbol (a no-op for the interpreter).
pub open spec fn symbol_lookup(symbol: char) -> Option<Instruction> {
    match symbol {
        '+' => Some(Instruction::Add(AddInstruction {})),
        '-' => Some(Instruction::Sub(SubInstruction {})),
        '*' => Some(Instruction::Mul(MulInstruction {})),
        '/' => Some(Instruction::Div(DivInstruction {})),
        '%' => Some(Instruction::Mod(ModInstruction {})),
        '"' => Some(Instruction::SwitchStringMode(SwitchStringModeInstruction {})),
        '@' => Some(Instruction::Finish(FinishInstruction {})),
        '#' => Some(Instruction::Bridge(BridgeInstruction {})),
        '>' => Some(Instruction::MoveRight(MoveRightInstruction {})),
        '<' => Some(Instruction::MoveLeft(MoveLeftInstruction {})),
        '^' => Some(Instruction::MoveUp(MoveUpInstruction {})),
        'v' => Some(Instruction::MoveDown(MoveDownInstruction {})),
        '_' => Some(Instruction::HorizontalIf(HorizontalIfInstruction {})),
        '|' => Some(Instruction::VerticalIf(VerticalIfInstruction {})),
        ':' => Some(Instruction::Duplicate(DuplicateInstruction {})),
        '\\' => Some(Instruction::Swap(SwapInstruction {})),
        '$' => Some(Instruction::PopValue(PopValueInstruction {})),
        '.' => Some(Instruction::PrintInt(PrintIntInstruction {})),
        ',' => Some(Instruction::PrintChar(PrintCharInstruction {})),
        '&' => Some(Instruction::InputInt(InputIntInstruction {})),
        '~' => Some(Instruction::InputChar(InputCharInstruction {})),
        '0' => Some(Instruction::PutInt(PutIntInstruction(0))),
        '1' => Some(Instruction::PutInt(PutIntInstruction(1))),
        '2' => Some(Instruction::PutInt(PutIntInstruction(2))),
        '3' => Some(Instruction::PutInt(PutIntInstruction(3))),
        '4' => Some(Instruction::PutInt(PutIntInstruction(4))),
        '5' => Some(Instruction::PutInt(PutIntInstruction(5))),
        '6' => Some(Instruction::PutInt(PutIntInstruction(6))),
        '7' => Some(Instruction::PutInt(PutIntInstruction(7))),
        '8' => Some(Instruction::PutInt(PutIntInstruction(8))),
        '9' => Some(Instruction::PutInt(PutIntInstruction(9))),
        _ => None,
    }
}

/// How a fetched symbol is turned into an instruction: in string-literal
/// mode the delimiter toggles the mode back and every other symbol is
/// pushed as character data; in normal mode the lookup table decides.
pub open spec fn resolve_symbol(symbol: char, mode: ReadMode) -> Option<Instruction> {
    match mode {
        ReadMode::StringLiteral => if symbol == '"' {
            Some(Instruction::SwitchStringMode(SwitchStringModeInstruction {}))
        } else {
            Some(Instruction::PutChar(PutCharInstruction(symbol)))
        },
        ReadMode::Normal => symbol_lookup(symbol),
    }
}

/// The executable lookup table; it returns exactly what `symbol_lookup`
/// denotes.
pub fn map_symbol_to_instruction(symbol: char) -> (r: Option<Instruction>)
    ensures
        r == symbol_lookup(symbol),
{
    match symbol {
        '+' => Some(Instruction::Add(AddInstruction {})),
        '-' => Some(Instruction::Sub(SubInstruction {})),
        '*' => Some(Instruction::Mul(MulInstruction {})),
        '/' => Some(Instruction::Div(DivInstruction {})),
        '%' => Some(Instruction::Mod(ModInstruction {})),
        '"' => Some(Instruction::SwitchStringMode(SwitchStringModeInstruction {})),
        '@' => Some(Instruction::Finish(FinishInstruction {})),
        '#' => Some(Instruction::Bridge(BridgeInstruction {})),
        '>' => Some(Instruction::MoveRight(MoveRightInstruction {})),
        '<' => Some(Instruction::MoveLeft(MoveLeftInstruction {})),
        '^' => Some(Instruction::MoveUp(MoveUpInstruction {})),
        'v' => Some(Instruction::MoveDown(MoveDownInstruction {})),
        '_' => Some(Instruction::HorizontalIf(HorizontalIfInstruction {})),
        '|' => Some(Instruction::VerticalIf(VerticalIfInstruction {})),
        ':' => Some(Instruction::Duplicate(DuplicateInstruction {})),
        '\\' => Some(Instruction::Swap(SwapInstruction {})),
        '$' => Some(Instruction::PopValue(PopValueInstruction {})),
        '.' => Some(Instruction::PrintInt(PrintIntInstruction {})),
        ',' => Some(Instruction::PrintChar(PrintCharInstruction {})),
        '&' => Some(Instruction::InputInt(InputIntInstruction {})),
        '~' => Some(Instruction::InputChar(InputCharInstruction {})),
        '0' => Some(Instruction::PutInt(PutIntInstruction(0))),
        '1' => Some(Instruction::PutInt(PutIntInstruction(1))),
        '2' => Some(Instruction::PutInt(PutIntInstruction(2))),
        '3' => Some(Instruction::PutInt(PutIntInstruction(3))),
        '4' => Some(Instruction::PutInt(PutIntInstruction(4))),
        '5' => Some(Instruction::PutInt(PutIntInstruction(5))),
        '6' => Some(Instruction::PutInt(PutIntInstruction(6))),
        '7' => Some(Instruction::PutInt(PutIntInstruction(7))),
        '8' => Some(Instruction::PutInt(PutIntInstruction(8))),
        '9' => Some(Instruction::PutInt(PutIntInstruction(9))),
        _ => None,
    }
}

} // verus!
