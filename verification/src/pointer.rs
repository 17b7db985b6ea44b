//! The cursor: a position and a travel direction.  It advances one cell at
//! a time and re-normalizes its coordinates into the grid's bounds with the
//! always-nonnegative (Euclidean) remainder, so leaving one edge re-enters
//! at the opposite one.

use vstd::prelude::*;
use crate::funge_space::FungeSpace;
use crate::instructions::{Instruction, PutCharInstruction, SwitchStringModeInstruction};
use crate::interpreter::ReadMode;
use crate::symbol_mapper::{map_symbol_to_instruction, resolve_symbol};

verus! {

#[derive(Debug, Clone, Copy, PartialEq, Eq, Structural)]
pub enum Direction {
    Up,
    Down,
    Left,
    Right,
}

/// The coordinates reached by one unit step from `(x, y)` in direction `d`,
/// before any wrapping.
pub open spec fn moved_coords(x: int, y: int, d: Direction) -> (int, int) {
    match d {
        Direction::Up => (x, y - 1),
        Direction::Down => (x, y + 1),
        Direction::Left => (x - 1, y),
        Direction::Right => (x + 1, y),
    }
}

#[derive(Debug)]
pub struct Pointer {
    x: i32,
    y: i32,
    direction: Direction,
}

impl Pointer {
    pub closed spec fn spec_x(&self) -> i32 {
        self.x
    }

    pub closed spec fn spec_y(&self) -> i32 {
        self.y
    }

    pub closed spec fn spec_direction(&self) -> Direction {
        self.direction
    }

    /// A fresh cursor stands on the origin cell and travels right.
    pub fn new() -> (p: Pointer)
        ensures
            p.spec_x() == 0,
            p.spec_y() == 0,
            p.spec_direction() == Direction::Right,
    {
        Pointer { x: 0, y: 0, direction: Direction::Right }
    }

    #[verifier::when_used_as_spec(spec_x)]
    pub fn get_x(&self) -> (x: i32)
        ensures
            x == self.spec_x(),
    {
        self.x
    }

    #[verifier::when_used_as_spec(spec_y)]
    pub fn get_y(&self) -> (y: i32)
        ensures
            y == self.spec_y(),
    {
        self.y
    }

    #[verifier::when_used_as_spec(spec_direction)]
    pub fn get_direction(&self) -> (d: Direction)
        ensures
            d == self.spec_direction(),
    {
        self.direction
    }

    /// The symbol under the cursor; the coordinates must already lie
    /// inside the grid.
    pub fn get_current_symbol(&self, space: &FungeSpace) -> (c: char)
        requires
            space.wf(),
            0 <= self.spec_x() < space.spec_width(),
            0 <= self.spec_y() < space.spec_height(),
        ensures
            c == space@[self.spec_y() as int][self.spec_x() as int],
    {
        space.get_symbol_at(self.x as usize, self.y as usize)
    }

    pub fn move_vertically(&mut self, steps: i32)
        requires
            i32::MIN <= old(self).spec_y() + steps <= i32::MAX,
        ensures
            final(self).spec_y() == old(self).spec_y() + steps,
            final(self).spec_x() == old(self).spec_x(),
            final(self).spec_direction() == old(self).spec_direction(),
    {
        self.y = self.y + steps;
    }

    pub fn move_horizontally(&mut self, steps: i32)
        requires
            i32::MIN <= old(self).spec_x() + steps <= i32::MAX,
        ensures
            final(self).spec_x() == old(self).spec_x() + steps,
            final(self).spec_y() == old(self).spec_y(),
            final(self).spec_direction() == old(self).spec_direction(),
    {
        self.x = self.x + steps;
    }

    /// Re-normalizes both coordinates into the grid's bounds with the
    /// Euclidean remainder, so negative overshoot wraps to the far edge.
    pub fn wrap_pointer(&mut self, space: &FungeSpace)
        requires
            space.wf(),
        ensures
            final(self).spec_x() == old(self).spec_x() as int % space.spec_width() as int,
            final(self).spec_y() == old(self).spec_y() as int % space.spec_height() as int,
            0 <= final(self).spec_x() < space.spec_width(),
            0 <= final(self).spec_y() < space.spec_height(),
            final(self).spec_direction() == old(self).spec_direction(),
    {
        proof {
            space.lemma_wf_view();
        }
        let h = space.height() as i32;
        let w = space.width() as i32;
        self.y = match self.y.checked_rem_euclid(h) {
            Some(r) => r,
            None => 0,
        };
        self.x = match self.x.checked_rem_euclid(w) {
            Some(r) => r,
            None => 0,
        };
    }

    /// Changes only the travel direction; the position is untouched until
    /// the next move.
    pub fn change_direction(&mut self, direction: Direction)
        ensures
            final(self).spec_direction() == direction,
            final(self).spec_x() == old(self).spec_x(),
            final(self).spec_y() == old(self).spec_y(),
    {
        self.direction = direction;
    }

    /// Moves one unit in the current direction, without wrapping.
    pub fn current_move(&mut self)
        requires
            i32::MIN < old(self).spec_x() < i32::MAX,
            i32::MIN < old(self).spec_y() < i32::MAX,
        ensures
            (final(self).spec_x() as int, final(self).spec_y() as int) == moved_coords(
                old(self).spec_x() as int,
                old(self).spec_y() as int,
                old(self).spec_direction(),
            ),
            final(self).spec_direction() == old(self).spec_direction(),
    {
        match self.direction {
            Direction::Up => self.move_up(),
            Direction::Down => self.move_down(),
            Direction::Left => self.move_left(),
            Direction::Right => self.move_right(),
        }
    }

    pub fn move_up(&mut self)
        requires
            i32::MIN < old(self).spec_y(),
        ensures
            final(self).spec_y() == old(self).spec_y() - 1,
            final(self).spec_x() == old(self).spec_x(),
            final(self).spec_direction() == old(self).spec_direction(),
    {
        self.move_vertically(-1);
    }

    pub fn move_down(&mut self)
        requires
            old(self).spec_y() < i32::MAX,
        ensures
            final(self).spec_y() == old(self).spec_y() + 1,
            final(self).spec_x() == old(self).spec_x(),
            final(self).spec_direction() == old(self).spec_direction(),
    {
        self.move_vertically(1);
    }

    pub fn move_left(&mut self)
        requires
            i32::MIN < old(self).spec_x(),
        ensures
            final(self).spec_x() == old(self).spec_x() - 1,
            final(self).spec_y() == old(self).spec_y(),
            final(self).spec_direction() == old(self).spec_direction(),
    {
        self.move_horizontally(-1);
    }

    pub fn move_right(&mut self)
        requires
            old(self).spec_x() < i32::MAX,
        ensures
            final(self).spec_x() == old(self).spec_x() + 1,
            final(self).spec_y() == old(self).spec_y(),
            final(self).spec_direction() == old(self).spec_direction(),
    {
        self.move_horizontally(1);
    }

    /// Resolves the symbol under the cursor against the current read
    /// mode: in string-literal mode the delimiter toggles the mode back
    /// and everything else is pushed as character data; in normal mode
    /// the lookup table decides, with `None` for an unmapped symbol.
    pub fn get_current_instruction(&self, space: &FungeSpace, mode: ReadMode) -> (r: Option<
        Instruction,
    >)
        requires
            space.wf(),
            0 <= self.spec_x() < space.spec_width(),
            0 <= self.spec_y() < space.spec_height(),
        ensures
            r == resolve_symbol(space@[self.spec_y() as int][self.spec_x() as int], mode),
    {
        let current_symbol = self.get_current_symbol(space);
        match mode {
            ReadMode::StringLiteral => {
                if current_symbol == '"' {
                    Some(Instruction::SwitchStringMode(SwitchStringModeInstruction {}))
                } else {
                    Some(Instruction::PutChar(PutCharInstruction(current_symbol)))
                }
            },
            ReadMode::Normal => map_symbol_to_instruction(current_symbol),
        }
    }
}

} // verus!
