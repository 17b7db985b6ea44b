//! A verified interpreter for a two-dimensional, stack-based esoteric
//! programming language.  A program is a rectangular grid of symbols; a
//! cursor walks the grid with toroidal wraparound, and each visited symbol
//! manipulates a stack of tagged values, redirects the cursor, appends to
//! the output, or halts the run.

pub mod funge_space;
pub mod instructions;
pub mod interpreter;
pub mod numerals;
pub mod pointer;
pub mod stack;
pub mod symbol_mapper;
