//! The interpreter: the grid, the cursor, the stack, the read mode, the
//! halt flag and the byte streams, together with the fetch-decode-execute-
//! advance loop.  Its whole behaviour is pinned by a mathematical state
//! model and a step function over it.

use vstd::prelude::*;
use crate::funge_space::FungeSpace;
use crate::instructions::{execute_instruction, instruction_effect, RuntimeError};
use crate::pointer::{Direction, Pointer, moved_coords};
use crate::stack::{Stack, StackValue};
use crate::symbol_mapper::resolve_symbol;

verus! {

/// How a fetched symbol is interpreted: as an instruction, or — between
/// two string delimiters — as character data.
#[derive(Debug, Clone, Copy, PartialEq, Eq, Structural)]
pub enum ReadMode {
    Normal,
    StringLiteral,
}

pub open spec fn toggled_mode(m: ReadMode) -> ReadMode {
    match m {
        ReadMode::Normal => ReadMode::StringLiteral,
        ReadMode::StringLiteral => ReadMode::Normal,
    }
}

/// The mathematical model of a whole interpreter state.
#[verifier::ext_equal]
pub struct StateModel {
    /// The grid rows, indexed as `cells[y][x]`.
    pub cells: Seq<Seq<char>>,
    pub x: int,
    pub y: int,
    pub direction: Direction,
    pub stack: Seq<StackValue>,
    pub mode: ReadMode,
    pub finished: bool,
    /// All input bytes the run may consume, and how many are consumed.
    pub input: Seq<u8>,
    pub input_pos: int,
    /// All bytes written so far.
    pub output: Seq<u8>,
}

pub open spec fn grid_width(s: StateModel) -> int {
    s.cells[0].len() as int
}

pub open spec fn grid_height(s: StateModel) -> int {
    s.cells.len() as int
}

/// The grid is rectangular and non-degenerate, the cursor stands inside
/// it, and the input position lies inside the input.
pub open spec fn wf_state(s: StateModel) -> bool {
    &&& 1 <= grid_height(s) <= i32::MAX
    &&& 1 <= grid_width(s) <= i32::MAX
    &&& forall|i: int| 0 <= i < s.cells.len() ==> (#[trigger] s.cells[i]).len() == grid_width(s)
    &&& 0 <= s.x < grid_width(s)
    &&& 0 <= s.y < grid_height(s)
    &&& 0 <= s.input_pos <= s.input.len()
}

/// The symbol under the cursor.
pub open spec fn current_symbol(s: StateModel) -> char {
    s.cells[s.y][s.x]
}

/// The state after the cursor moves one unit in its direction and wraps
/// toroidally at the grid's bounds.
pub open spec fn advanced(s: StateModel) -> StateModel {
    let (nx, ny) = moved_coords(s.x, s.y, s.direction);
    StateModel { x: nx % grid_width(s), y: ny % grid_height(s), ..s }
}

/// The position of the first line break at or after `pos`, or the input's
/// end when there is none.
pub open spec fn line_end(input: Seq<u8>, pos: int) -> int
    decreases input.len() - pos,
{
    if pos < 0 || pos >= input.len() {
        input.len() as int
    } else if input[pos] == 10 {
        pos
    } else {
        line_end(input, pos + 1)
    }
}

/// The input position after one line is read: past the line break when
/// there is one, at the input's end otherwise.
pub open spec fn after_line(input: Seq<u8>, pos: int) -> int {
    let e = line_end(input, pos);
    if e < input.len() {
        e + 1
    } else {
        e
    }
}

/// The interpreter.  Its fields are the running program's whole state;
/// the view gathers them into a `StateModel`.
pub struct Interpreter {
    pub space: FungeSpace,
    pub pointer: Pointer,
    pub stack: Stack,
    pub mode: ReadMode,
    pub finished: bool,
    pub input: Vec<u8>,
    pub input_pos: usize,
    pub output: Vec<u8>,
}

impl View for Interpreter {
    type V = StateModel;

    open spec fn view(&self) -> StateModel {
        StateModel {
            cells: self.space@,
            x: self.pointer.spec_x() as int,
            y: self.pointer.spec_y() as int,
            direction: self.pointer.spec_direction(),
            stack: self.stack@,
            mode: self.mode,
            finished: self.finished,
            input: self.input@,
            input_pos: self.input_pos as int,
            output: self.output@,
        }
    }
}

impl Interpreter {
    pub open spec fn wf(&self) -> bool {
        &&& self.space.wf()
        &&& wf_state(self@)
    }

    /// A fresh run: cursor on the origin facing right, normal mode, empty
    /// stack, no output, nothing halted, the given bytes as input.
    pub fn new(space: FungeSpace, input: Vec<u8>) -> (interp: Interpreter)
        requires
            space.wf(),
        ensures
            interp.wf(),
            interp@ == (StateModel {
                cells: space@,
                x: 0,
                y: 0,
                direction: Direction::Right,
                stack: Seq::<StackValue>::empty(),
                mode: ReadMode::Normal,
                finished: false,
                input: input@,
                input_pos: 0,
                output: Seq::<u8>::empty(),
            }),
    {
        proof {
            space.lemma_wf_view();
        }
        let interp = Interpreter {
            space,
            pointer: Pointer::new(),
            stack: Stack::new(),
            mode: ReadMode::Normal,
            finished: false,
            input,
            input_pos: 0,
            output: Vec::new(),
        };
        proof {
            assert(interp@ =~= (StateModel {
                cells: interp.space@,
                x: 0,
                y: 0,
                direction: Direction::Right,
                stack: Seq::<StackValue>::empty(),
                mode: ReadMode::Normal,
                finished: false,
                input: interp.input@,
                input_pos: 0,
                output: Seq::<u8>::empty(),
            }));
        }
        interp
    }

    pub fn get_mode(&self) -> (m: ReadMode)
        ensures
            m == self@.mode,
    {
        self.mode
    }

    pub fn set_mode(&mut self, mode: ReadMode)
        ensures
            final(self)@ == (StateModel { mode, ..old(self)@ }),
            final(self).space == old(self).space,
    {
        self.mode = mode;
    }

    /// Raises the termination flag; the loop executes nothing further.
    pub fn finish_execution(&mut self)
        ensures
            final(self)@ == (StateModel { finished: true, ..old(self)@ }),
            final(self).space == old(self).space,
    {
        self.finished = true;
    }

    pub fn is_finished(&self) -> (f: bool)
        ensures
            f == self@.finished,
    {
        self.finished
    }

    pub fn get_output(&self) -> (out: &Vec<u8>)
        ensures
            out@ == self@.output,
    {
        &self.output
    }

    pub fn get_immutable_space(&self) -> (space: &FungeSpace)
        ensures
            space@ == self@.cells,
    {
        &self.space
    }

    /// Moves the cursor one unit in its direction and wraps it into the
    /// grid.
    pub fn advance_pointer(&mut self)
        requires
            old(self).wf(),
        ensures
            final(self).wf(),
            final(self).space == old(self).space,
            final(self)@ == advanced(old(self)@),
    {
        proof {
            self.space.lemma_wf_view();
        }
        self.pointer.current_move();
        self.pointer.wrap_pointer(&self.space);
        proof {
            assert(final(self)@ =~= advanced(old(self)@));
        }
    }

    /// Takes the next input byte, if any is left.
    pub fn read_input_byte(&mut self) -> (r: Option<u8>)
        ensures
            final(self).space == old(self).space,
            ({
                let s = old(self)@;
                if s.input_pos < s.input.len() {
                    r == Some(s.input[s.input_pos])
                        && final(self)@ == (StateModel { input_pos: s.input_pos + 1, ..s })
                } else {
                    r is None && final(self)@ == s
                }
            }),
    {
        if self.input_pos < self.input.len() {
            let b = self.input[self.input_pos];
            self.input_pos = self.input_pos + 1;
            proof {
                assert(final(self)@ =~= (StateModel { input_pos: old(self)@.input_pos + 1, ..old(self)@ }));
            }
            Some(b)
        } else {
            proof {
                assert(final(self)@ =~= old(self)@);
            }
            None
        }
    }

    /// Takes one line from the input: the bytes up to the next line
    /// break, which is consumed but not returned.  At the input's end the
    /// line is empty.
    pub fn read_input_line(&mut self) -> (line: Vec<u8>)
        requires
            old(self)@.input_pos <= old(self)@.input.len(),
        ensures
            final(self).space == old(self).space,
            line@ == old(self)@.input.subrange(
                old(self)@.input_pos,
                line_end(old(self)@.input, old(self)@.input_pos),
            ),
            final(self)@ == (StateModel {
                input_pos: after_line(old(self)@.input, old(self)@.input_pos),
                ..old(self)@
            }),
            final(self)@.input_pos <= final(self)@.input.len(),
    {
        let ghost input = self.input@;
        let ghost pos0 = self.input_pos as int;
        let len = self.input.len();
        let mut line: Vec<u8> = Vec::new();
        let mut i: usize = self.input_pos;
        while i < len && self.input[i] != 10
            invariant
                pos0 <= i <= len,
                len == input.len(),
                input == self.input@,
                0 <= pos0,
                forall|k: int| pos0 <= k < i ==> input[k] != 10,
                line@ == input.subrange(pos0, i as int),
            decreases len - i,
        {
            let b = self.input[i];
            line.push(b);
            proof {
                assert(line@ =~= input.subrange(pos0, i + 1));
            }
            i = i + 1;
        }
        proof {
            lemma_line_end_is(input, pos0, i as int);
        }
        if i < len {
            // consume the line break itself
            self.input_pos = i + 1;
        } else {
            self.input_pos = i;
        }
        proof {
            assert(final(self)@ =~= (StateModel { input_pos: after_line(input, pos0), ..old(self)@ }));
        }
        line
    }
}

/// One step of the state machine: resolve the symbol under the cursor
/// against the mode; execute the resolved instruction, if any; then,
/// unless the run halted or aborted, advance the cursor one wrapped unit.
pub open spec fn spec_step(s: StateModel) -> (StateModel, Option<RuntimeError>) {
    match resolve_symbol(current_symbol(s), s.mode) {
        Option::None => (advanced(s), None),
        Option::Some(ins) => {
            let (t, e) = instruction_effect(s, ins);
            if e is Some {
                (t, e)
            } else if t.finished {
                (t, None)
            } else {
                (advanced(t), None)
            }
        },
    }
}

/// At most `n` steps from `s`: stepping stops early at a halt or at an
/// aborting error.
pub open spec fn run_steps(s: StateModel, n: nat) -> (StateModel, Option<RuntimeError>)
    decreases n,
{
    if n == 0 || s.finished {
        (s, None)
    } else {
        let (t, e) = spec_step(s);
        if e is Some {
            (t, e)
        } else {
            run_steps(t, (n - 1) as nat)
        }
    }
}

/// While no halt and no error has been reached, taking one more step
/// extends the bounded run by exactly one application of `spec_step`.
pub proof fn lemma_run_steps_extend(s: StateModel, n: nat)
    requires
        run_steps(s, n).1 is None,
        !run_steps(s, n).0.finished,
    ensures
        run_steps(s, n + 1) == spec_step(run_steps(s, n).0),
    decreases n,
{
    reveal_with_fuel(run_steps, 2);
    if n == 0 || s.finished {
    } else {
        let (t, e) = spec_step(s);
        lemma_run_steps_extend(t, (n - 1) as nat);
    }
}

/// Once a bounded run has reached a halted state, giving it more fuel
/// changes nothing.
pub proof fn lemma_run_steps_halt_absorbs(s: StateModel, i: nat, m: nat)
    requires
        run_steps(s, i).1 is None,
        run_steps(s, i).0.finished,
        i <= m,
    ensures
        run_steps(s, m) == run_steps(s, i),
    decreases i,
{
    if i == 0 || s.finished {
    } else {
        let (t, e) = spec_step(s);
        lemma_run_steps_halt_absorbs(t, (i - 1) as nat, (m - 1) as nat);
    }
}

/// Once a bounded run hits an aborting error, giving it more fuel
/// changes nothing either: the run ends on that error.
pub proof fn lemma_run_steps_error_absorbs(s: StateModel, i: nat, m: nat)
    requires
        run_steps(s, i).1 is None,
        !run_steps(s, i).0.finished,
        spec_step(run_steps(s, i).0).1 is Some,
        i < m,
    ensures
        run_steps(s, m) == spec_step(run_steps(s, i).0),
    decreases i,
{
    if i == 0 || s.finished {
    } else {
        let (t, e) = spec_step(s);
        lemma_run_steps_error_absorbs(t, (i - 1) as nat, (m - 1) as nat);
    }
}

impl Interpreter {
    /// One fetch-decode-execute-advance step.  The successor state and
    /// the returned error are exactly those of `spec_step`.
    pub fn step(&mut self) -> (r: Result<(), RuntimeError>)
        requires
            old(self).wf(),
            !old(self)@.finished,
        ensures
            final(self).wf(),
            final(self).space == old(self).space,
            final(self)@ == spec_step(old(self)@).0,
            (match r {
                Ok(()) => spec_step(old(self)@).1 is None,
                Err(e) => spec_step(old(self)@).1 == Some(e),
            }),
    {
        proof {
            self.space.lemma_wf_view();
        }
        let resolved = self.pointer.get_current_instruction(&self.space, self.mode);
        match resolved {
            None => {
                self.advance_pointer();
                Ok(())
            },
            Some(instruction) => {
                match execute_instruction(self, instruction) {
                    Err(e) => Err(e),
                    Ok(()) => {
                        if self.finished {
                            Ok(())
                        } else {
                            self.advance_pointer();
                            Ok(())
                        }
                    },
                }
            },
        }
    }

    /// Runs the fetch-decode-execute-advance loop until a halt
    /// instruction fires, an error aborts the run, or `max_steps` steps
    /// have been taken: the state and error are exactly those of
    /// `run_steps`.  The language itself imposes no step limit — a
    /// caller wanting an unbounded run supplies the largest budget —
    /// and `Ok(halted)` reports whether the program reached its halt.
    pub fn run(&mut self, max_steps: u64) -> (r: Result<bool, RuntimeError>)
        requires
            old(self).wf(),
        ensures
            final(self).wf(),
            final(self).space == old(self).space,
            final(self)@ == run_steps(old(self)@, max_steps as nat).0,
            (match r {
                Ok(halted) => run_steps(old(self)@, max_steps as nat).1 is None && halted
                    == final(self)@.finished,
                Err(e) => run_steps(old(self)@, max_steps as nat).1 == Some(e),
            }),
    {
        let ghost s0 = self@;
        let mut i: u64 = 0;
        while i < max_steps
            invariant
                self.wf(),
                self.space == old(self).space,
                s0 == old(self)@,
                0 <= i <= max_steps,
                run_steps(s0, i as nat) == (self@, Option::<RuntimeError>::None),
            decreases max_steps - i,
        {
            if self.finished {
                proof {
                    lemma_run_steps_halt_absorbs(s0, i as nat, max_steps as nat);
                }
                return Ok(true);
            }
            proof {
                lemma_run_steps_extend(s0, i as nat);
                if spec_step(self@).1 is Some {
                    lemma_run_steps_error_absorbs(s0, i as nat, max_steps as nat);
                }
            }
            match self.step() {
                Ok(()) => {},
                Err(e) => {
                    return Err(e);
                },
            }
            i = i + 1;
        }
        let halted = self.is_finished();
        Ok(halted)
    }
}

/// A scan that stopped at `i` on a line break or the input's end has
/// found exactly `line_end`.
proof fn lemma_line_end_is(input: Seq<u8>, pos: int, i: int)
    requires
        0 <= pos <= i <= input.len(),
        forall|k: int| pos <= k < i ==> input[k] != 10,
        i == input.len() || input[i] == 10,
    ensures
        line_end(input, pos) == i,
    decreases i - pos,
{
    if pos < i {
        lemma_line_end_is(input, pos + 1, i);
    }
}

} // verus!
