//! The value stack: a last-in-first-out sequence of tagged values with
//! defined behaviour when popped empty.

use vstd::prelude::*;

verus! {

/// A value held on the stack.  `Empty` only arises as the synthetic result
/// of popping an exhausted stack (or of duplicating such a result); it is
/// treated as the integer zero by every arithmetic operation.
#[derive(Clone, Copy, Debug, PartialEq, Eq)]
pub enum StackValue {
    Empty,
    Int(i32),
    Char(char),
}

/// The integer that arithmetic reads from a stack value: `Empty` counts as
/// zero, a character counts as its codepoint, an integer is itself.
pub open spec fn coerced_int(v: StackValue) -> i32 {
    match v {
        StackValue::Empty => 0,
        StackValue::Int(a) => a,
        StackValue::Char(c) => c as i32,
    }
}

/// The topmost value of a stack picture, `Empty` when there is none.
pub open spec fn stack_top(s: Seq<StackValue>) -> StackValue {
    if s.len() == 0 {
        StackValue::Empty
    } else {
        s.last()
    }
}

/// A stack picture with its topmost value removed; the empty stack is left
/// as it is.
pub open spec fn stack_rest(s: Seq<StackValue>) -> Seq<StackValue> {
    if s.len() == 0 {
        s
    } else {
        s.drop_last()
    }
}

/// The value stack.  Its view is a sequence whose last element is the top.
pub struct Stack {
    values: Vec<StackValue>,
}

impl View for Stack {
    type V = Seq<StackValue>;

    closed spec fn view(&self) -> Seq<StackValue> {
        self.values@
    }
}

impl Stack {
    pub fn new() -> (s: Stack)
        ensures
            s@ == Seq::<StackValue>::empty(),
    {
        Stack { values: Vec::new() }
    }

    pub fn push(&mut self, value: StackValue)
        ensures
            final(self)@ == old(self)@.push(value),
    {
        self.values.push(value);
    }

    /// Pops the top value.  Popping an empty stack never fails: it yields
    /// `Empty` and leaves the stack as it is.
    pub fn remove_value_from_stack(&mut self) -> (r: StackValue)
        ensures
            r == stack_top(old(self)@),
            final(self)@ == stack_rest(old(self)@),
    {
        match self.values.pop() {
            Some(v) => v,
            None => StackValue::Empty,
        }
    }

    /// Pops the two topmost values by two sequential single pops: the first
    /// component is the most recently pushed (top) value, the second the
    /// next one down, with `Empty` standing in for each missing slot.
    pub fn get_two_items_from_stack(&mut self) -> (r: (StackValue, StackValue))
        ensures
            r.0 == stack_top(old(self)@),
            r.1 == stack_top(stack_rest(old(self)@)),
            final(self)@ == stack_rest(stack_rest(old(self)@)),
    {
        let a = self.remove_value_from_stack();
        let b = self.remove_value_from_stack();
        (a, b)
    }

    pub fn depth(&self) -> (n: usize)
        ensures
            n == self@.len(),
    {
        self.values.len()
    }

    /// The value at position `i`, counting from the bottom of the stack.
    pub fn value_at(&self, i: usize) -> (r: StackValue)
        requires
            i < self@.len(),
        ensures
            r == self@[i as int],
    {
        self.values[i]
    }
}

} // verus!
