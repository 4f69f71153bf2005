use vstd::prelude::*;

use crate::errors::Chip8Error;

verus! {

/// The call stack: a LIFO sequence of return addresses, of unbounded depth.
pub struct Stack {
    stack_vec: Vec<u16>,
}

impl View for Stack {
    type V = Seq<u16>;

    /// The addresses on the stack, the most recently pushed last.
    closed spec fn view(&self) -> Seq<u16> {
        self.stack_vec@
    }
}

impl Stack {
    pub fn new() -> (s: Stack)
        ensures
            s@ == Seq::<u16>::empty(),
    {
        Stack { stack_vec: Vec::new() }
    }

    pub fn push(&mut self, value: u16)
        ensures
            final(self)@ == old(self)@.push(value),
    {
        self.stack_vec.push(value);
    }

    /// Removes and returns the most recently pushed address; fails on an empty stack.
    pub fn pop(&mut self) -> (r: Result<u16, Chip8Error>)
        ensures
            old(self)@.len() == 0 ==> r == Err::<u16, Chip8Error>(Chip8Error::TriedPoppingEmptyStack)
                && final(self)@ == old(self)@,
            old(self)@.len() > 0 ==> r == Ok::<u16, Chip8Error>(old(self)@.last())
                && final(self)@ == old(self)@.drop_last(),
    {
        match self.stack_vec.pop() {
            Some(value) => Ok(value),
            None => Err(Chip8Error::TriedPoppingEmptyStack),
        }
    }

    /// The depth of the stack, truncated to a byte.
    pub fn get_sp(&self) -> (r: u8)
        ensures
            r == self@.len() as u8,
    {
        self.stack_vec.len() as u8
    }
}

} // verus!
