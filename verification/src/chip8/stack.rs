//! The call stack: return addresses of up to 16 nested subroutine calls.

use vstd::prelude::*;

verus! {

/// The number of nesting levels the stack holds.
pub const STACK_SIZE: usize = 16;

/// An error of a stack operation.
#[derive(Debug, Clone, Copy, PartialEq, Eq, Structural)]
#[non_exhaustive]
pub enum StackError {
    /// A push onto a full stack.
    Overflow,
    /// A pop from an empty stack.
    Underflow,
}

impl StackError {
    /// The human-readable message of the error.
    pub fn message(&self) -> (r: &'static str)
        ensures
            *self == StackError::Overflow ==> r@ == "Stack overflow"@,
            *self == StackError::Underflow ==> r@ == "Stack underflow"@,
    {
        match self {
            StackError::Overflow => "Stack overflow",
            StackError::Underflow => "Stack underflow",
        }
    }
}

/// The stack and its stack pointer.
#[derive(Debug)]
pub struct Stack {
    entries: [u16; STACK_SIZE],
    pointer: usize,
}

impl View for Stack {
    type V = Seq<u16>;

    /// The live entries, bottom first; the last one is the top of the stack.
    closed spec fn view(&self) -> Seq<u16> {
        self.entries@.take(self.pointer as int)
    }
}

impl Stack {
    #[verifier::type_invariant]
    closed spec fn inv(self) -> bool {
        self.pointer <= STACK_SIZE
    }

    /// Creates an empty stack.
    pub fn new() -> (r: Stack)
        ensures
            r@ == Seq::<u16>::empty(),
    {
        let r = Stack { entries: [0; STACK_SIZE], pointer: 0 };
        assert(r@ =~= Seq::<u16>::empty());
        r
    }

    /// The number of live entries.
    pub fn depth(&self) -> (r: usize)
        ensures
            r == self@.len(),
            r <= STACK_SIZE,
    {
        proof {
            use_type_invariant(self);
        }
        self.pointer
    }

    /// Pushes `value`; fails with `Overflow`, leaving the stack as it was, when it is full.
    pub fn push(&mut self, value: u16) -> (r: Result<(), StackError>)
        ensures
            old(self)@.len() < STACK_SIZE ==> r == Ok::<(), StackError>(())
                && final(self)@ == old(self)@.push(value),
            old(self)@.len() >= STACK_SIZE ==> r == Err::<(), StackError>(StackError::Overflow)
                && final(self)@ == old(self)@,
    {
        proof {
            use_type_invariant(&*self);
        }
        if self.pointer >= STACK_SIZE {
            return Err(StackError::Overflow);
        }
        let ghost before = self@;
        self.entries[self.pointer] = value;
        self.pointer = self.pointer + 1;
        assert(self@ =~= before.push(value));
        Ok(())
    }

    /// Pops the top entry; fails with `Underflow`, leaving the stack as it was, when it is empty.
    pub fn pop(&mut self) -> (r: Result<u16, StackError>)
        ensures
            old(self)@.len() > 0 ==> r == Ok::<u16, StackError>(old(self)@.last())
                && final(self)@ == old(self)@.drop_last(),
            old(self)@.len() == 0 ==> r == Err::<u16, StackError>(StackError::Underflow)
                && final(self)@ == old(self)@,
    {
        proof {
            use_type_invariant(&*self);
        }
        if self.pointer == 0 {
            return Err(StackError::Underflow);
        }
        let ghost before = self@;
        self.pointer = self.pointer - 1;
        assert(self@ =~= before.drop_last());
        Ok(self.entries[self.pointer])
    }
}

impl Default for Stack {
    fn default() -> (r: Stack)
        ensures
            r@ == Seq::<u16>::empty(),
    {
        Stack::new()
    }
}

} // verus!
