//! The call stack: a bounded stack of return addresses.

use vstd::prelude::*;
use crate::status::Fault;
use crate::storage::allocate_memory;

verus! {

/// Number of return addresses the stack can hold.
pub const STACK_CAPACITY: usize = 16;

/// The return addresses of the subroutine calls in progress. Its view is the
/// sequence of live return addresses, oldest first; the stack pointer is the
/// length of that sequence.
pub struct CallStack {
    slots: Vec<u16>,
    pointer: usize,
}

impl View for CallStack {
    type V = Seq<u16>;

    closed spec fn view(&self) -> Seq<u16> {
        self.slots@.subrange(0, self.pointer as int)
    }
}

impl CallStack {
    /// The stack has `STACK_CAPACITY` slots and its pointer names one of them or
    /// the end.
    pub closed spec fn laid_out(&self) -> bool {
        self.slots@.len() == STACK_CAPACITY && self.pointer <= STACK_CAPACITY
    }

    /// Every stack is laid out and so never holds more than `STACK_CAPACITY`
    /// return addresses.
    #[verifier::type_invariant]
    pub open spec fn bounded(&self) -> bool {
        self.laid_out() && self@.len() <= STACK_CAPACITY
    }

    /// An empty stack.
    pub fn new() -> (stack: CallStack)
        ensures
            stack@ == Seq::<u16>::empty(),
    {
        CallStack { slots: allocate_memory::<u16>(STACK_CAPACITY), pointer: 0 }
    }

    /// The number of slots, which is always `STACK_CAPACITY`.
    pub fn capacity(&self) -> (capacity: usize)
        ensures
            capacity == STACK_CAPACITY,
    {
        proof {
            use_type_invariant(self);
        }
        self.slots.len()
    }

    /// The stack pointer: the number of return addresses on the stack.
    pub fn pointer(&self) -> (pointer: usize)
        ensures
            pointer == self@.len(),
    {
        proof {
            use_type_invariant(self);
        }
        self.pointer
    }

    /// The return address on top of the stack, if there is one.
    pub fn top(&self) -> (top: Option<u16>)
        ensures
            self@.len() == 0 ==> top == None::<u16>,
            self@.len() > 0 ==> top == Some(self@.last()),
    {
        proof {
            use_type_invariant(self);
        }
        if self.pointer == 0 {
            None
        } else {
            Some(self.slots[self.pointer - 1])
        }
    }

    /// Stores `addr` in the slot the pointer names, then moves the pointer up.
    /// A full stack is left as it was.
    pub fn push(&mut self, addr: u16) -> (result: Result<(), Fault>)
        ensures
            old(self)@.len() < STACK_CAPACITY ==> result.is_ok() && final(self)@ == old(self)@.push(
                addr,
            ),
            old(self)@.len() == STACK_CAPACITY ==> result == Err::<(), Fault>(Fault::StackOverflow)
                && final(self)@ == old(self)@,
    {
        proof {
            use_type_invariant(&*self);
        }
        if self.pointer == STACK_CAPACITY {
            return Err(Fault::StackOverflow);
        }
        self.slots[self.pointer] = addr;
        self.pointer += 1;
        Ok(())
    }

    /// Moves the pointer down, then returns the address in the slot it names.
    /// An empty stack is left as it was.
    pub fn pop(&mut self) -> (result: Result<u16, Fault>)
        ensures
            old(self)@.len() > 0 ==> result == Ok::<u16, Fault>(old(self)@.last()) && final(self)@
                == old(self)@.drop_last(),
            old(self)@.len() == 0 ==> result == Err::<u16, Fault>(Fault::StackUnderflow)
                && final(self)@ == old(self)@,
    {
        proof {
            use_type_invariant(&*self);
        }
        if self.pointer == 0 {
            return Err(Fault::StackUnderflow);
        }
        self.pointer -= 1;
        Ok(self.slots[self.pointer])
    }
}

} // verus!
