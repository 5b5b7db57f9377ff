//! The call stack: a bounded LIFO sequence of 16-bit return addresses.
//! A push on a full stack or a pop on an empty one is a fatal condition;
//! callers test for room first, the stack itself never overflows.
use vstd::prelude::*;

use crate::STACK_DEPTH;

verus! {

pub struct CallStack {
    /// Return addresses, oldest first.
    pub frames: Vec<u16>,
}

impl CallStack {
    /// The depth never exceeds `STACK_DEPTH`.
    pub open spec fn wf(&self) -> bool {
        self.frames@.len() <= STACK_DEPTH
    }

    /// An empty stack.
    pub fn new() -> (stack: CallStack)
        ensures
            stack.wf(),
            stack.frames@ == Seq::<u16>::empty(),
    {
        CallStack { frames: Vec::new() }
    }

    /// Current number of stored return addresses.
    pub fn depth(&self) -> (d: usize)
        ensures
            d == self.frames@.len(),
    {
        self.frames.len()
    }

    /// Whether another push would exceed the bounded depth.
    pub fn is_full(&self) -> (full: bool)
        ensures
            full == (self.frames@.len() == STACK_DEPTH),
    {
        self.frames.len() == STACK_DEPTH
    }

    /// Whether there is no return address to pop.
    pub fn is_empty(&self) -> (empty: bool)
        ensures
            empty == (self.frames@.len() == 0),
    {
        self.frames.len() == 0
    }

    /// Push a return address; the caller has checked for room.
    pub fn push(&mut self, addr: u16)
        requires
            old(self).wf(),
            old(self).frames@.len() < STACK_DEPTH,
        ensures
            final(self).wf(),
            final(self).frames@ == old(self).frames@.push(addr),
    {
        self.frames.push(addr);
    }

    /// Pop the most recent return address; the caller has checked depth.
    pub fn pop(&mut self) -> (addr: u16)
        requires
            old(self).wf(),
            old(self).frames@.len() > 0,
        ensures
            final(self).wf(),
            addr == old(self).frames@.last(),
            final(self).frames@ == old(self).frames@.drop_last(),
    {
        let addr = self.frames.pop().unwrap();
        proof {
            assert(self.frames@ =~= old(self).frames@.drop_last());
        }
        addr
    }
}

} // verus!
