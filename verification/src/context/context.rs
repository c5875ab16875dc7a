use vstd::prelude::*;
use crate::memory::memory::Memory;
use crate::time::duration::Duration;

verus! {

/// What a component works with during a step: the memory it reaches and the time that passed.
pub struct Context<'a, M: Memory> {
    pub memory: &'a mut M,
    pub delta: Duration,
}

impl<'a, M: Memory> Context<'a, M> {
    /// A context over `memory` in which no time has passed.
    pub fn new(memory: &'a mut M) -> (r: Context<'a, M>)
        ensures
            r.delta.nanoseconds == 0,
            *r.memory == *old(memory),
            *final(memory) == *final(r.memory),
    {
        Context { memory, delta: Duration::new() }
    }
}

} // verus!
