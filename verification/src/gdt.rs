//! Interrupt stack table slots of the task state segment.  Building and
//! loading the real segment tables is hardware setup, outside this library.
use vstd::prelude::*;

verus! {

/// The stacks the interrupt stack table reserves.
#[derive(Debug, Clone, Copy, PartialEq, Eq, Structural)]
pub enum Stack {
    DoubleFault,
}

impl Stack {
    /// The stack's interrupt stack table index.
    pub open spec fn index(&self) -> u8 {
        match *self {
            Stack::DoubleFault => 0,
        }
    }

    /// Returns the stack's interrupt stack table index.
    pub fn as_u8(&self) -> (idx: u8)
        ensures
            idx == self.index(),
    {
        match *self {
            Stack::DoubleFault => 0,
        }
    }
}

} // verus!
