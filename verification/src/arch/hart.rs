//! The state that decoded instructions act on.
//!
//! The decoder neither reads nor writes it: an execution engine owns it and
//! keeps its invariant.

use vstd::prelude::*;

verus! {

/// The registers of one hart: 32 general-purpose registers and the program
/// counter.
pub struct Core {
    pub reg: [u32; 32],
    pub pc: u32,
}

impl Core {
    /// Register 0 is hard-wired to zero.
    pub open spec fn wf(&self) -> bool {
        self.reg[0] == 0
    }
}

} // verus!
