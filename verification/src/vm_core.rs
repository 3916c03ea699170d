use vstd::prelude::*;

verus! {

use crate::segments::MemorySegmentManager;

/// The slice of machine state that builtin accounting reads: the memory
/// segments and the number of steps executed so far.
pub struct VirtualMachine {
    pub segments: MemorySegmentManager,
    pub current_step: usize,
}

impl VirtualMachine {
    pub fn new() -> (r: VirtualMachine)
        ensures
            r.segments.memory.num_segments() == 0,
            r.segments.segment_used_sizes is None,
            r.current_step == 0,
    {
        VirtualMachine { segments: MemorySegmentManager::new(), current_step: 0 }
    }
}

} // verus!
