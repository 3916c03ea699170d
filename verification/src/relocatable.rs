use vstd::prelude::*;

verus! {

use crate::errors::MathError;
use crate::felt::Felt;

/// A symbolic address: a segment index and an offset within that segment.
#[derive(Clone, Copy, Debug, PartialEq, Eq, Structural, Hash)]
pub struct Relocatable {
    pub segment_index: isize,
    pub offset: usize,
}

/// A memory value: either a field element or a relocatable address.
#[derive(Clone, Copy, Debug, PartialEq, Eq, Structural, Hash)]
pub enum MaybeRelocatable {
    RelocatableValue(Relocatable),
    Int(Felt),
}

impl Relocatable {
    /// The address `off` cells further into the same segment.
    pub fn add_usize(self, off: usize) -> (r: Result<Relocatable, MathError>)
        ensures
            match r {
                Ok(a) => self.offset + off <= usize::MAX && a == (Relocatable {
                    segment_index: self.segment_index,
                    offset: (self.offset + off) as usize,
                }),
                Err(e) => self.offset + off > usize::MAX && e
                    == MathError::RelocatableAddOffsetExceeded(self, off),
            },
    {
        match self.offset.checked_add(off) {
            Some(o) => Ok(Relocatable { segment_index: self.segment_index, offset: o }),
            None => Err(MathError::RelocatableAddOffsetExceeded(self, off)),
        }
    }

    /// The address `off` cells back in the same segment.
    pub fn sub_usize(self, off: usize) -> (r: Result<Relocatable, MathError>)
        ensures
            match r {
                Ok(a) => off <= self.offset && a == (Relocatable {
                    segment_index: self.segment_index,
                    offset: (self.offset - off) as usize,
                }),
                Err(e) => off > self.offset && e == MathError::RelocatableSubNegOffset(self, off),
            },
    {
        match self.offset.checked_sub(off) {
            Some(o) => Ok(Relocatable { segment_index: self.segment_index, offset: o }),
            None => Err(MathError::RelocatableSubNegOffset(self, off)),
        }
    }
}

} // verus!
