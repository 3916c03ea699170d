use vstd::prelude::*;

verus! {

use crate::felt::Felt;
use crate::relocatable::{MaybeRelocatable, Relocatable};

/// Failures of the small arithmetic helpers.
#[derive(Clone, Copy, Debug, PartialEq, Eq)]
pub enum MathError {
    DividedByZero,
    SafeDivFailUsize(usize, usize),
    RelocatableAddOffsetExceeded(Relocatable, usize),
    RelocatableSubNegOffset(Relocatable, usize),
}

/// A builtin's cell budget was violated, or could not be computed.
#[derive(Clone, Copy, Debug, PartialEq, Eq)]
pub enum InsufficientAllocatedCellsError {
    MinStepNotReached(usize, &'static str),
    CurrentStepNotDivisibleByBuiltinRatio(&'static str, usize, usize),
    BuiltinCells(&'static str, usize, usize),
}

/// Failures of the memory and of segment accounting.
#[derive(Clone, Copy, Debug, PartialEq, Eq)]
pub enum MemoryError {
    UnallocatedSegment(Relocatable),
    InconsistentMemory(Relocatable, MaybeRelocatable, MaybeRelocatable),
    ExpectedInteger(Relocatable),
    ExpectedRelocatable(Relocatable),
    MissingSegmentUsedSizes,
    EffectiveSizesNotCalled,
    ErrorCalculatingMemoryUnits,
    InsufficientAllocatedCells(InsufficientAllocatedCellsError),
}

/// Failures of a builtin runner.
#[derive(Clone, Copy, Debug, PartialEq, Eq)]
pub enum RunnerError {
    KeccakInputCellsNotU64,
    IntegerBiggerThanPowerOfTwo(MaybeRelocatable, u32, Felt),
    NoStopPointer(&'static str),
    InvalidStopPointerIndex(&'static str, Relocatable, usize),
    InvalidStopPointer(&'static str, Relocatable, Relocatable),
    Memory(MemoryError),
}

} // verus!
