use cairo_builtins::errors::{MathError, MemoryError};
use cairo_builtins::felt::Felt;
use cairo_builtins::keccak_utils::left_pad_u64;
use cairo_builtins::math_utils::{div_ceil, safe_div_usize};
use cairo_builtins::memory::Memory;
use cairo_builtins::relocatable::{MaybeRelocatable, Relocatable};
use cairo_builtins::segments::MemorySegmentManager;

fn addr(segment_index: isize, offset: usize) -> Relocatable {
    Relocatable { segment_index, offset }
}

fn felt_val(v: u64) -> MaybeRelocatable {
    MaybeRelocatable::Int(Felt::from_u64(v))
}

#[test]
fn memory_insert_then_get_returns_value() {
    let mut memory = Memory::new();
    memory.add_segment();
    memory.insert(addr(0, 3), felt_val(7)).unwrap();
    assert_eq!(memory.get(&addr(0, 3)), Some(felt_val(7)));
    assert_eq!(memory.get(&addr(0, 2)), None);
    assert_eq!(memory.get(&addr(1, 0)), None);
}

#[test]
fn memory_repeated_reads_agree() {
    let mut memory = Memory::new();
    memory.add_segment();
    memory.insert(addr(0, 0), felt_val(11)).unwrap();
    let first = memory.get(&addr(0, 0));
    let second = memory.get(&addr(0, 0));
    assert_eq!(first, second);
    memory.insert(addr(0, 5), felt_val(9)).unwrap();
    assert_eq!(memory.get(&addr(0, 0)), first);
}

#[test]
fn memory_insert_same_value_twice_is_noop() {
    let mut memory = Memory::new();
    memory.add_segment();
    memory.insert(addr(0, 1), felt_val(5)).unwrap();
    assert_eq!(memory.insert(addr(0, 1), felt_val(5)), Ok(()));
    assert_eq!(memory.get(&addr(0, 1)), Some(felt_val(5)));
}

#[test]
fn memory_write_once_violation() {
    let mut memory = Memory::new();
    memory.add_segment();
    memory.insert(addr(0, 0), felt_val(5)).unwrap();
    assert_eq!(
        memory.insert(addr(0, 0), felt_val(6)),
        Err(MemoryError::InconsistentMemory(addr(0, 0), felt_val(5), felt_val(6)))
    );
    assert_eq!(memory.get(&addr(0, 0)), Some(felt_val(5)));
}

#[test]
fn memory_insert_unallocated_segment() {
    let mut memory = Memory::new();
    assert_eq!(
        memory.insert(addr(0, 0), felt_val(1)),
        Err(MemoryError::UnallocatedSegment(addr(0, 0)))
    );
    assert_eq!(
        memory.insert(addr(-1, 0), felt_val(1)),
        Err(MemoryError::UnallocatedSegment(addr(-1, 0)))
    );
}

#[test]
fn memory_get_integer_and_relocatable() {
    let mut memory = Memory::new();
    memory.add_segment();
    memory.add_segment();
    memory.insert(addr(0, 0), felt_val(3)).unwrap();
    memory
        .insert(addr(1, 0), MaybeRelocatable::RelocatableValue(addr(0, 7)))
        .unwrap();
    assert_eq!(memory.get_integer(addr(0, 0)), Ok(Felt::from_u64(3)));
    assert_eq!(
        memory.get_integer(addr(1, 0)),
        Err(MemoryError::ExpectedInteger(addr(1, 0)))
    );
    assert_eq!(memory.get_relocatable(addr(1, 0)), Ok(addr(0, 7)));
    assert_eq!(
        memory.get_relocatable(addr(0, 0)),
        Err(MemoryError::ExpectedRelocatable(addr(0, 0)))
    );
    assert_eq!(
        memory.get_integer(addr(0, 9)),
        Err(MemoryError::ExpectedInteger(addr(0, 9)))
    );
}

#[test]
fn segment_manager_add_counts_up() {
    let mut segments = MemorySegmentManager::new();
    assert_eq!(segments.add(), addr(0, 0));
    assert_eq!(segments.add(), addr(1, 0));
    assert_eq!(segments.num_segments(), 2);
}

#[test]
fn compute_effective_sizes_reads_memory() {
    let mut segments = MemorySegmentManager::new();
    segments.add();
    segments.add();
    segments.add();
    segments.memory.insert(addr(0, 4), felt_val(1)).unwrap();
    segments.memory.insert(addr(2, 0), felt_val(2)).unwrap();
    segments.compute_effective_sizes();
    assert_eq!(segments.segment_used_sizes, Some(vec![5, 0, 1]));
    assert_eq!(segments.get_segment_used_size(0), Some(5));
    assert_eq!(segments.get_segment_size(1), Some(0));
    assert_eq!(segments.get_segment_used_size(3), None);
}

#[test]
fn compute_effective_sizes_twice_is_identical() {
    let mut segments = MemorySegmentManager::new();
    segments.add();
    segments.add();
    segments.memory.insert(addr(1, 2), felt_val(8)).unwrap();
    segments.compute_effective_sizes();
    let first = segments.segment_used_sizes.clone();
    segments.compute_effective_sizes();
    assert_eq!(segments.segment_used_sizes, first);
    segments.memory.insert(addr(0, 9), felt_val(1)).unwrap();
    segments.compute_effective_sizes();
    assert_eq!(segments.segment_used_sizes, first);
}

#[test]
fn relocate_segments_builds_table() {
    let mut segments = MemorySegmentManager::new();
    segments.add();
    segments.add();
    segments.add();
    segments.memory.insert(addr(0, 2), felt_val(1)).unwrap();
    segments.memory.insert(addr(1, 4), felt_val(2)).unwrap();
    segments.memory.insert(addr(2, 0), felt_val(3)).unwrap();
    segments.compute_effective_sizes();
    assert_eq!(segments.relocate_segments(), Ok(vec![1, 4, 9, 10]));
}

#[test]
fn relocate_segments_needs_effective_sizes() {
    let segments = MemorySegmentManager::new();
    assert_eq!(
        segments.relocate_segments(),
        Err(MemoryError::EffectiveSizesNotCalled)
    );
}

#[test]
fn felt_u64_roundtrip_and_limits() {
    assert_eq!(Felt::from_u64(12345).to_u64(), Some(12345));
    assert_eq!(Felt::from_u64(0).to_u64(), Some(0));
    let big = Felt { limb0: 0, limb1: 1, limb2: 0, limb3: 0 };
    assert_eq!(big.to_u64(), None);
}

#[test]
fn felt_ge_pow2_small_bits() {
    assert!(Felt::from_u64(43).ge_pow2(1));
    assert!(Felt::from_u64(43).ge_pow2(5));
    assert!(!Felt::from_u64(43).ge_pow2(6));
    assert!(Felt::from_u64(64).ge_pow2(6));
    assert!(!Felt::from_u64(0).ge_pow2(0));
    assert!(Felt::from_u64(1).ge_pow2(0));
}

#[test]
fn felt_ge_pow2_large_bits() {
    let small = Felt::from_u64(u64::MAX);
    assert!(!small.ge_pow2(64));
    assert!(!small.ge_pow2(200));
    let two_192 = Felt { limb0: 0, limb1: 0, limb2: 0, limb3: 1 };
    assert!(two_192.ge_pow2(192));
    assert!(two_192.ge_pow2(64));
    assert!(!two_192.ge_pow2(193));
    assert!(!two_192.ge_pow2(300));
}

#[test]
fn safe_div_usize_cases() {
    assert_eq!(safe_div_usize(262144, 16), Ok(16384));
    assert_eq!(safe_div_usize(10, 0), Err(MathError::DividedByZero));
    assert_eq!(safe_div_usize(7, 2), Err(MathError::SafeDivFailUsize(7, 2)));
}

#[test]
fn div_ceil_cases() {
    assert_eq!(div_ceil(0, 16), 0);
    assert_eq!(div_ceil(16, 16), 1);
    assert_eq!(div_ceil(17, 16), 2);
    assert_eq!(div_ceil(992, 16), 62);
}

#[test]
fn relocatable_offset_arithmetic() {
    let a = addr(2, 5);
    assert_eq!(a.add_usize(3), Ok(addr(2, 8)));
    assert_eq!(a.sub_usize(5), Ok(addr(2, 0)));
    assert_eq!(a.sub_usize(6), Err(MathError::RelocatableSubNegOffset(a, 6)));
    assert_eq!(
        addr(0, usize::MAX).add_usize(1),
        Err(MathError::RelocatableAddOffsetExceeded(addr(0, usize::MAX), 1))
    );
}

#[test]
fn left_pad_u64_pads_in_front() {
    let v = vec![4, 5, 6];
    assert_eq!(left_pad_u64(&v, 2), vec![0, 0, 4, 5, 6]);
    assert_eq!(left_pad_u64(&v, 0), vec![4, 5, 6]);
    let empty: Vec<u64> = Vec::new();
    assert_eq!(left_pad_u64(&empty, 3), vec![0, 0, 0]);
}
