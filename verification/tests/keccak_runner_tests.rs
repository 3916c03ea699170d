use cairo_builtins::errors::{InsufficientAllocatedCellsError, MemoryError, RunnerError};
use cairo_builtins::felt::Felt;
use cairo_builtins::instance_definitions::KeccakInstanceDef;
use cairo_builtins::keccak_runner::{KeccakBuiltinRunner, KECCAK_BUILTIN_NAME};
use cairo_builtins::memory::Memory;
use cairo_builtins::relocatable::{MaybeRelocatable, Relocatable};
use cairo_builtins::segments::MemorySegmentManager;
use cairo_builtins::vm_core::VirtualMachine;

fn rel(segment_index: isize, offset: usize) -> Relocatable {
    Relocatable { segment_index, offset }
}

fn int_val(v: u64) -> MaybeRelocatable {
    MaybeRelocatable::Int(Felt::from_u64(v))
}

fn rel_val(segment_index: isize, offset: usize) -> MaybeRelocatable {
    MaybeRelocatable::RelocatableValue(rel(segment_index, offset))
}

fn memory_with(cells: &[((isize, usize), MaybeRelocatable)]) -> Memory {
    let mut memory = Memory::new();
    let mut segments_needed: isize = 0;
    for ((s, _), _) in cells {
        if *s + 1 > segments_needed {
            segments_needed = *s + 1;
        }
    }
    let mut added: isize = 0;
    while added < segments_needed {
        memory.add_segment();
        added += 1;
    }
    for ((s, o), v) in cells {
        memory.insert(rel(*s, *o), *v).unwrap();
    }
    memory
}

fn segments_with(cells: &[((isize, usize), MaybeRelocatable)]) -> MemorySegmentManager {
    MemorySegmentManager { memory: memory_with(cells), segment_used_sizes: None }
}

#[test]
fn get_used_instances() {
    let builtin = KeccakBuiltinRunner::new(&KeccakInstanceDef::new(10, vec![200; 8]), true);

    let mut vm = VirtualMachine::new();
    vm.segments.segment_used_sizes = Some(vec![1]);

    assert_eq!(builtin.get_used_instances(&vm.segments), Ok(1));
}

#[test]
fn final_stack() {
    let mut builtin = KeccakBuiltinRunner::new(&KeccakInstanceDef::new(10, vec![200; 8]), true);

    let mut vm = VirtualMachine::new();

    vm.segments = segments_with(&[
        ((0, 0), rel_val(0, 0)),
        ((0, 1), rel_val(0, 1)),
        ((2, 0), rel_val(0, 0)),
        ((2, 1), rel_val(0, 0)),
    ]);

    vm.segments.segment_used_sizes = Some(vec![0]);

    let pointer = rel(2, 2);

    assert_eq!(builtin.final_stack(&vm.segments, pointer).unwrap(), rel(2, 1));
}

#[test]
fn final_stack_error_stop_pointer() {
    let mut builtin = KeccakBuiltinRunner::new(&KeccakInstanceDef::new(10, vec![200; 8]), true);

    let mut vm = VirtualMachine::new();

    vm.segments = segments_with(&[
        ((0, 0), rel_val(0, 0)),
        ((0, 1), rel_val(0, 1)),
        ((2, 0), rel_val(0, 0)),
        ((2, 1), rel_val(0, 0)),
    ]);

    vm.segments.segment_used_sizes = Some(vec![992]);

    let pointer = rel(2, 2);
    assert_eq!(
        builtin.final_stack(&vm.segments, pointer),
        Err(RunnerError::InvalidStopPointer(
            KECCAK_BUILTIN_NAME,
            rel(0, 992),
            rel(0, 0)
        ))
    );
}

#[test]
fn final_stack_error_when_not_included() {
    let mut builtin = KeccakBuiltinRunner::new(&KeccakInstanceDef::new(10, vec![200; 8]), false);

    let mut vm = VirtualMachine::new();

    vm.segments = segments_with(&[
        ((0, 0), rel_val(0, 0)),
        ((0, 1), rel_val(0, 1)),
        ((2, 0), rel_val(0, 0)),
        ((2, 1), rel_val(0, 0)),
    ]);

    vm.segments.segment_used_sizes = Some(vec![0]);

    let pointer = rel(2, 2);

    assert_eq!(builtin.final_stack(&vm.segments, pointer).unwrap(), rel(2, 2));
}

#[test]
fn final_stack_error_non_relocatable() {
    let mut builtin = KeccakBuiltinRunner::new(&KeccakInstanceDef::new(10, vec![200; 8]), true);

    let mut vm = VirtualMachine::new();

    vm.segments = segments_with(&[
        ((0, 0), rel_val(0, 0)),
        ((0, 1), rel_val(0, 1)),
        ((2, 0), rel_val(0, 0)),
        ((2, 1), int_val(2)),
    ]);

    vm.segments.segment_used_sizes = Some(vec![0]);

    let pointer = rel(2, 2);

    assert_eq!(
        builtin.final_stack(&vm.segments, pointer),
        Err(RunnerError::NoStopPointer(KECCAK_BUILTIN_NAME))
    );
}

#[test]
fn get_allocated_memory_units() {
    let builtin = KeccakBuiltinRunner::new(&KeccakInstanceDef::new(10, vec![200; 8]), true);

    let mut vm = VirtualMachine::new();
    vm.current_step = 10;

    assert_eq!(builtin.get_allocated_memory_units(&vm), Ok(16));
}

#[test]
fn get_memory_segment_addresses() {
    let builtin = KeccakBuiltinRunner::new(&KeccakInstanceDef::default(), true);

    assert_eq!(builtin.get_memory_segment_addresses(), (0, None));
}

#[test]
fn get_memory_accesses_missing_segment_used_sizes() {
    let builtin = KeccakBuiltinRunner::new(&KeccakInstanceDef::default(), true);
    let vm = VirtualMachine::new();

    assert_eq!(
        builtin.get_memory_accesses(&vm),
        Err(MemoryError::MissingSegmentUsedSizes),
    );
}

#[test]
fn get_memory_accesses_empty() {
    let builtin = KeccakBuiltinRunner::new(&KeccakInstanceDef::default(), true);
    let mut vm = VirtualMachine::new();

    vm.segments.segment_used_sizes = Some(vec![0]);
    assert_eq!(builtin.get_memory_accesses(&vm), Ok(vec![]));
}

#[test]
fn get_memory_accesses() {
    let builtin = KeccakBuiltinRunner::new(&KeccakInstanceDef::default(), true);
    let mut vm = VirtualMachine::new();

    vm.segments.segment_used_sizes = Some(vec![4]);
    assert_eq!(
        builtin.get_memory_accesses(&vm),
        Ok(vec![
            rel(builtin.base() as isize, 0),
            rel(builtin.base() as isize, 1),
            rel(builtin.base() as isize, 2),
            rel(builtin.base() as isize, 3),
        ]),
    );
}

#[test]
fn get_used_cells_missing_segment_used_sizes() {
    let builtin = KeccakBuiltinRunner::new(&KeccakInstanceDef::default(), true);
    let vm = VirtualMachine::new();

    assert_eq!(
        builtin.get_used_cells(&vm.segments),
        Err(MemoryError::MissingSegmentUsedSizes)
    );
}

#[test]
fn get_used_cells_empty() {
    let builtin = KeccakBuiltinRunner::new(&KeccakInstanceDef::default(), true);
    let mut vm = VirtualMachine::new();

    vm.segments.segment_used_sizes = Some(vec![0]);
    assert_eq!(builtin.get_used_cells(&vm.segments), Ok(0));
}

#[test]
fn get_used_cells() {
    let builtin = KeccakBuiltinRunner::new(&KeccakInstanceDef::default(), true);
    let mut vm = VirtualMachine::new();

    vm.segments.segment_used_sizes = Some(vec![4]);
    assert_eq!(builtin.get_used_cells(&vm.segments), Ok(4));
}

#[test]
fn initial_stackincluded_test() {
    let keccak_builtin = KeccakBuiltinRunner::new(&KeccakInstanceDef::default(), true);
    assert_eq!(keccak_builtin.initial_stack(), vec![rel_val(0, 0)])
}

#[test]
fn initial_stack_notincluded_test() {
    let keccak_builtin = KeccakBuiltinRunner::new(&KeccakInstanceDef::default(), false);
    assert_eq!(keccak_builtin.initial_stack(), Vec::new())
}

#[test]
fn deduce_memory_cell_memory_valid() {
    let memory = memory_with(&[
        ((0, 16), int_val(43)),
        ((0, 17), int_val(199)),
        ((0, 18), int_val(0)),
        ((0, 19), int_val(0)),
        ((0, 20), int_val(0)),
        ((0, 21), int_val(0)),
        ((0, 22), int_val(0)),
        ((0, 23), int_val(1)),
        ((0, 24), int_val(0)),
        ((0, 25), int_val(0)),
        ((0, 26), int_val(43)),
        ((0, 27), int_val(199)),
        ((0, 28), int_val(0)),
        ((0, 29), int_val(0)),
        ((0, 30), int_val(0)),
        ((0, 31), int_val(0)),
        ((0, 32), int_val(0)),
        ((0, 33), int_val(1)),
        ((0, 34), int_val(0)),
        ((0, 35), int_val(0)),
    ]);
    let builtin = KeccakBuiltinRunner::new(&KeccakInstanceDef::default(), true);

    let result = builtin.deduce_memory_cell(rel(0, 25), &memory);
    assert_eq!(result, Ok(Some(int_val(3086936446498698982_u64))));
}

#[test]
fn deduce_memory_cell_non_reloc_address_err() {
    let memory = memory_with(&[
        ((0, 4), int_val(32)),
        ((0, 5), int_val(72)),
        ((0, 6), int_val(0)),
        ((0, 7), int_val(120)),
        ((0, 8), int_val(52)),
    ]);
    let builtin = KeccakBuiltinRunner::new(&KeccakInstanceDef::default(), true);
    let result = builtin.deduce_memory_cell(rel(0, 1), &memory);
    assert_eq!(result, Ok(None));
}

#[test]
fn deduce_memory_cell_offset_lt_input_cell_length_none() {
    let memory = memory_with(&[((0, 4), int_val(32))]);
    let builtin = KeccakBuiltinRunner::new(&KeccakInstanceDef::default(), true);
    let result = builtin.deduce_memory_cell(rel(0, 2), &memory);
    assert_eq!(result, Ok(None));
}

#[test]
fn deduce_memory_cell_offset_first_addr_error() {
    let memory = memory_with(&[
        ((0, 16), int_val(43)),
        ((0, 17), int_val(199)),
        ((0, 18), int_val(0)),
        ((0, 19), int_val(0)),
        ((0, 20), int_val(0)),
        ((0, 21), int_val(0)),
        ((0, 22), int_val(0)),
        ((0, 23), int_val(1)),
        ((0, 24), int_val(0)),
        ((0, 25), int_val(0)),
        ((0, 26), int_val(43)),
        ((0, 27), int_val(199)),
        ((0, 28), int_val(0)),
        ((0, 29), int_val(0)),
        ((0, 30), int_val(0)),
        ((0, 31), int_val(0)),
        ((0, 32), int_val(0)),
        ((0, 33), int_val(1)),
        ((0, 34), int_val(0)),
        ((0, 35), int_val(0)),
    ]);

    let mut builtin = KeccakBuiltinRunner::new(&KeccakInstanceDef::default(), true);

    builtin.verified_addresses.push(rel(0, 16));

    let result = builtin.deduce_memory_cell(rel(0, 25), &memory);
    assert_eq!(result, Ok(None));
}

#[test]
fn deduce_memory_cell_expected_integer() {
    let memory = memory_with(&[((0, 0), rel_val(1, 2))]);

    let mut builtin = KeccakBuiltinRunner::new(&KeccakInstanceDef::default(), true);

    builtin.n_input_cells = 0;
    builtin.cells_per_instance = 100;

    let result = builtin.deduce_memory_cell(rel(0, 99), &memory);

    assert_eq!(
        result,
        Err(RunnerError::Memory(MemoryError::ExpectedInteger(rel(0, 0))))
    );
}

#[test]
fn deduce_memory_cell_get_memory_err() {
    let memory = memory_with(&[((0, 35), int_val(0))]);

    let builtin = KeccakBuiltinRunner::new(&KeccakInstanceDef::default(), true);

    let result = builtin.deduce_memory_cell(rel(0, 15), &memory);

    assert_eq!(result, Ok(None));
}

#[test]
fn deduce_memory_cell_memory_int_larger_than_bits() {
    let memory = memory_with(&[
        ((0, 16), int_val(43)),
        ((0, 17), int_val(199)),
        ((0, 18), int_val(0)),
        ((0, 19), int_val(0)),
        ((0, 20), int_val(0)),
        ((0, 21), int_val(0)),
        ((0, 22), int_val(0)),
        ((0, 23), int_val(1)),
        ((0, 24), int_val(0)),
        ((0, 25), int_val(0)),
        ((0, 26), int_val(43)),
        ((0, 27), int_val(199)),
        ((0, 28), int_val(0)),
        ((0, 29), int_val(0)),
        ((0, 30), int_val(0)),
        ((0, 31), int_val(0)),
        ((0, 32), int_val(0)),
        ((0, 33), int_val(1)),
        ((0, 34), int_val(0)),
        ((0, 35), int_val(0)),
    ]);

    let keccak_instance = KeccakInstanceDef::new(2048, vec![1; 8]);
    let builtin = KeccakBuiltinRunner::new(&keccak_instance, true);

    let result = builtin.deduce_memory_cell(rel(0, 25), &memory);

    assert_eq!(
        result,
        Err(RunnerError::IntegerBiggerThanPowerOfTwo(
            rel_val(0, 16),
            1,
            Felt::from_u64(43)
        ))
    );
}

#[test]
fn get_used_diluted_check_units_result() {
    let builtin = KeccakBuiltinRunner::new(&KeccakInstanceDef::default(), true);

    let result: usize = builtin.get_used_diluted_check_units(16);

    assert_eq!(result, 16384);
}

#[test]
fn get_used_diluted_check_units_remainder_or_zero_bits() {
    let builtin = KeccakBuiltinRunner::new(&KeccakInstanceDef::default(), true);

    assert_eq!(builtin.get_used_diluted_check_units(0), 0);
    assert_eq!(builtin.get_used_diluted_check_units(5), 0);
}

#[test]
fn get_allocated_memory_units_step_not_divisible() {
    let builtin = KeccakBuiltinRunner::new(&KeccakInstanceDef::new(10, vec![200; 8]), true);

    let mut vm = VirtualMachine::new();
    vm.current_step = 7;

    assert_eq!(
        builtin.get_allocated_memory_units(&vm),
        Err(MemoryError::ErrorCalculatingMemoryUnits)
    );
}

#[test]
fn get_used_cells_and_allocated_size_budget_holds() {
    let builtin = KeccakBuiltinRunner::new(&KeccakInstanceDef::new(10, vec![200; 8]), true);

    let mut vm = VirtualMachine::new();
    vm.current_step = 160;
    vm.segments.segment_used_sizes = Some(vec![32]);

    assert_eq!(builtin.get_used_cells_and_allocated_size(&vm), Ok((32, 256)));
}

#[test]
fn get_used_cells_and_allocated_size_min_step_not_reached() {
    let builtin = KeccakBuiltinRunner::new(&KeccakInstanceDef::new(10, vec![200; 8]), true);

    let mut vm = VirtualMachine::new();
    vm.current_step = 100;
    vm.segments.segment_used_sizes = Some(vec![0]);

    assert_eq!(
        builtin.get_used_cells_and_allocated_size(&vm),
        Err(MemoryError::InsufficientAllocatedCells(
            InsufficientAllocatedCellsError::MinStepNotReached(160, KECCAK_BUILTIN_NAME)
        ))
    );
}

#[test]
fn get_used_cells_and_allocated_size_budget_exceeded() {
    let builtin = KeccakBuiltinRunner::new(&KeccakInstanceDef::new(10, vec![200; 8]), true);

    let mut vm = VirtualMachine::new();
    vm.current_step = 160;
    vm.segments.segment_used_sizes = Some(vec![2000]);

    assert_eq!(
        builtin.get_used_cells_and_allocated_size(&vm),
        Err(MemoryError::InsufficientAllocatedCells(
            InsufficientAllocatedCellsError::BuiltinCells(KECCAK_BUILTIN_NAME, 2000, 256)
        ))
    );
}

#[test]
fn initialize_segments_takes_next_segment() {
    let mut builtin = KeccakBuiltinRunner::new(&KeccakInstanceDef::default(), true);
    let mut segments = MemorySegmentManager::new();
    segments.add();
    segments.add();

    builtin.initialize_segments(&mut segments);

    assert_eq!(builtin.base(), 2);
    assert_eq!(segments.num_segments(), 3);
}

#[test]
fn runner_new_takes_instance_parameters() {
    let builtin = KeccakBuiltinRunner::new(&KeccakInstanceDef::new(10, vec![200; 8]), true);
    assert_eq!(builtin.ratio(), 10);
    assert_eq!(builtin.base(), 0);
    assert_eq!(builtin.n_input_cells, 8);
    assert_eq!(builtin.cells_per_instance, 16);
    assert_eq!(builtin.stop_ptr, None);
    assert!(builtin.included);
}

#[test]
fn final_stack_records_stop_pointer() {
    let mut builtin = KeccakBuiltinRunner::new(&KeccakInstanceDef::new(10, vec![200; 8]), true);

    let mut vm = VirtualMachine::new();
    vm.segments = segments_with(&[((2, 1), rel_val(0, 32))]);
    vm.segments.segment_used_sizes = Some(vec![17]);

    let pointer = rel(2, 2);
    assert_eq!(builtin.final_stack(&vm.segments, pointer).unwrap(), rel(2, 1));
    assert_eq!(builtin.stop_ptr, Some(32));
}
