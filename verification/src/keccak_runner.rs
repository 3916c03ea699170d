use vstd::prelude::*;

verus! {

use vstd::arithmetic::power2::pow2;
use crate::errors::{InsufficientAllocatedCellsError, MemoryError, RunnerError};
use crate::felt::Felt;
use crate::instance_definitions::KeccakInstanceDef;
use crate::keccak_utils::left_pad_u64;
use crate::math_utils::{div_ceil, div_ceil_spec, safe_div_usize};
use crate::memory::Memory;
use crate::relocatable::{MaybeRelocatable, Relocatable};
use crate::segments::MemorySegmentManager;
use crate::vm_core::VirtualMachine;

pub const KECCAK_BUILTIN_NAME: &'static str = "keccak_builtin";

pub const KECCAK_ARRAY_LEN: usize = 25;

/// The Keccak-f[1600] permutation of a 25-lane state, as the `keccak` crate
/// computes it.
pub uninterp spec fn keccak_f1600(state: Seq<u64>) -> Seq<u64>;

/// Relies on keccak::f1600: the Keccak-f[1600] permutation, 24 rounds over a
/// 25-lane state, a function of the lanes alone.
#[verifier::external_body]
fn f1600(state: &Vec<u64>) -> (r: Vec<u64>)
    requires
        state@.len() == 25,
    ensures
        r@ == keccak_f1600(state@),
        r@.len() == 25,
{
    let mut lanes: [u64; 25] = state.as_slice().try_into().unwrap();
    keccak::f1600(&mut lanes);
    lanes.to_vec()
}

/// Runs the Keccak builtin's reserved segment: deduces output lanes from the
/// input lanes of each instance and accounts for the cells it uses.
#[derive(Clone, Debug)]
pub struct KeccakBuiltinRunner {
    pub ratio: u32,
    pub base: usize,
    pub cells_per_instance: u32,
    pub n_input_cells: u32,
    pub verified_addresses: Vec<Relocatable>,
    pub stop_ptr: Option<usize>,
    pub included: bool,
    pub state_rep: Vec<u32>,
    pub instances_per_component: u32,
}

fn contains_addr(v: &Vec<Relocatable>, a: Relocatable) -> (r: bool)
    ensures
        r == v@.contains(a),
{
    let mut i: usize = 0;
    while i < v.len()
        invariant
            i <= v@.len(),
            forall|k: int| 0 <= k < i ==> v@[k] != a,
        decreases v@.len() - i,
    {
        if v[i] == a {
            return true;
        }
        i = i + 1;
    }
    false
}

impl KeccakBuiltinRunner {
    pub fn new(instance_def: &KeccakInstanceDef, included: bool) -> (r: KeccakBuiltinRunner)
        requires
            instance_def._state_rep@.len() <= 0x7FFFFFFF,
        ensures
            r.ratio == instance_def._ratio,
            r.base == 0,
            r.n_input_cells == instance_def._state_rep@.len(),
            r.cells_per_instance == 2 * instance_def._state_rep@.len(),
            r.stop_ptr is None,
            r.verified_addresses@.len() == 0,
            r.included == included,
            r.instances_per_component == instance_def._instance_per_component,
            r.state_rep@ == instance_def._state_rep@,
    {
        let state_rep = instance_def._state_rep.clone();
        proof {
            assert(state_rep@ =~= instance_def._state_rep@);
        }
        KeccakBuiltinRunner {
            base: 0,
            ratio: instance_def._ratio,
            n_input_cells: instance_def._state_rep.len() as u32,
            cells_per_instance: instance_def.cells_per_builtin(),
            stop_ptr: None,
            verified_addresses: Vec::new(),
            included,
            instances_per_component: instance_def._instance_per_component,
            state_rep,
        }
    }

    /// Claims the next free segment as this builtin's reserved segment.
    pub fn initialize_segments(&mut self, segments: &mut MemorySegmentManager)
        requires
            old(segments).memory.num_segments() < isize::MAX,
        ensures
            final(self).base == old(segments).memory.num_segments(),
            *final(self) == (KeccakBuiltinRunner { base: final(self).base, ..*old(self) }),
            final(segments).memory.num_segments() == old(segments).memory.num_segments() + 1,
            forall|s: int, o: int|
                final(segments).memory.cell(s, o) == old(segments).memory.cell(s, o),
            final(segments).segment_used_sizes == old(segments).segment_used_sizes,
    {
        let base_addr = segments.add();
        self.base = base_addr.segment_index as usize;
    }

    /// The builtin's contribution to the initial stack: its base address when
    /// it is included in the run, nothing otherwise.
    pub fn initial_stack(&self) -> (r: Vec<MaybeRelocatable>)
        requires
            self.included ==> self.base <= isize::MAX,
        ensures
            self.included ==> r@ == seq![
                MaybeRelocatable::RelocatableValue(
                    Relocatable { segment_index: self.base as isize, offset: 0 },
                ),
            ],
            !self.included ==> r@.len() == 0,
    {
        let mut stack: Vec<MaybeRelocatable> = Vec::new();
        if self.included {
            stack.push(
                MaybeRelocatable::RelocatableValue(
                    Relocatable { segment_index: self.base as isize, offset: 0 },
                ),
            );
        }
        stack
    }

    pub fn base(&self) -> (r: usize)
        ensures
            r == self.base,
    {
        self.base
    }

    pub fn ratio(&self) -> (r: u32)
        ensures
            r == self.ratio,
    {
        self.ratio
    }

    /// The Keccak builtin installs no validation rule: the memory is left as
    /// it stands.
    pub fn add_validation_rule(&self, memory: &mut Memory)
        ensures
            *final(memory) == *old(memory),
    {
    }

    /// The cell's position inside its instance.
    pub open spec fn spec_cell_index(self, addr: Relocatable) -> int {
        addr.offset as int % self.cells_per_instance as int
    }

    /// The address of the instance's first input cell.
    pub open spec fn spec_first_input_addr(self, addr: Relocatable) -> Relocatable {
        Relocatable {
            segment_index: addr.segment_index,
            offset: (addr.offset as int - self.spec_cell_index(addr)) as usize,
        }
    }

    /// Input cell `i` of the instance holds a field element below `2^64`.
    pub open spec fn input_ok(self, mem: Memory, fi: Relocatable, i: int) -> bool {
        match mem.cell(fi.segment_index as int, fi.offset + i) {
            Some(MaybeRelocatable::Int(f)) => f.value() < 0x10000000000000000,
            _ => false,
        }
    }

    /// Input cell `i` of the instance is empty.
    pub open spec fn input_missing(self, mem: Memory, fi: Relocatable, i: int) -> bool {
        mem.cell(fi.segment_index as int, fi.offset + i) is None
    }

    /// The 64-bit value of input cell `i`; meaningful when `input_ok` holds.
    pub open spec fn input_word(self, mem: Memory, fi: Relocatable, i: int) -> u64 {
        match mem.cell(fi.segment_index as int, fi.offset + i) {
            Some(MaybeRelocatable::Int(f)) => f.value() as u64,
            _ => 0u64,
        }
    }

    /// The 25 lanes handed to the permutation: zero lanes, then the inputs.
    pub open spec fn padded_state(self, mem: Memory, fi: Relocatable) -> Seq<u64> {
        Seq::new(
            25,
            |i: int|
                if i < 25 - self.n_input_cells as int {
                    0u64
                } else {
                    self.input_word(mem, fi, i - (25 - self.n_input_cells as int))
                },
        )
    }

    /// When scanning stops at an empty input cell, that cell witnesses the
    /// deduce-nothing case and rules out the error case.
    proof fn lemma_scan_stops_missing(self, mem: Memory, fi: Relocatable, i: int, nin: int)
        requires
            0 <= i < nin,
            forall|k: int| 0 <= k < i ==> self.input_ok(mem, fi, k),
            self.input_missing(mem, fi, i),
        ensures
            exists|j: int|
                0 <= j < nin && #[trigger] self.input_missing(mem, fi, j) && (forall|k: int|
                    0 <= k < j ==> self.input_ok(mem, fi, k)),
            !(exists|j: int|
                0 <= j < nin && !self.input_missing(mem, fi, j) && !(
                #[trigger] self.input_ok(mem, fi, j)) && (forall|k: int|
                    0 <= k < j ==> self.input_ok(mem, fi, k))),
    {
        assert(0 <= i < nin && self.input_missing(mem, fi, i) && (forall|k: int|
            0 <= k < i ==> self.input_ok(mem, fi, k)));
        assert forall|j: int|
            0 <= j < nin && !self.input_missing(mem, fi, j) && !(
            #[trigger] self.input_ok(mem, fi, j)) && (forall|k: int|
                0 <= k < j ==> self.input_ok(mem, fi, k)) implies false by {
            if j < i {
                assert(self.input_ok(mem, fi, j));
            } else if j > i {
                assert(self.input_ok(mem, fi, i));
            }
        }
    }

    /// When scanning stops at a populated cell that is no 64-bit integer,
    /// that cell witnesses the error case and rules out the empty-cell case.
    proof fn lemma_scan_stops_bad(self, mem: Memory, fi: Relocatable, i: int, nin: int)
        requires
            0 <= i < nin,
            forall|k: int| 0 <= k < i ==> self.input_ok(mem, fi, k),
            !self.input_missing(mem, fi, i),
            !self.input_ok(mem, fi, i),
        ensures
            !(exists|j: int|
                0 <= j < nin && #[trigger] self.input_missing(mem, fi, j) && (forall|k: int|
                    0 <= k < j ==> self.input_ok(mem, fi, k))),
            exists|j: int|
                0 <= j < nin && !self.input_missing(mem, fi, j) && !(
                #[trigger] self.input_ok(mem, fi, j)) && (forall|k: int|
                    0 <= k < j ==> self.input_ok(mem, fi, k)),
    {
        assert(0 <= i < nin && !self.input_missing(mem, fi, i) && !self.input_ok(mem, fi, i) && (
        forall|k: int| 0 <= k < i ==> self.input_ok(mem, fi, k)));
        assert forall|j: int|
            0 <= j < nin && #[trigger] self.input_missing(mem, fi, j) && (forall|k: int|
                0 <= k < j ==> self.input_ok(mem, fi, k)) implies false by {
            if j < i {
                assert(self.input_ok(mem, fi, j));
            } else if j > i {
                assert(self.input_ok(mem, fi, i));
            }
        }
    }

    /// When every input cell holds a 64-bit integer, neither the empty-cell
    /// case nor the error case applies.
    proof fn lemma_scan_all_ok(self, mem: Memory, fi: Relocatable, nin: int)
        requires
            forall|k: int| 0 <= k < nin ==> self.input_ok(mem, fi, k),
        ensures
            !(exists|j: int|
                0 <= j < nin && #[trigger] self.input_missing(mem, fi, j) && (forall|k: int|
                    0 <= k < j ==> self.input_ok(mem, fi, k))),
            !(exists|j: int|
                0 <= j < nin && !self.input_missing(mem, fi, j) && !(
                #[trigger] self.input_ok(mem, fi, j)) && (forall|k: int|
                    0 <= k < j ==> self.input_ok(mem, fi, k))),
    {
        assert forall|j: int|
            0 <= j < nin && #[trigger] self.input_missing(mem, fi, j) && (forall|k: int|
                0 <= k < j ==> self.input_ok(mem, fi, k)) implies false by {
            assert(self.input_ok(mem, fi, j));
        }
        assert forall|j: int|
            0 <= j < nin && !self.input_missing(mem, fi, j) && !(
            #[trigger] self.input_ok(mem, fi, j)) && (forall|k: int|
                0 <= k < j ==> self.input_ok(mem, fi, k)) implies false by {
            assert(self.input_ok(mem, fi, j));
        }
    }

    /// Deduces the value of an output cell of the builtin's segment: reads the
    /// instance's input lanes, runs the permutation once, and returns the lane
    /// the cell asks for. Input cells, instances already deduced, and
    /// instances with missing inputs deduce nothing.
    pub fn deduce_memory_cell(&self, address: Relocatable, memory: &Memory) -> (r: Result<
        Option<MaybeRelocatable>,
        RunnerError,
    >)
        requires
            self.cells_per_instance >= 1,
            self.n_input_cells <= 25,
            self.n_input_cells >= 1 || address.offset >= 1,
        ensures
            ({
                let nin = self.n_input_cells as int;
                let index = self.spec_cell_index(address);
                let fi = self.spec_first_input_addr(address);
                if index < nin {
                    r == Ok::<Option<MaybeRelocatable>, RunnerError>(None)
                } else if self.verified_addresses@.contains(fi) {
                    r == Ok::<Option<MaybeRelocatable>, RunnerError>(None)
                } else if exists|j: int|
                    0 <= j < nin && #[trigger] self.input_missing(*memory, fi, j) && (forall|
                        k: int,
                    | 0 <= k < j ==> self.input_ok(*memory, fi, k)) {
                    r == Ok::<Option<MaybeRelocatable>, RunnerError>(None)
                } else if exists|j: int|
                    0 <= j < nin && !self.input_missing(*memory, fi, j) && !(
                    #[trigger] self.input_ok(*memory, fi, j)) && (forall|k: int|
                        0 <= k < j ==> self.input_ok(*memory, fi, k)) {
                    r == Err::<Option<MaybeRelocatable>, RunnerError>(
                        RunnerError::KeccakInputCellsNotU64,
                    )
                } else if self.state_rep@.len() == 0 {
                    r == Ok::<Option<MaybeRelocatable>, RunnerError>(None)
                } else {
                    let bits = self.state_rep@[0];
                    match memory.cell(fi.segment_index as int, fi.offset as int) {
                        Some(MaybeRelocatable::Int(f)) => if f.value() >= pow2(bits as nat) {
                            r == Err::<Option<MaybeRelocatable>, RunnerError>(
                                RunnerError::IntegerBiggerThanPowerOfTwo(
                                    MaybeRelocatable::RelocatableValue(fi),
                                    bits,
                                    f,
                                ),
                            )
                        } else {
                            let lanes = keccak_f1600(self.padded_state(*memory, fi));
                            let oi = address.offset as int - 1;
                            if oi < 25 {
                                r == Ok::<Option<MaybeRelocatable>, RunnerError>(
                                    Some(MaybeRelocatable::Int(Felt::spec_from_u64(lanes[oi]))),
                                )
                            } else {
                                r == Ok::<Option<MaybeRelocatable>, RunnerError>(None)
                            }
                        },
                        _ => r == Err::<Option<MaybeRelocatable>, RunnerError>(
                            RunnerError::Memory(MemoryError::ExpectedInteger(fi)),
                        ),
                    }
                }
            }),
    {
        let index = address.offset % (self.cells_per_instance as usize);
        proof {
            vstd::arithmetic::div_mod::lemma_mod_decreases(
                address.offset as nat,
                self.cells_per_instance as nat,
            );
        }
        if index < self.n_input_cells as usize {
            return Ok(None);
        }
        let first_offset = address.offset - index;
        let fi = Relocatable { segment_index: address.segment_index, offset: first_offset };
        if contains_addr(&self.verified_addresses, fi) {
            return Ok(None);
        }
        let n = self.n_input_cells as usize;
        let mut input_felts_u64: Vec<u64> = Vec::new();
        let mut i: usize = 0;
        while i < n
            invariant
                n == self.n_input_cells,
                n <= index,
                i <= n,
                index == self.spec_cell_index(address),
                index <= address.offset,
                first_offset == address.offset - index,
                fi == self.spec_first_input_addr(address),
                !self.verified_addresses@.contains(fi),
                input_felts_u64@.len() == i,
                forall|k: int| 0 <= k < i ==> self.input_ok(*memory, fi, k),
                forall|k: int|
                    0 <= k < i ==> input_felts_u64@[k] == self.input_word(*memory, fi, k),
            decreases n - i,
        {
            let addr_i = Relocatable {
                segment_index: address.segment_index,
                offset: first_offset + i,
            };
            match memory.get(&addr_i) {
                Some(MaybeRelocatable::Int(f)) => {
                    match f.to_u64() {
                        Some(v) => {
                            input_felts_u64.push(v);
                        },
                        None => {
                            proof {
                                self.lemma_scan_stops_bad(
                                    *memory,
                                    fi,
                                    i as int,
                                    self.n_input_cells as int,
                                );
                            }
                            return Err(RunnerError::KeccakInputCellsNotU64);
                        },
                    }
                },
                Some(MaybeRelocatable::RelocatableValue(_)) => {
                    proof {
                        self.lemma_scan_stops_bad(*memory, fi, i as int, self.n_input_cells as int);
                    }
                    return Err(RunnerError::KeccakInputCellsNotU64);
                },
                None => {
                    proof {
                        self.lemma_scan_stops_missing(
                            *memory,
                            fi,
                            i as int,
                            self.n_input_cells as int,
                        );
                    }
                    return Ok(None);
                },
            }
            i = i + 1;
        }
        proof {
            self.lemma_scan_all_ok(*memory, fi, self.n_input_cells as int);
        }
        if self.state_rep.len() > 0 {
            let bits = self.state_rep[0];
            match memory.get_integer(fi) {
                Err(e) => Err(RunnerError::Memory(e)),
                Ok(val) => {
                    if val.ge_pow2(bits) {
                        return Err(
                            RunnerError::IntegerBiggerThanPowerOfTwo(
                                MaybeRelocatable::RelocatableValue(fi),
                                bits,
                                val,
                            ),
                        );
                    }
                    let padded = left_pad_u64(&input_felts_u64, KECCAK_ARRAY_LEN - n);
                    proof {
                        let nz = 25 - n as int;
                        assert forall|k: int| 0 <= k < 25 implies padded@[k] == self.padded_state(
                            *memory,
                            fi,
                        )[k] by {
                            if k >= nz {
                                assert(padded@[nz + (k - nz)] == input_felts_u64@[k - nz]);
                            }
                        }
                        assert(padded@ =~= self.padded_state(*memory, fi));
                    }
                    let lanes = f1600(&padded);
                    let oi = address.offset - 1;
                    if oi < KECCAK_ARRAY_LEN {
                        Ok(Some(MaybeRelocatable::Int(Felt::from_u64(lanes[oi]))))
                    } else {
                        Ok(None)
                    }
                },
            }
        } else {
            Ok(None)
        }
    }

    /// Cells budgeted for this builtin after `current_step` steps: one
    /// instance's cells for every `ratio` steps.
    pub fn get_allocated_memory_units(&self, vm: &VirtualMachine) -> (r: Result<usize, MemoryError>)
        requires
            self.ratio >= 1 && vm.current_step as int % self.ratio as int == 0
                ==> self.cells_per_instance * (vm.current_step as int / self.ratio as int)
                <= usize::MAX,
        ensures
            match r {
                Ok(n) => self.ratio >= 1 && vm.current_step as int % self.ratio as int == 0 && n
                    == self.cells_per_instance * (vm.current_step as int / self.ratio as int),
                Err(e) => e == MemoryError::ErrorCalculatingMemoryUnits && (self.ratio == 0
                    || vm.current_step as int % self.ratio as int != 0),
            },
    {
        match safe_div_usize(vm.current_step, self.ratio as usize) {
            Ok(value) => Ok((self.cells_per_instance as usize) * value),
            Err(_) => Err(MemoryError::ErrorCalculatingMemoryUnits),
        }
    }

    pub fn get_memory_segment_addresses(&self) -> (r: (usize, Option<usize>))
        ensures
            r == (self.base, self.stop_ptr),
    {
        (self.base, self.stop_ptr)
    }

    /// How many of the builtin segment's cells the run populated.
    pub fn get_used_cells(&self, segments: &MemorySegmentManager) -> (r: Result<usize, MemoryError>)
        ensures
            match r {
                Ok(n) => segments.spec_used_size(self.base as int) == Some(n),
                Err(e) => segments.spec_used_size(self.base as int) is None && e
                    == MemoryError::MissingSegmentUsedSizes,
            },
    {
        match segments.get_segment_used_size(self.base) {
            Some(n) => Ok(n),
            None => Err(MemoryError::MissingSegmentUsedSizes),
        }
    }

    /// How many instances those cells span, counting a started instance whole.
    pub fn get_used_instances(&self, segments: &MemorySegmentManager) -> (r: Result<
        usize,
        MemoryError,
    >)
        requires
            self.cells_per_instance >= 1,
        ensures
            match r {
                Ok(n) => match segments.spec_used_size(self.base as int) {
                    Some(used) => n == div_ceil_spec(used as int, self.cells_per_instance as int),
                    None => false,
                },
                Err(e) => segments.spec_used_size(self.base as int) is None && e
                    == MemoryError::MissingSegmentUsedSizes,
            },
    {
        match self.get_used_cells(segments) {
            Ok(used_cells) => Ok(div_ceil(used_cells, self.cells_per_instance as usize)),
            Err(e) => Err(e),
        }
    }

    /// The cells the run used and the cells the step count allocates. Success
    /// means the used cells fit the allocation.
    pub fn get_used_cells_and_allocated_size(&self, vm: &VirtualMachine) -> (r: Result<
        (usize, usize),
        MemoryError,
    >)
        requires
            self.ratio as int * self.instances_per_component as int <= usize::MAX,
            self.ratio >= 1 && vm.current_step as int % self.ratio as int == 0
                ==> self.cells_per_instance * (vm.current_step as int / self.ratio as int)
                <= usize::MAX,
        ensures
            ({
                let min_step = self.ratio as int * self.instances_per_component as int;
                let size = self.cells_per_instance * (vm.current_step as int / self.ratio as int);
                if vm.current_step < min_step {
                    r == Err::<(usize, usize), MemoryError>(
                        MemoryError::InsufficientAllocatedCells(
                            InsufficientAllocatedCellsError::MinStepNotReached(
                                min_step as usize,
                                KECCAK_BUILTIN_NAME,
                            ),
                        ),
                    )
                } else {
                    match vm.segments.spec_used_size(self.base as int) {
                        None => r == Err::<(usize, usize), MemoryError>(
                            MemoryError::MissingSegmentUsedSizes,
                        ),
                        Some(used) => if self.ratio == 0 || vm.current_step as int
                            % self.ratio as int != 0 {
                            r == Err::<(usize, usize), MemoryError>(
                                MemoryError::InsufficientAllocatedCells(
                                    InsufficientAllocatedCellsError::CurrentStepNotDivisibleByBuiltinRatio(
                                        KECCAK_BUILTIN_NAME,
                                        vm.current_step,
                                        self.ratio as usize,
                                    ),
                                ),
                            )
                        } else if used > size {
                            r == Err::<(usize, usize), MemoryError>(
                                MemoryError::InsufficientAllocatedCells(
                                    InsufficientAllocatedCellsError::BuiltinCells(
                                        KECCAK_BUILTIN_NAME,
                                        used,
                                        size as usize,
                                    ),
                                ),
                            )
                        } else {
                            r == Ok::<(usize, usize), MemoryError>((used, size as usize)) && used
                                <= size
                        },
                    }
                }
            }),
    {
        let ratio = self.ratio as usize;
        let min_step = ratio * (self.instances_per_component as usize);
        if vm.current_step < min_step {
            return Err(
                MemoryError::InsufficientAllocatedCells(
                    InsufficientAllocatedCellsError::MinStepNotReached(
                        min_step,
                        KECCAK_BUILTIN_NAME,
                    ),
                ),
            );
        }
        let used = match self.get_used_cells(&vm.segments) {
            Ok(u) => u,
            Err(e) => {
                return Err(e);
            },
        };
        let size = match safe_div_usize(vm.current_step, ratio) {
            Ok(q) => (self.cells_per_instance as usize) * q,
            Err(_) => {
                return Err(
                    MemoryError::InsufficientAllocatedCells(
                        InsufficientAllocatedCellsError::CurrentStepNotDivisibleByBuiltinRatio(
                            KECCAK_BUILTIN_NAME,
                            vm.current_step,
                            ratio,
                        ),
                    ),
                );
            },
        };
        if used > size {
            return Err(
                MemoryError::InsufficientAllocatedCells(
                    InsufficientAllocatedCellsError::BuiltinCells(KECCAK_BUILTIN_NAME, used, size),
                ),
            );
        }
        Ok((used, size))
    }

    /// Reads the stop pointer from the word before `pointer`, checks it ends
    /// the builtin's segment right after the cells its instances span, and
    /// records it. A builtin left out of the run consumes nothing and stops
    /// at its own base.
    pub fn final_stack(&mut self, segments: &MemorySegmentManager, pointer: Relocatable) -> (r:
        Result<Relocatable, RunnerError>)
        requires
            old(self).included ==> old(self).cells_per_instance >= 1,
            old(self).base <= isize::MAX,
            old(self).included ==> match segments.spec_used_size(old(self).base as int) {
                Some(u) => div_ceil_spec(u as int, old(self).cells_per_instance as int) * old(
                    self,
                ).cells_per_instance as int <= usize::MAX,
                None => true,
            },
        ensures
            ({
                if !old(self).included {
                    r == Ok::<Relocatable, RunnerError>(pointer) && *final(self)
                        == (KeccakBuiltinRunner { stop_ptr: Some(old(self).base), ..*old(self) })
                } else if pointer.offset == 0 {
                    r == Err::<Relocatable, RunnerError>(
                        RunnerError::NoStopPointer(KECCAK_BUILTIN_NAME),
                    ) && *final(self) == *old(self)
                } else {
                    let spa = Relocatable {
                        segment_index: pointer.segment_index,
                        offset: (pointer.offset - 1) as usize,
                    };
                    match segments.memory.cell_at(spa) {
                        Some(MaybeRelocatable::RelocatableValue(sp)) => if sp.segment_index != old(
                            self,
                        ).base as isize {
                            r == Err::<Relocatable, RunnerError>(
                                RunnerError::InvalidStopPointerIndex(
                                    KECCAK_BUILTIN_NAME,
                                    sp,
                                    old(self).base,
                                ),
                            ) && *final(self) == *old(self)
                        } else {
                            match segments.spec_used_size(old(self).base as int) {
                                None => r == Err::<Relocatable, RunnerError>(
                                    RunnerError::Memory(MemoryError::MissingSegmentUsedSizes),
                                ) && *final(self) == *old(self),
                                Some(u) => {
                                    let used = div_ceil_spec(
                                        u as int,
                                        old(self).cells_per_instance as int,
                                    ) * old(self).cells_per_instance as int;
                                    if sp.offset != used {
                                        r == Err::<Relocatable, RunnerError>(
                                            RunnerError::InvalidStopPointer(
                                                KECCAK_BUILTIN_NAME,
                                                Relocatable {
                                                    segment_index: old(self).base as isize,
                                                    offset: used as usize,
                                                },
                                                Relocatable {
                                                    segment_index: old(self).base as isize,
                                                    offset: sp.offset,
                                                },
                                            ),
                                        ) && *final(self) == *old(self)
                                    } else {
                                        r == Ok::<Relocatable, RunnerError>(spa) && *final(self)
                                            == (KeccakBuiltinRunner {
                                            stop_ptr: Some(sp.offset),
                                            ..*old(self)
                                        }) && sp.offset == used
                                    }
                                },
                            }
                        },
                        _ => r == Err::<Relocatable, RunnerError>(
                            RunnerError::NoStopPointer(KECCAK_BUILTIN_NAME),
                        ) && *final(self) == *old(self),
                    }
                }
            }),
    {
        if self.included {
            let stop_pointer_addr = match pointer.sub_usize(1) {
                Ok(a) => a,
                Err(_) => {
                    return Err(RunnerError::NoStopPointer(KECCAK_BUILTIN_NAME));
                },
            };
            let stop_pointer = match segments.memory.get_relocatable(stop_pointer_addr) {
                Ok(sp) => sp,
                Err(_) => {
                    return Err(RunnerError::NoStopPointer(KECCAK_BUILTIN_NAME));
                },
            };
            if (self.base as isize) != stop_pointer.segment_index {
                return Err(
                    RunnerError::InvalidStopPointerIndex(
                        KECCAK_BUILTIN_NAME,
                        stop_pointer,
                        self.base,
                    ),
                );
            }
            let stop_ptr = stop_pointer.offset;
            let num_instances = match self.get_used_instances(segments) {
                Ok(n) => n,
                Err(e) => {
                    return Err(RunnerError::Memory(e));
                },
            };
            let used = num_instances * (self.cells_per_instance as usize);
            if stop_ptr != used {
                return Err(
                    RunnerError::InvalidStopPointer(
                        KECCAK_BUILTIN_NAME,
                        Relocatable { segment_index: self.base as isize, offset: used },
                        Relocatable { segment_index: self.base as isize, offset: stop_ptr },
                    ),
                );
            }
            self.stop_ptr = Some(stop_ptr);
            Ok(stop_pointer_addr)
        } else {
            let stop_ptr = self.base;
            self.stop_ptr = Some(stop_ptr);
            Ok(pointer)
        }
    }

    /// The address of every cell of the builtin's segment, in order.
    pub fn get_memory_accesses(&self, vm: &VirtualMachine) -> (r: Result<
        Vec<Relocatable>,
        MemoryError,
    >)
        requires
            self.base <= isize::MAX,
        ensures
            match r {
                Ok(v) => match vm.segments.spec_used_size(self.base as int) {
                    Some(size) => v@.len() == size && forall|i: int|
                        0 <= i < size ==> v@[i] == (Relocatable {
                            segment_index: self.base as isize,
                            offset: i as usize,
                        }),
                    None => false,
                },
                Err(e) => vm.segments.spec_used_size(self.base as int) is None && e
                    == MemoryError::MissingSegmentUsedSizes,
            },
    {
        let segment_size = match vm.segments.get_segment_size(self.base) {
            Some(n) => n,
            None => {
                return Err(MemoryError::MissingSegmentUsedSizes);
            },
        };
        let mut accesses: Vec<Relocatable> = Vec::new();
        let mut i: usize = 0;
        while i < segment_size
            invariant
                i <= segment_size,
                self.base <= isize::MAX,
                accesses@.len() == i,
                forall|k: int|
                    0 <= k < i ==> accesses@[k] == (Relocatable {
                        segment_index: self.base as isize,
                        offset: k as usize,
                    }),
            decreases segment_size - i,
        {
            accesses.push(Relocatable { segment_index: self.base as isize, offset: i });
            i = i + 1;
        }
        Ok(accesses)
    }

    /// The diluted-check cells this builtin occupies: four virtual columns of
    /// 64 * 1024 cells each, divided among `diluted_n_bits` bits; zero when
    /// the division does not come out even.
    pub fn get_used_diluted_check_units(&self, diluted_n_bits: u32) -> (r: usize)
        ensures
            r == if diluted_n_bits >= 1 && 262144int % diluted_n_bits as int == 0 {
                262144int / diluted_n_bits as int
            } else {
                0
            },
    {
        match safe_div_usize(262144, diluted_n_bits as usize) {
            Ok(q) => q,
            Err(_) => 0,
        }
    }
}

} // verus!
