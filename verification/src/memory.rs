use vstd::prelude::*;

verus! {

use crate::errors::MemoryError;
use crate::felt::Felt;
use crate::relocatable::{MaybeRelocatable, Relocatable};

/// A segmented, write-once memory: for each segment a growable run of cells,
/// each either empty or holding a value. Once a cell holds a value, no call
/// ever changes it.
pub struct Memory {
    pub data: Vec<Vec<Option<MaybeRelocatable>>>,
}

impl Memory {
    /// The value at `(seg, off)`: `None` when the cell is out of range or empty.
    pub open spec fn cell(self, seg: int, off: int) -> Option<MaybeRelocatable> {
        if 0 <= seg < self.data@.len() && 0 <= off < self.data@[seg]@.len() {
            self.data@[seg]@[off]
        } else {
            None
        }
    }

    pub open spec fn cell_at(self, addr: Relocatable) -> Option<MaybeRelocatable> {
        self.cell(addr.segment_index as int, addr.offset as int)
    }

    pub open spec fn num_segments(self) -> int {
        self.data@.len() as int
    }

    /// Whether `addr` names a segment that exists.
    pub open spec fn addr_in_segments(self, addr: Relocatable) -> bool {
        0 <= addr.segment_index && (addr.segment_index as int) < self.num_segments()
    }

    pub fn new() -> (r: Memory)
        ensures
            r.num_segments() == 0,
    {
        Memory { data: Vec::new() }
    }

    /// Appends a fresh, empty segment.
    pub fn add_segment(&mut self)
        ensures
            final(self).num_segments() == old(self).num_segments() + 1,
            forall|j: int|
                0 <= j < old(self).num_segments() ==> final(self).data@[j] == old(self).data@[j],
            final(self).data@[old(self).num_segments()]@.len() == 0,
            forall|s: int, o: int| final(self).cell(s, o) == old(self).cell(s, o),
    {
        self.data.push(Vec::new());
    }

    /// Writes `val` at `key`. Write-once: a populated cell accepts only the
    /// value it already holds; writing the same value again changes nothing.
    pub fn insert(&mut self, key: Relocatable, val: MaybeRelocatable) -> (r: Result<(), MemoryError>)
        ensures
            match r {
                Ok(()) => {
                    &&& old(self).addr_in_segments(key)
                    &&& (old(self).cell_at(key) is None || old(self).cell_at(key) == Some(val))
                    &&& final(self).cell_at(key) == Some(val)
                    &&& final(self).num_segments() == old(self).num_segments()
                    &&& forall|s: int, o: int|
                        !(s == key.segment_index as int && o == key.offset as int)
                            ==> final(self).cell(s, o) == old(self).cell(s, o)
                    &&& (old(self).cell_at(key) == Some(val) ==> *final(self) == *old(self))
                    &&& final(self).data@[key.segment_index as int]@.len() == if key.offset + 1
                        > old(self).data@[key.segment_index as int]@.len() {
                        key.offset + 1
                    } else {
                        old(self).data@[key.segment_index as int]@.len() as int
                    }
                },
                Err(e) => *final(self) == *old(self) && if !old(self).addr_in_segments(key) {
                    e == MemoryError::UnallocatedSegment(key)
                } else {
                    match old(self).cell_at(key) {
                        Some(w) => w != val && e == MemoryError::InconsistentMemory(key, w, val),
                        None => false,
                    }
                },
            },
    {
        if key.segment_index < 0 {
            return Err(MemoryError::UnallocatedSegment(key));
        }
        let seg: usize = key.segment_index as usize;
        if seg >= self.data.len() {
            return Err(MemoryError::UnallocatedSegment(key));
        }
        if key.offset < self.data[seg].len() {
            let existing = self.data[seg][key.offset];
            match existing {
                Some(w) => {
                    if w == val {
                        Ok(())
                    } else {
                        Err(MemoryError::InconsistentMemory(key, w, val))
                    }
                },
                None => {
                    self.data[seg][key.offset] = Some(val);
                    Ok(())
                },
            }
        } else {
            let ghost m0 = *self;
            while self.data[seg].len() < key.offset
                invariant
                    seg == key.segment_index as int,
                    seg < self.data@.len(),
                    self.data@.len() == m0.data@.len(),
                    forall|j: int|
                        0 <= j < m0.data@.len() && j != seg ==> self.data@[j] == m0.data@[j],
                    m0.data@[seg as int]@.len() <= self.data@[seg as int]@.len() <= key.offset,
                    forall|o: int|
                        0 <= o < m0.data@[seg as int]@.len()
                            ==> self.data@[seg as int]@[o] == m0.data@[seg as int]@[o],
                    forall|o: int|
                        m0.data@[seg as int]@.len() <= o < self.data@[seg as int]@.len()
                            ==> self.data@[seg as int]@[o] is None,
                decreases key.offset - self.data@[seg as int]@.len(),
            {
                self.data[seg].push(None);
            }
            self.data[seg].push(Some(val));
            Ok(())
        }
    }

    /// Reads the cell at `key` without changing anything.
    pub fn get(&self, key: &Relocatable) -> (r: Option<MaybeRelocatable>)
        ensures
            r == self.cell_at(*key),
    {
        if key.segment_index < 0 {
            return None;
        }
        let seg: usize = key.segment_index as usize;
        if seg >= self.data.len() {
            return None;
        }
        if key.offset >= self.data[seg].len() {
            return None;
        }
        self.data[seg][key.offset]
    }

    /// Reads a cell that must hold a field element.
    pub fn get_integer(&self, key: Relocatable) -> (r: Result<Felt, MemoryError>)
        ensures
            match self.cell_at(key) {
                Some(MaybeRelocatable::Int(f)) => r == Ok::<Felt, MemoryError>(f),
                _ => r == Err::<Felt, MemoryError>(MemoryError::ExpectedInteger(key)),
            },
    {
        match self.get(&key) {
            Some(MaybeRelocatable::Int(f)) => Ok(f),
            _ => Err(MemoryError::ExpectedInteger(key)),
        }
    }

    /// Reads a cell that must hold a relocatable address.
    pub fn get_relocatable(&self, key: Relocatable) -> (r: Result<Relocatable, MemoryError>)
        ensures
            match self.cell_at(key) {
                Some(MaybeRelocatable::RelocatableValue(a)) => r == Ok::<Relocatable, MemoryError>(a),
                _ => r == Err::<Relocatable, MemoryError>(MemoryError::ExpectedRelocatable(key)),
            },
    {
        match self.get(&key) {
            Some(MaybeRelocatable::RelocatableValue(a)) => Ok(a),
            _ => Err(MemoryError::ExpectedRelocatable(key)),
        }
    }
}

} // verus!
