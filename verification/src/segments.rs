use vstd::prelude::*;

verus! {

use crate::errors::MemoryError;
use crate::memory::Memory;
use crate::relocatable::Relocatable;

/// The sum of the first `k` entries of `s`.
pub open spec fn seq_sum_prefix(s: Seq<usize>, k: int) -> int
    decreases k,
{
    if k <= 0 {
        0
    } else {
        seq_sum_prefix(s, k - 1) + s[k - 1]
    }
}

proof fn lemma_seq_sum_prefix_mono(s: Seq<usize>, k1: int, k2: int)
    requires
        0 <= k1 <= k2 <= s.len(),
    ensures
        seq_sum_prefix(s, k1) <= seq_sum_prefix(s, k2),
    decreases k2,
{
    if k1 < k2 {
        lemma_seq_sum_prefix_mono(s, k1, k2 - 1);
    }
}

/// Allocates segments, finalizes their sizes from the memory map, and builds
/// the relocation table.
pub struct MemorySegmentManager {
    pub memory: Memory,
    pub segment_used_sizes: Option<Vec<usize>>,
}

impl MemorySegmentManager {
    pub fn new() -> (r: MemorySegmentManager)
        ensures
            r.memory.num_segments() == 0,
            r.segment_used_sizes is None,
    {
        MemorySegmentManager { memory: Memory::new(), segment_used_sizes: None }
    }

    pub fn num_segments(&self) -> (r: usize)
        ensures
            r == self.memory.num_segments(),
    {
        self.memory.data.len()
    }

    /// Allocates the next segment and returns its base address.
    pub fn add(&mut self) -> (r: Relocatable)
        requires
            old(self).memory.num_segments() < isize::MAX,
        ensures
            r == (Relocatable {
                segment_index: old(self).memory.num_segments() as isize,
                offset: 0,
            }),
            final(self).memory.num_segments() == old(self).memory.num_segments() + 1,
            forall|s: int, o: int| final(self).memory.cell(s, o) == old(self).memory.cell(s, o),
            final(self).segment_used_sizes == old(self).segment_used_sizes,
    {
        let idx = self.memory.data.len();
        self.memory.add_segment();
        Relocatable { segment_index: idx as isize, offset: 0 }
    }

    /// The finalized size of segment `index`, when sizes have been computed.
    pub open spec fn spec_used_size(self, index: int) -> Option<usize> {
        match self.segment_used_sizes {
            Some(s) => if 0 <= index < s@.len() {
                Some(s@[index])
            } else {
                None
            },
            None => None,
        }
    }

    pub fn get_segment_used_size(&self, index: usize) -> (r: Option<usize>)
        ensures
            r == self.spec_used_size(index as int),
    {
        match &self.segment_used_sizes {
            Some(s) => if index < s.len() {
                Some(s[index])
            } else {
                None
            },
            None => None,
        }
    }

    pub fn get_segment_size(&self, index: usize) -> (r: Option<usize>)
        ensures
            r == self.spec_used_size(index as int),
    {
        self.get_segment_used_size(index)
    }

    /// Finalizes the per-segment sizes from the memory map. Once computed the
    /// table is kept: a second application leaves it unchanged.
    pub fn compute_effective_sizes(&mut self)
        ensures
            final(self).memory == old(self).memory,
            match old(self).segment_used_sizes {
                Some(s) => final(self).segment_used_sizes == Some(s),
                None => match final(self).segment_used_sizes {
                    Some(s2) => s2@.len() == old(self).memory.num_segments() && forall|i: int|
                        0 <= i < s2@.len() ==> s2@[i] == old(self).memory.data@[i]@.len(),
                    None => false,
                },
            },
    {
        if self.segment_used_sizes.is_some() {
            return ;
        }
        let n = self.memory.data.len();
        let mut sizes: Vec<usize> = Vec::new();
        let mut i: usize = 0;
        while i < n
            invariant
                i <= n,
                n == self.memory.num_segments(),
                sizes@.len() == i,
                forall|j: int| 0 <= j < i ==> sizes@[j] == self.memory.data@[j]@.len(),
                self.segment_used_sizes is None,
                *self == *old(self),
            decreases n - i,
        {
            sizes.push(self.memory.data[i].len());
            i = i + 1;
        }
        self.segment_used_sizes = Some(sizes);
    }

    /// Builds the relocation table from the finalized sizes: the first segment
    /// starts at linear address 1 and each later one right after its
    /// predecessor's cells.
    pub fn relocate_segments(&self) -> (r: Result<Vec<usize>, MemoryError>)
        requires
            match self.segment_used_sizes {
                Some(s) => seq_sum_prefix(s@, s@.len() as int) + 1 <= usize::MAX,
                None => true,
            },
        ensures
            match r {
                Ok(table) => match self.segment_used_sizes {
                    Some(s) => {
                        &&& table@.len() == s@.len() + 1
                        &&& table@[0] == 1
                        &&& forall|i: int|
                            0 <= i < s@.len() ==> #[trigger] table@[i + 1] == table@[i] + s@[i]
                    },
                    None => false,
                },
                Err(e) => self.segment_used_sizes is None
                    && e == MemoryError::EffectiveSizesNotCalled,
            },
    {
        match &self.segment_used_sizes {
            None => Err(MemoryError::EffectiveSizesNotCalled),
            Some(s) => {
                let n = s.len();
                let mut table: Vec<usize> = Vec::new();
                table.push(1);
                let mut i: usize = 0;
                while i < n
                    invariant
                        i <= n,
                        n == s@.len(),
                        self.segment_used_sizes == Some(*s),
                        seq_sum_prefix(s@, n as int) + 1 <= usize::MAX,
                        table@.len() == i + 1,
                        table@[0] == 1,
                        forall|j: int|
                            0 <= j < i ==> #[trigger] table@[j + 1] == table@[j] + s@[j],
                        table@[i as int] == 1 + seq_sum_prefix(s@, i as int),
                    decreases n - i,
                {
                    proof {
                        lemma_seq_sum_prefix_mono(s@, i + 1, n as int);
                    }
                    let next = table[i] + s[i];
                    table.push(next);
                    i = i + 1;
                }
                Ok(table)
            },
        }
    }
}

/// Relocation is strictly monotone on populated addresses: with addresses
/// ordered by segment and then offset, any two distinct populated addresses
/// map to strictly increasing linear addresses, so the relocation map is a
/// bijection between the populated addresses and their images.
pub proof fn lemma_relocation_monotone(
    table: Seq<usize>,
    sizes: Seq<usize>,
    s1: int,
    o1: int,
    s2: int,
    o2: int,
)
    requires
        table.len() == sizes.len() + 1,
        table[0] == 1,
        forall|i: int| 0 <= i < sizes.len() ==> #[trigger] table[i + 1] == table[i] + sizes[i],
        0 <= s1 <= s2 < sizes.len(),
        0 <= o1 < sizes[s1],
        0 <= o2 < sizes[s2],
        s1 < s2 || o1 < o2,
    ensures
        table[s1] + o1 < table[s2] + o2,
{
    if s1 < s2 {
        lemma_relocation_table_nondecreasing(table, sizes, s1 + 1, s2);
        assert(table[s1 + 1] == table[s1] + sizes[s1]);
    }
}

proof fn lemma_relocation_table_nondecreasing(table: Seq<usize>, sizes: Seq<usize>, i: int, j: int)
    requires
        table.len() == sizes.len() + 1,
        forall|k: int| 0 <= k < sizes.len() ==> #[trigger] table[k + 1] == table[k] + sizes[k],
        0 <= i <= j <= sizes.len(),
    ensures
        table[i] <= table[j],
    decreases j - i,
{
    if i < j {
        lemma_relocation_table_nondecreasing(table, sizes, i, j - 1);
        assert(table[(j - 1) + 1] == table[j - 1] + sizes[j - 1]);
    }
}

} // verus!
