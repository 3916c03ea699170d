use vstd::prelude::*;

verus! {

/// A copy of `v` with `n_zeros` zero lanes put before its entries.
pub fn left_pad_u64(v: &Vec<u64>, n_zeros: usize) -> (r: Vec<u64>)
    requires
        v@.len() + n_zeros <= usize::MAX,
    ensures
        r@.len() == n_zeros + v@.len(),
        forall|i: int| 0 <= i < n_zeros ==> r@[i] == 0u64,
        forall|i: int| 0 <= i < v@.len() ==> r@[n_zeros + i] == v@[i],
{
    let mut res: Vec<u64> = Vec::new();
    let mut i: usize = 0;
    while i < n_zeros
        invariant
            i <= n_zeros,
            res@.len() == i,
            forall|k: int| 0 <= k < i ==> res@[k] == 0u64,
        decreases n_zeros - i,
    {
        res.push(0);
        i = i + 1;
    }
    let mut j: usize = 0;
    while j < v.len()
        invariant
            j <= v@.len(),
            v@.len() + n_zeros <= usize::MAX,
            res@.len() == n_zeros + j,
            forall|k: int| 0 <= k < n_zeros ==> res@[k] == 0u64,
            forall|k: int| 0 <= k < j ==> res@[n_zeros + k] == v@[k],
        decreases v@.len() - j,
    {
        res.push(v[j]);
        j = j + 1;
    }
    res
}

} // verus!
