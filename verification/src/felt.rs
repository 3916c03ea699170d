use vstd::prelude::*;

verus! {

use vstd::arithmetic::power2::{
    pow2, lemma_pow2_adds, lemma_pow2_strictly_increases, lemma2_to64, lemma2_to64_rest,
};
use vstd::bits::lemma_u64_shl_is_mul;

/// An element of the Cairo prime field, held as four 64-bit limbs,
/// little-endian: the element stands for the integer
/// `limb0 + limb1·2^64 + limb2·2^128 + limb3·2^192`.
#[derive(Clone, Copy, Debug, PartialEq, Eq, Structural, Hash)]
pub struct Felt {
    pub limb0: u64,
    pub limb1: u64,
    pub limb2: u64,
    pub limb3: u64,
}

/// The weights of the four limbs and the first power of two past the
/// largest representable integer.
proof fn lemma_limb_weights()
    ensures
        pow2(64) == 0x10000000000000000,
        pow2(128) == 0x100000000000000000000000000000000int,
        pow2(192) == 0x1000000000000000000000000000000000000000000000000int,
        pow2(256) == 0x10000000000000000000000000000000000000000000000000000000000000000int,
{
    lemma2_to64();
    lemma_pow2_adds(64, 64);
    lemma_pow2_adds(64, 128);
    lemma_pow2_adds(64, 192);
}

impl Felt {
    /// The Cairo prime `P = 2^251 + 17·2^192 + 1`.
    pub open spec fn prime() -> int {
        0x800000000000011000000000000000000000000000000000000000000000001int
    }

    /// The integer the element stands for.
    pub open spec fn value(self) -> int {
        self.limb0 as int + self.limb1 as int * 0x10000000000000000int
            + self.limb2 as int * 0x100000000000000000000000000000000int
            + self.limb3 as int * 0x1000000000000000000000000000000000000000000000000int
    }

    /// A canonical element: its integer lies below the prime.
    pub open spec fn wf(self) -> bool {
        self.value() < Self::prime()
    }

    pub open spec fn spec_from_u64(v: u64) -> Felt {
        Felt { limb0: v, limb1: 0, limb2: 0, limb3: 0 }
    }

    pub fn from_u64(v: u64) -> (r: Felt)
        ensures
            r == Self::spec_from_u64(v),
            r.value() == v,
            r.wf(),
    {
        Felt { limb0: v, limb1: 0, limb2: 0, limb3: 0 }
    }

    /// The element's integer when it fits in 64 bits, `None` otherwise.
    pub fn to_u64(&self) -> (r: Option<u64>)
        ensures
            match r {
                Some(v) => self.value() == v,
                None => self.value() >= 0x10000000000000000,
            },
    {
        if self.limb1 == 0 && self.limb2 == 0 && self.limb3 == 0 {
            Some(self.limb0)
        } else {
            None
        }
    }

    /// Whether the element's integer is at least `2^bits`.
    pub fn ge_pow2(&self, bits: u32) -> (r: bool)
        ensures
            r == (self.value() >= pow2(bits as nat)),
    {
        proof {
            lemma_limb_weights();
        }
        if bits >= 256 {
            proof {
                if bits > 256 {
                    lemma_pow2_strictly_increases(256, bits as nat);
                }
            }
            false
        } else if bits >= 192 {
            let sh: u64 = (bits - 192) as u64;
            let threshold: u64 = 1u64 << sh;
            proof {
                lemma_pow2_strictly_increases(sh as nat, 64);
                lemma_u64_shl_is_mul(1u64, sh);
                lemma_pow2_adds(192, sh as nat);
            }
            self.limb3 >= threshold
        } else if bits >= 128 {
            let sh: u64 = (bits - 128) as u64;
            let threshold: u64 = 1u64 << sh;
            proof {
                lemma_pow2_strictly_increases(sh as nat, 64);
                lemma_u64_shl_is_mul(1u64, sh);
                lemma_pow2_adds(128, sh as nat);
            }
            self.limb3 != 0 || self.limb2 >= threshold
        } else if bits >= 64 {
            let sh: u64 = (bits - 64) as u64;
            let threshold: u64 = 1u64 << sh;
            proof {
                lemma_pow2_strictly_increases(sh as nat, 64);
                lemma_u64_shl_is_mul(1u64, sh);
                lemma_pow2_adds(64, sh as nat);
            }
            self.limb3 != 0 || self.limb2 != 0 || self.limb1 >= threshold
        } else {
            let sh: u64 = bits as u64;
            let threshold: u64 = 1u64 << sh;
            proof {
                lemma_pow2_strictly_increases(sh as nat, 64);
                lemma_u64_shl_is_mul(1u64, sh);
            }
            self.limb3 != 0 || self.limb2 != 0 || self.limb1 != 0 || self.limb0 >= threshold
        }
    }
}

} // verus!
