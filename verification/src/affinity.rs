//! CPU affinity masks.
//!
//! A [`CpuAffinity`] is a fixed-capacity bit set, one bit per CPU core
//! index, up to the OS ceiling of [`MAX_CPUS`] cores. The number of set
//! bits gives the usable CPU count for scheduling decisions.

use vstd::prelude::*;

verus! {

/// The largest number of CPU cores a mask can describe, matching the size
/// of the OS's affinity mask.
pub const MAX_CPUS: usize = 1024;

/// How many of the bits in a mask are set.
pub open spec fn count_true(s: Seq<bool>) -> nat
    decreases s.len(),
{
    if s.len() == 0 {
        0
    } else {
        count_true(s.drop_last()) + if s.last() {
            1nat
        } else {
            0nat
        }
    }
}

/// A CPU affinity mask: bit `i` says whether core `i` may run the target.
#[derive(Debug)]
pub struct CpuAffinity {
    bits: Vec<bool>,
}

impl View for CpuAffinity {
    type V = Seq<bool>;

    closed spec fn view(&self) -> Seq<bool> {
        self.bits@
    }
}

impl CpuAffinity {
    /// Builds a mask from its bits, one per core index.
    pub fn from_bits(bits: Vec<bool>) -> (r: Self)
        requires
            bits@.len() <= MAX_CPUS,
        ensures
            r@ == bits@,
    {
        CpuAffinity { bits }
    }

    /// How many core indices the mask describes.
    pub fn len(&self) -> (n: usize)
        ensures
            n == self@.len(),
    {
        self.bits.len()
    }

    /// Whether core `cpu` is in the mask.
    pub fn is_set(&self, cpu: usize) -> (b: bool)
        ensures
            b == (cpu < self@.len() && self@[cpu as int]),
    {
        cpu < self.bits.len() && self.bits[cpu]
    }

    /// The number of set bits: the usable CPU count.
    pub fn count_ones(&self) -> (n: usize)
        ensures
            n == count_true(self@),
    {
        let mut n: usize = 0;
        let mut i: usize = 0;
        while i < self.bits.len()
            invariant
                i <= self.bits@.len(),
                n == count_true(self.bits@.take(i as int)),
                n <= i,
            decreases self.bits@.len() - i,
        {
            proof {
                assert(self.bits@.take(i + 1).drop_last() =~= self.bits@.take(i as int));
                assert(self.bits@.take(i + 1).last() == self.bits@[i as int]);
            }
            if self.bits[i] {
                n = n + 1;
            }
            i = i + 1;
        }
        proof {
            assert(self.bits@.take(self.bits@.len() as int) =~= self.bits@);
        }
        n
    }
}

/// The usable CPU count an affinity query yielded: the number of set bits
/// of the mask on success, and `0` on any failure — the error is never
/// propagated.
pub fn num_cpus(affinity: Result<CpuAffinity, crate::error::SchedError>) -> (n: usize)
    ensures
        match affinity {
            Ok(mask) => n == count_true(mask@),
            Err(_) => n == 0,
        },
{
    match affinity {
        Ok(mask) => mask.count_ones(),
        Err(_) => 0,
    }
}

} // verus!
