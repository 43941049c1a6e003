//! The layout descriptor: a (size, alignment) pair describing a requested
//! memory block.

use vstd::prelude::*;

verus! {

use vstd::arithmetic::power2::is_pow2;

/// A (size, alignment) pair describing the shape of a requested memory
/// block.
///
/// A layout is well formed ([`BlockLayout::wf`]) when its alignment is a
/// power of two, and hence at least 1; any size, zero included, is allowed.
/// The adapter itself performs no validation — upholding well-formedness is
/// the caller's contract, exactly as for the global-allocator interface it
/// serves — so the fields are plain public values, and [`BlockLayout::wf`]
/// is a separate predicate with a checked constructor for callers that want
/// it enforced.
#[derive(Clone, Copy, Debug, PartialEq, Eq, Structural)]
pub struct BlockLayout {
    /// Requested size of the block, in bytes.
    pub size: usize,
    /// Requested alignment of the block's address, in bytes.
    pub align: usize,
}

impl BlockLayout {
    /// A layout is well formed when its alignment is a power of two.
    pub open spec fn wf(self) -> bool {
        is_pow2(self.align as int)
    }

    /// Builds a layout after checking that the alignment is a power of two,
    /// in the manner of `core::alloc::Layout::from_size_align`.
    pub fn from_size_align(size: usize, align: usize) -> (r: Option<BlockLayout>)
        ensures
            r is Some <==> is_pow2(align as int),
            r matches Some(l) ==> l == (BlockLayout { size, align }) && l.wf(),
    {
        if power_of_two(align) {
            Some(BlockLayout { size, align })
        } else {
            None
        }
    }
}

/// Runtime check that `n` is a power of two, halving until an odd value
/// remains.
pub fn power_of_two(n: usize) -> (r: bool)
    ensures
        r == is_pow2(n as int),
{
    if n == 0 {
        proof {
            reveal(is_pow2);
        }
        return false;
    }
    let mut m: usize = n;
    while m % 2 == 0
        invariant
            m >= 1,
            is_pow2(n as int) == is_pow2(m as int),
        decreases m,
    {
        proof {
            reveal(is_pow2);
        }
        m = m / 2;
    }
    proof {
        reveal(is_pow2);
    }
    m == 1
}

/// The alignment of a well-formed layout is at least 1: a zero alignment is
/// never a power of two.
pub proof fn lemma_wf_align_pos(l: BlockLayout)
    requires
        l.wf(),
    ensures
        l.align >= 1,
{
    reveal(is_pow2);
}

} // verus!
