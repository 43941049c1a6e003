//! A model of block contents, for stating what the external entry points
//! promise of the bytes they hand back.
//!
//! The adapter never touches block contents itself, so nothing here is
//! executable: these are the predicates in which the external library's
//! contract is stated — a zero-allocated block is all zeros, a reallocated
//! block keeps its bytes up to the shorter of the two sizes — and the
//! consequences a caller is owed, proved from those predicates alone.

use vstd::prelude::*;

verus! {

use vstd::math::min;

/// Every byte of the block is zero: what the aligned zero-allocate entry
/// point promises of a fresh block before its first write.
pub open spec fn all_zero(contents: Seq<u8>) -> bool {
    forall|i: int| 0 <= i < contents.len() ==> contents[i] == 0
}

/// The contents of a fresh zero-allocated block of `size` bytes.
pub open spec fn zeroed_contents(size: nat) -> Seq<u8> {
    Seq::new(size, |i: int| 0u8)
}

/// A fresh zero-allocated block has the requested length and every one of
/// its bytes is zero.
pub proof fn lemma_zeroed_contents_all_zero(size: nat)
    ensures
        zeroed_contents(size).len() == size,
        all_zero(zeroed_contents(size)),
{
}

/// What the aligned reallocate entry point promises of the block it hands
/// back: the old contents survive, byte for byte, up to the shorter of the
/// old and the new length.
pub open spec fn realloc_preserves(old_contents: Seq<u8>, new_contents: Seq<u8>) -> bool {
    forall|i: int|
        0 <= i < min(old_contents.len() as int, new_contents.len() as int)
            ==> new_contents[i] == old_contents[i]
}

/// Round trip through a reallocation: a pattern written into a block before
/// the block is reallocated reads back unchanged up to the shorter of the
/// two lengths. In particular, growing a block preserves the whole original
/// pattern.
pub proof fn lemma_realloc_round_trip(old_contents: Seq<u8>, new_contents: Seq<u8>)
    requires
        realloc_preserves(old_contents, new_contents),
    ensures
        new_contents.take(min(old_contents.len() as int, new_contents.len() as int))
            =~= old_contents.take(min(old_contents.len() as int, new_contents.len() as int)),
        old_contents.len() <= new_contents.len() ==> new_contents.take(old_contents.len() as int)
            =~= old_contents,
{
}

} // verus!
