//! The adapter itself, and the calls it emits.
//!
//! Each of the four operations of the global-allocator interface translates
//! into exactly one call against the external library. The translation is
//! stated by four spec functions, one per entry point, and each executable
//! method is proved to return precisely the call those spec functions
//! describe. An unverified shim then performs the call it is handed.

use vstd::prelude::*;

verus! {

use crate::layout::BlockLayout;
use vstd::arithmetic::power2::is_pow2;

/// One call against the external library: which entry point, and every
/// argument handed to it.
///
/// Block addresses travel through the adapter as plain `usize` values; the
/// unverified shim that performs the call owns the actual pointers and
/// converts at the boundary.
#[derive(Clone, Copy, Debug, PartialEq, Eq, Structural)]
pub enum EntryCall {
    /// The aligned allocate entry point: a fresh, uninitialized block of at
    /// least `size` bytes at an address that is a multiple of `align`.
    MallocAligned { size: usize, align: usize },
    /// The aligned zero-allocate entry point: as `MallocAligned`, with every
    /// byte of the block set to zero.
    ZallocAligned { size: usize, align: usize },
    /// The aligned reallocate entry point: the block at `addr` resized to at
    /// least `new_size` bytes, keeping its contents up to the shorter of the
    /// two sizes, at an address that is a multiple of `align`.
    ReallocAligned { addr: usize, new_size: usize, align: usize },
    /// The free entry point: releases the block at `addr`. The external
    /// library tracks block metadata itself, so no size or alignment is
    /// passed along.
    Free { addr: usize },
}

/// A global allocator delegating every request to the system's shared
/// mimalloc library.
///
/// The value is zero-sized, stateless and copyable: it carries no fields,
/// and any two instances are interchangeable. All heap state lives in the
/// external library. Each method translates one operation of the
/// global-allocator interface into the [`EntryCall`] to perform.
#[derive(Clone, Copy, Debug, PartialEq, Eq, Structural)]
pub struct MiMalloc;

impl MiMalloc {
    /// The call an allocate request translates to: size and alignment are
    /// forwarded unchanged to the aligned allocate entry point.
    pub open spec fn alloc_call(layout: BlockLayout) -> EntryCall {
        EntryCall::MallocAligned { size: layout.size, align: layout.align }
    }

    /// The call an allocate-zeroed request translates to: size and alignment
    /// are forwarded unchanged to the aligned zero-allocate entry point.
    pub open spec fn zalloc_call(layout: BlockLayout) -> EntryCall {
        EntryCall::ZallocAligned { size: layout.size, align: layout.align }
    }

    /// The call a reallocate request translates to: the block's address, the
    /// new size, and the *original* alignment — the one the block was
    /// obtained with, never a recomputed one, since the external library
    /// needs it to decide whether the block can grow in place.
    pub open spec fn realloc_call(addr: usize, layout: BlockLayout, new_size: usize) -> EntryCall {
        EntryCall::ReallocAligned { addr, new_size, align: layout.align }
    }

    /// The call a deallocate request translates to: the block's address
    /// alone. The layout is accepted, to match the interface, and dropped.
    pub open spec fn free_call(addr: usize, layout: BlockLayout) -> EntryCall {
        EntryCall::Free { addr }
    }

    /// Translates an allocate request for `layout`.
    pub fn allocate(&self, layout: BlockLayout) -> (c: EntryCall)
        ensures
            c == Self::alloc_call(layout),
    {
        EntryCall::MallocAligned { size: layout.size, align: layout.align }
    }

    /// Translates an allocate-zeroed request for `layout`.
    pub fn allocate_zeroed(&self, layout: BlockLayout) -> (c: EntryCall)
        ensures
            c == Self::zalloc_call(layout),
    {
        EntryCall::ZallocAligned { size: layout.size, align: layout.align }
    }

    /// Translates a reallocate request: the block at `addr`, obtained with
    /// `layout`, is to be resized to `new_size` bytes.
    pub fn reallocate(&self, addr: usize, layout: BlockLayout, new_size: usize) -> (c: EntryCall)
        ensures
            c == Self::realloc_call(addr, layout, new_size),
    {
        EntryCall::ReallocAligned { addr, new_size, align: layout.align }
    }

    /// Translates a deallocate request for the block at `addr`, obtained
    /// with `layout`.
    pub fn deallocate(&self, addr: usize, layout: BlockLayout) -> (c: EntryCall)
        ensures
            c == Self::free_call(addr, layout),
    {
        let _ = layout;
        EntryCall::Free { addr }
    }
}

/// The adapter is stateless: any two adapter values are equal, so every
/// thread may share one freely, and which call a request translates to can
/// depend on nothing but the request itself — the translation spec
/// functions take no adapter at all.
pub proof fn lemma_adapter_stateless(a: MiMalloc, b: MiMalloc)
    ensures
        a == b,
{
}

/// An allocate request forwards exactly the requested layout, and for a
/// well-formed layout the forwarded alignment is a power of two — the shape
/// in which the external library promises an address that is a multiple of
/// it.
pub proof fn lemma_alloc_forwards_layout_exactly(layout: BlockLayout)
    requires
        layout.wf(),
    ensures
        MiMalloc::alloc_call(layout) == (EntryCall::MallocAligned {
            size: layout.size,
            align: layout.align,
        }),
        is_pow2(layout.align as int),
        layout.align >= 1,
{
    crate::layout::lemma_wf_align_pos(layout);
}

/// An allocate-zeroed request asks for a block of exactly the same shape as
/// a plain allocate request for the same layout: same size, same alignment,
/// only the entry point differs.
pub proof fn lemma_zalloc_matches_alloc_shape(layout: BlockLayout)
    ensures
        MiMalloc::zalloc_call(layout)->ZallocAligned_size == MiMalloc::alloc_call(
            layout,
        )->MallocAligned_size,
        MiMalloc::zalloc_call(layout)->ZallocAligned_align == MiMalloc::alloc_call(
            layout,
        )->MallocAligned_align,
{
}

/// A reallocate request hands the external library the original block's
/// address, the new size, and the original alignment unchanged.
pub proof fn lemma_realloc_keeps_original_align(addr: usize, layout: BlockLayout, new_size: usize)
    ensures
        MiMalloc::realloc_call(addr, layout, new_size)->ReallocAligned_addr == addr,
        MiMalloc::realloc_call(addr, layout, new_size)->ReallocAligned_new_size == new_size,
        MiMalloc::realloc_call(addr, layout, new_size)->ReallocAligned_align == layout.align,
{
}

/// A deallocate request depends on the block's address alone: whatever
/// layout a caller hands over — matching or not — the very same call is
/// emitted, because the external library tracks block metadata itself.
pub proof fn lemma_free_ignores_layout(addr: usize, l1: BlockLayout, l2: BlockLayout)
    ensures
        MiMalloc::free_call(addr, l1) == MiMalloc::free_call(addr, l2),
        MiMalloc::free_call(addr, l1) == (EntryCall::Free { addr }),
{
}

} // verus!

