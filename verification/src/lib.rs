//! A drop-in global allocator binding for the system's shared mimalloc
//! library.
//!
//! The library itself holds no allocation algorithm: it is an adapter that
//! translates each request of the four-operation global-allocator interface
//! (allocate, allocate-zeroed, reallocate, deallocate) into a call against
//! one of four foreign entry points. The whole correctness burden is in that
//! translation — forwarding the exact size and alignment, always through the
//! aligned entry points, and handing a reallocation the *original* alignment —
//! so the translation is what is verified here. [`MiMalloc`] computes, for
//! every request, the precise [`calls::EntryCall`] to perform; an unverified
//! shim owns the raw pointers and performs the foreign calls.

pub mod calls;
pub mod contents;
pub mod layout;

pub use calls::EntryCall;
pub use calls::MiMalloc;
pub use layout::BlockLayout;
