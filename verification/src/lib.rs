//! Page-oriented storage I/O for an embedded storage engine, written sans-I/O.
//!
//! The crate decides and checks; the embedding program performs. Every system
//! call (opening the backing file, positioned reads and writes, ring
//! submission, futex parking) is made by the host, which hands the library
//! plain values and acts on the plain values it gets back. What the library
//! holds is the part that can go wrong silently: which offsets are handed out,
//! how the ring pool is laid out, which ring a thread uses, what a request
//! looks like, and when a finished transfer counts as complete.
use vstd::prelude::*;

pub mod fs;
pub mod utils;

verus! {

/// Size in bytes of one disk page. Offsets handed out by the allocator start
/// at this value: the first page of the backing file is a header region.
pub const DISK_PAGE_SIZE: usize = 4096;

/// Largest page the engine stores in one piece.
pub const MAX_LEAF_PAGE_SIZE: usize = 32768;

} // verus!
