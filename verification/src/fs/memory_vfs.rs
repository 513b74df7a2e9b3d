//! The in-memory backend: bounds-checked copies into and out of a region of
//! memory that the caller owns.
use vstd::prelude::*;
use crate::fs::VfsError;

verus! {

/// Whether `len` bytes at `offset` lie inside a region of `region_len` bytes.
/// A transfer of no bytes touches nothing and lies inside every region.
pub open spec fn in_bounds(region_len: nat, offset: usize, len: nat) -> bool {
    len == 0 || offset + len <= region_len
}

/// The `len` bytes of `region` that start at `offset`.
pub open spec fn region_read(region: Seq<u8>, offset: int, len: nat) -> Seq<u8> {
    Seq::new(len, |i: int| region[offset + i])
}

/// `region` with `data` laid over it from `offset` on.
pub open spec fn region_write(region: Seq<u8>, offset: int, data: Seq<u8>) -> Seq<u8> {
    Seq::new(
        region.len(),
        |i: int|
            if offset <= i < offset + data.len() {
                data[i - offset]
            } else {
                region[i]
            },
    )
}

/// A backend for tests that keeps no state of its own. The caller owns the
/// memory and passes it in; an offset is an index into that region.
pub struct MemoryVfs {}

impl MemoryVfs {
    /// The backend. It is the same whichever way it was made.
    pub fn new() -> (vfs: Self) {
        MemoryVfs {  }
    }

    /// Opens the backend. Nothing is stored under `path`.
    pub fn open(path: &str) -> (vfs: Self) {
        let _ = path;
        Self::new()
    }

    /// Copies `buf.len()` bytes of `region`, from `offset` on, into `buf`.
    pub fn read(&self, region: &[u8], offset: usize, buf: &mut [u8]) -> (r: Result<(), VfsError>)
        ensures
            final(buf)@.len() == old(buf)@.len(),
            in_bounds(region@.len(), offset, old(buf)@.len()) ==> r == Ok::<(), VfsError>(())
                && final(buf)@ == region_read(region@, offset as int, old(buf)@.len()),
            !in_bounds(region@.len(), offset, old(buf)@.len()) ==> r == Err::<(), VfsError>(
                VfsError::OutOfBounds,
            ) && final(buf)@ == old(buf)@,
    {
        let len = buf.len();
        if len == 0 {
            assert(buf@ =~= region_read(region@, offset as int, 0));
            return Ok(());
        }
        if offset > region.len() || len > region.len() - offset {
            return Err(VfsError::OutOfBounds);
        }
        let mut i: usize = 0;
        while i < len
            invariant
                i <= len,
                buf@.len() == len,
                offset + len <= region@.len() <= usize::MAX,
                forall|j: int| 0 <= j < i ==> buf@[j] == region@[offset + j],
            decreases len - i,
        {
            buf[i] = region[offset + i];
            i += 1;
        }
        assert(buf@ =~= region_read(region@, offset as int, len as nat));
        Ok(())
    }

    /// Copies `buf` into `region`, from `offset` on.
    pub fn write(&self, region: &mut [u8], offset: usize, buf: &[u8]) -> (r: Result<(), VfsError>)
        ensures
            final(region)@.len() == old(region)@.len(),
            in_bounds(old(region)@.len(), offset, buf@.len()) ==> r == Ok::<(), VfsError>(())
                && final(region)@ == region_write(old(region)@, offset as int, buf@),
            !in_bounds(old(region)@.len(), offset, buf@.len()) ==> r == Err::<(), VfsError>(
                VfsError::OutOfBounds,
            ) && final(region)@ == old(region)@,
    {
        let len = buf.len();
        if len == 0 {
            assert(region@ =~= region_write(region@, offset as int, buf@));
            return Ok(());
        }
        if offset > region.len() || len > region.len() - offset {
            return Err(VfsError::OutOfBounds);
        }
        let ghost before = region@;
        let mut i: usize = 0;
        while i < len
            invariant
                i <= len,
                buf@.len() == len,
                region@.len() == before.len(),
                offset + len <= region@.len() <= usize::MAX,
                forall|j: int| 0 <= j < i ==> region@[offset + j] == buf@[j],
                forall|j: int|
                    0 <= j < region@.len() && !(offset <= j < offset + i) ==> region@[j]
                        == before[j],
            decreases len - i,
        {
            region[offset + i] = buf[i];
            i += 1;
        }
        assert(region@ =~= region_write(before, offset as int, buf@));
        Ok(())
    }

    /// Nothing is buffered, so there is nothing to flush.
    pub fn flush(&self) {
    }

    /// This backend hands out no offsets: the caller manages its own memory.
    pub fn alloc_offset(&self, size: usize) -> (r: Result<usize, VfsError>)
        ensures
            r == Err::<usize, VfsError>(VfsError::Unsupported),
    {
        let _ = size;
        Err(VfsError::Unsupported)
    }

    /// This backend hands out no offsets, so none can be given back.
    pub fn dealloc_offset(&self, offset: usize) -> (r: Result<(), VfsError>)
        ensures
            r == Err::<(), VfsError>(VfsError::Unsupported),
    {
        let _ = offset;
        Err(VfsError::Unsupported)
    }
}

/// What was written into a region at an offset is what a read of the same
/// length at that offset gives back.
pub proof fn lemma_read_after_write(region: Seq<u8>, offset: usize, data: Seq<u8>)
    requires
        in_bounds(region.len(), offset, data.len()),
    ensures
        region_read(region_write(region, offset as int, data), offset as int, data.len()) == data,
{
    assert(region_read(region_write(region, offset as int, data), offset as int, data.len())
        =~= data);
}

/// A write changes no byte outside the range it was given.
pub proof fn lemma_write_keeps_the_rest(region: Seq<u8>, offset: usize, data: Seq<u8>, i: int)
    requires
        in_bounds(region.len(), offset, data.len()),
        0 <= i < region.len(),
        !(offset <= i < offset + data.len()),
    ensures
        region_write(region, offset as int, data)[i] == region[i],
{
}

/// A transfer of no bytes lies inside every region at every offset, writes
/// nothing and reads nothing.
pub proof fn lemma_empty_transfer_is_a_no_op(region: Seq<u8>, offset: usize)
    ensures
        in_bounds(region.len(), offset, 0),
        region_write(region, offset as int, Seq::<u8>::empty()) == region,
        region_read(region, offset as int, 0) == Seq::<u8>::empty(),
{
    assert(region_write(region, offset as int, Seq::<u8>::empty()) =~= region);
    assert(region_read(region, offset as int, 0) =~= Seq::<u8>::empty());
}

} // verus!
