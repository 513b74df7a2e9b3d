//! What the backends share: the errors they stop on, the way a backing file is
//! opened, and the allocator that hands out page offsets.
use vstd::prelude::*;
use crate::DISK_PAGE_SIZE;

pub mod io_uring_vfs;
pub mod memory_vfs;
pub mod std_vfs;

verus! {

/// Why a backend operation did not complete. Each of these is fatal to the
/// page store: the host stops rather than hand a partial page to its caller.
#[derive(Clone, Copy, Debug, PartialEq, Eq, Structural)]
pub enum VfsError {
    /// The range does not lie inside the region.
    OutOfBounds,
    /// The backend does not offer the operation.
    Unsupported,
    /// The operating system reported the failure `code`.
    Os { code: i32 },
    /// `actual` bytes moved where `expected` were asked for.
    LengthMismatch { expected: usize, actual: usize },
    /// The kernel finished a ring operation with the negative result `result`.
    OperationFailed { result: i32 },
    /// The ring's submission queue had no free entry.
    QueueFull,
    /// A completion carried the tag `tag`, which is not the request's.
    TagMismatch { tag: u64 },
    /// `len` bytes are more than one ring operation can report as moved.
    TooLong { len: usize },
    /// The host reported an event that the protocol does not expect in its
    /// current phase.
    OutOfOrder,
}

/// How a backend opens its backing file.
#[derive(Clone, Copy, Debug, PartialEq, Eq, Structural)]
pub struct OpenPlan {
    pub read: bool,
    pub write: bool,
    /// Create the file if it is missing.
    pub create: bool,
    /// Cut an existing file to length zero.
    pub truncate: bool,
    /// Bypass the operating system's page cache.
    pub direct: bool,
    /// Give a newly created file to its owner alone, to read and write.
    pub owner_only: bool,
}

/// The sum of `a` and `b` reduced to the range of `usize`, as an atomic
/// fetch-and-add leaves it in the counter.
pub open spec fn wrapped_sum(a: usize, b: usize) -> usize {
    if a + b <= usize::MAX {
        (a + b) as usize
    } else {
        (a + b - usize::MAX - 1) as usize
    }
}

/// The first offset handed out for a backing file of `file_len` bytes: the
/// file's length, but never inside the header page.
pub open spec fn first_offset(file_len: usize) -> usize {
    if file_len < DISK_PAGE_SIZE {
        DISK_PAGE_SIZE
    } else {
        file_len
    }
}

/// A monotonic page-offset allocator: one counter, advanced by
/// fetch-and-add. Space is never reclaimed.
///
/// The value is the counter between two allocations. A host that shares one
/// counter among threads keeps it in an atomic word and lets each thread
/// compute its step here, on the value it read, before it publishes the
/// result by compare-and-swap; the steps that were published then form one
/// sequence, and what is proved of every such sequence holds of them.
#[derive(Debug)]
pub struct OffsetAlloc {
    next_available_offset: usize,
}

impl View for OffsetAlloc {
    type V = usize;

    /// The offset that the next allocation returns.
    closed spec fn view(&self) -> usize {
        self.next_available_offset
    }
}

impl OffsetAlloc {
    /// Seeds the allocator from the length of the backing file.
    pub fn new_with(offset: usize) -> (allocator: Self)
        ensures
            allocator@ == first_offset(offset),
    {
        let mut offset = offset;
        if offset < DISK_PAGE_SIZE {
            offset = DISK_PAGE_SIZE;
        }
        OffsetAlloc { next_available_offset: offset }
    }

    /// An allocator whose counter stands at `offset`: one that goes on where
    /// another, whose counter was read, left off.
    pub fn resume(offset: usize) -> (allocator: Self)
        ensures
            allocator@ == offset,
    {
        OffsetAlloc { next_available_offset: offset }
    }

    /// Reserves `size` bytes: returns the counter's value and advances the
    /// counter by `size`.
    pub fn alloc_offset(&mut self, size: usize) -> (offset: usize)
        ensures
            offset == old(self)@,
            final(self)@ == wrapped_sum(old(self)@, size),
    {
        let offset = self.next_available_offset;
        self.next_available_offset = offset.wrapping_add(size);
        offset
    }

    /// Told that the page at `offset` is no longer needed. The allocator
    /// reclaims nothing: the counter stays where it is.
    pub fn dealloc_offset(&self, offset: usize) {
        let _ = offset;
    }

    /// The offset that the next allocation returns.
    pub fn next_available_offset(&self) -> (offset: usize)
        ensures
            offset == self@,
    {
        self.next_available_offset
    }
}

/// The bytes that the allocations `sizes` reserve together.
pub open spec fn total(sizes: Seq<usize>) -> int
    decreases sizes.len(),
{
    if sizes.len() == 0 {
        0
    } else {
        total(sizes.drop_last()) + sizes.last()
    }
}

/// The counter after the allocations `sizes` were served, in this order, by
/// an allocator whose counter stood at `start`.
pub open spec fn counter_after(start: usize, sizes: Seq<usize>) -> usize
    decreases sizes.len(),
{
    if sizes.len() == 0 {
        start
    } else {
        wrapped_sum(counter_after(start, sizes.drop_last()), sizes.last())
    }
}

/// The offset that the allocation at index `i` of `sizes` returns: the
/// counter as the allocations before it left it.
pub open spec fn nth_offset(start: usize, sizes: Seq<usize>, i: int) -> usize {
    counter_after(start, sizes.take(i))
}

/// One more allocation extends the sequence by one step of the counter: it
/// returns the counter as the allocations before it left it, and leaves the
/// counter advanced by its size.
pub proof fn lemma_allocation_extends_sequence(start: usize, sizes: Seq<usize>, size: usize)
    ensures
        nth_offset(start, sizes.push(size), sizes.len() as int) == counter_after(start, sizes),
        counter_after(start, sizes.push(size)) == wrapped_sum(counter_after(start, sizes), size),
{
    assert(sizes.push(size).take(sizes.len() as int) =~= sizes);
    assert(sizes.push(size).drop_last() =~= sizes);
}

/// The bytes reserved by a prefix of `sizes` do not exceed those reserved by
/// a longer prefix, and leave room in it for the allocation that follows.
pub proof fn lemma_total_of_prefixes(sizes: Seq<usize>, i: int, j: int)
    requires
        0 <= i <= j <= sizes.len(),
    ensures
        0 <= total(sizes.take(i)) <= total(sizes.take(j)),
        i < j ==> total(sizes.take(i)) + sizes[i] <= total(sizes.take(j)),
    decreases j,
{
    if j == 0 {
        assert(sizes.take(0).len() == 0);
    } else {
        assert(sizes.take(j).drop_last() =~= sizes.take(j - 1));
        assert(sizes.take(j).last() == sizes[j - 1]);
        if i < j {
            lemma_total_of_prefixes(sizes, i, j - 1);
        } else {
            lemma_total_of_prefixes(sizes, j - 1, j - 1);
        }
    }
}

/// While the counter does not pass the largest offset, it stands at its
/// start plus the bytes reserved.
pub proof fn lemma_counter_is_start_plus_total(start: usize, sizes: Seq<usize>)
    requires
        start + total(sizes) <= usize::MAX,
    ensures
        counter_after(start, sizes) == start + total(sizes),
    decreases sizes.len(),
{
    if sizes.len() > 0 {
        assert(sizes.take(sizes.len() as int) =~= sizes);
        assert(sizes.take(sizes.len() - 1) =~= sizes.drop_last());
        lemma_total_of_prefixes(sizes, sizes.len() - 1, sizes.len() as int);
        lemma_counter_is_start_plus_total(start, sizes.drop_last());
    }
}

/// In every order in which a fetch-and-add counter serves the allocations
/// `sizes`, as long as the counter does not pass the largest offset, an
/// earlier allocation's range `[offset, offset + size)` ends where a later
/// one begins or before it. So the ranges handed out are pairwise disjoint,
/// offsets never decrease, none lies below the start, and the offset of an
/// allocation that reserved any bytes is never returned again.
pub proof fn lemma_allocations_disjoint(start: usize, sizes: Seq<usize>, i: int, j: int)
    requires
        0 <= i < j < sizes.len(),
        start + total(sizes) <= usize::MAX,
    ensures
        start <= nth_offset(start, sizes, i) <= nth_offset(start, sizes, j),
        nth_offset(start, sizes, i) + sizes[i] <= nth_offset(start, sizes, j),
        nth_offset(start, sizes, j) + sizes[j] <= usize::MAX,
        sizes[i] > 0 ==> nth_offset(start, sizes, i) != nth_offset(start, sizes, j),
{
    assert(sizes.take(sizes.len() as int) =~= sizes);
    lemma_total_of_prefixes(sizes, i, j);
    lemma_total_of_prefixes(sizes, j, sizes.len() as int);
    lemma_counter_is_start_plus_total(start, sizes.take(i));
    lemma_counter_is_start_plus_total(start, sizes.take(j));
}

/// The header page is never handed out: an allocator seeded from a backing
/// file of any length returns the file's length or the page size first,
/// whichever is larger, and no offset below the page size after that, as long
/// as the counter does not pass the largest offset.
pub proof fn lemma_offsets_lie_after_header(file_len: usize, sizes: Seq<usize>, i: int)
    requires
        0 <= i < sizes.len(),
        first_offset(file_len) + total(sizes) <= usize::MAX,
    ensures
        nth_offset(first_offset(file_len), sizes, 0) == first_offset(file_len),
        nth_offset(first_offset(file_len), sizes, i) >= DISK_PAGE_SIZE,
        file_len < DISK_PAGE_SIZE ==> nth_offset(first_offset(file_len), sizes, 0)
            == DISK_PAGE_SIZE,
{
    assert(sizes.take(0).len() == 0);
    assert(sizes.take(sizes.len() as int) =~= sizes);
    lemma_total_of_prefixes(sizes, i, sizes.len() as int);
    lemma_counter_is_start_plus_total(first_offset(file_len), sizes.take(i));
}

/// Offsets stay page-aligned: where the counter starts on a page boundary
/// and every size is a whole number of pages, every offset handed out lies on
/// a page boundary, and so does the counter afterwards.
pub proof fn lemma_offsets_are_page_aligned(start: usize, sizes: Seq<usize>, i: int)
    requires
        start % DISK_PAGE_SIZE == 0,
        forall|k: int| 0 <= k < sizes.len() ==> #[trigger] sizes[k] % DISK_PAGE_SIZE == 0,
        0 <= i <= sizes.len(),
    ensures
        nth_offset(start, sizes, i) % DISK_PAGE_SIZE == 0,
    decreases i,
{
    if i > 0 {
        lemma_offsets_are_page_aligned(start, sizes, i - 1);
        assert(sizes.take(i).drop_last() =~= sizes.take(i - 1));
        assert(sizes.take(i).last() == sizes[i - 1]);
        let before = counter_after(start, sizes.take(i - 1));
        assert(wrapped_sum(before, sizes[i - 1]) % DISK_PAGE_SIZE == 0) by {
            assert(usize::MAX == 0xffff_ffff || usize::MAX == 0xffff_ffff_ffff_ffff);
        }
    } else {
        assert(sizes.take(0).len() == 0);
    }
}

} // verus!
