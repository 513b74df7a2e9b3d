//! The ring-pool backend: how the pool of kernel I/O rings is laid out, which
//! ring a thread uses, what a request looks like, and the protocol that turns
//! one asynchronous ring operation into a call that either moved every byte
//! or failed.
use vstd::prelude::*;
use crate::fs::{OpenPlan, VfsError};

verus! {

/// The pool never holds fewer rings than this.
pub const MIN_RING_COUNT: usize = 32;

/// Rings per unit of available parallelism.
pub const RINGS_PER_CPU: usize = 4;

/// Entries in each ring's submission queue. One operation is outstanding per
/// call, so the queue stays small.
pub const QUEUE_DEPTH: u32 = 8;

/// Milliseconds without a submission after which the kernel's submission
/// poller parks.
pub const SQ_POLL_IDLE_MS: u32 = 50;

/// The number of rings in the pool on a machine with the given parallelism.
pub open spec fn pool_size(parallelism: usize) -> int {
    if RINGS_PER_CPU * parallelism > MIN_RING_COUNT {
        RINGS_PER_CPU * parallelism
    } else {
        MIN_RING_COUNT as int
    }
}

/// How one ring of the pool is to be created.
#[derive(Clone, Copy, Debug, PartialEq, Eq, Structural)]
pub struct RingSetup {
    /// Entries in the submission queue.
    pub entries: u32,
    /// With `Some(ms)` the kernel polls the submission queue and parks after
    /// `ms` milliseconds without work; with `None` submissions enter the
    /// kernel by system call.
    pub sq_poll_idle: Option<u32>,
    /// Whether completions are found by busy-polling instead of interrupts.
    pub io_poll: bool,
    /// The index of the ring whose kernel worker pool this ring shares, if it
    /// shares one.
    pub attach_wq: Option<usize>,
}

/// The setup of the ring at `index` in a pool that polls or blocks.
pub open spec fn ring_setup(poll: bool, index: int) -> RingSetup {
    RingSetup {
        entries: QUEUE_DEPTH,
        sq_poll_idle: if poll {
            Some(SQ_POLL_IDLE_MS)
        } else {
            None
        },
        io_poll: poll,
        attach_wq: if poll && index >= 1 {
            Some((index - 1) as usize)
        } else {
            None
        },
    }
}

/// The layout of the pool on a machine with the given parallelism: the setups
/// of its rings, in pool order.
pub open spec fn pool_layout(poll: bool, parallelism: usize) -> Seq<RingSetup> {
    Seq::new(pool_size(parallelism) as nat, |i: int| ring_setup(poll, i))
}

/// The ring whose kernel worker pool the ring at `index` ends up in, found by
/// following the attachments from ring to ring.
pub open spec fn worker_pool_of(poll: bool, index: nat) -> nat
    decreases index,
{
    match ring_setup(poll, index as int).attach_wq {
        Some(before) => if before < index {
            worker_pool_of(poll, before as nat)
        } else {
            index
        },
        None => index,
    }
}

/// A polling pool is one chain: every ring ends up in the worker pool of the
/// first, so the number of kernel pollers does not grow with the pool. In a
/// blocking pool every ring stands alone.
pub proof fn lemma_polling_pool_is_one_chain(index: nat)
    requires
        index <= usize::MAX,
    ensures
        worker_pool_of(true, index) == 0,
        worker_pool_of(false, index) == index,
    decreases index,
{
    if index >= 1 {
        lemma_polling_pool_is_one_chain((index - 1) as nat);
    }
}

/// The layout of the ring pool: one setup per ring, in pool order. In a
/// polling pool every ring after the first shares the worker pool of the ring
/// before it, so the kernel runs one chain of pollers for the whole pool.
pub struct IoUringInstance {
    ring: Vec<RingSetup>,
    poll: bool,
}

impl View for IoUringInstance {
    type V = Seq<RingSetup>;

    closed spec fn view(&self) -> Seq<RingSetup> {
        self.ring@
    }
}

impl IoUringInstance {
    /// Whether this is the layout of a polling pool.
    pub closed spec fn polling(&self) -> bool {
        self.poll
    }

    #[verifier::type_invariant]
    spec fn laid_out(&self) -> bool {
        &&& self.ring@.len() >= MIN_RING_COUNT
        &&& forall|i: int|
            0 <= i < self.ring@.len() ==> #[trigger] self.ring@[i] == ring_setup(self.poll, i)
    }

    /// Lays out the pool for a machine with the given available parallelism.
    pub fn new(poll: bool, parallelism: usize) -> (pool: Self)
        requires
            RINGS_PER_CPU * parallelism <= usize::MAX,
        ensures
            pool.polling() == poll,
            pool@ == pool_layout(poll, parallelism),
    {
        let scaled = RINGS_PER_CPU * parallelism;
        let thread_cnt = if scaled > MIN_RING_COUNT {
            scaled
        } else {
            MIN_RING_COUNT
        };
        let mut ring: Vec<RingSetup> = Vec::with_capacity(thread_cnt);
        let mut i: usize = 0;
        while i < thread_cnt
            invariant
                i <= thread_cnt,
                ring@.len() == i,
                forall|j: int| 0 <= j < i ==> #[trigger] ring@[j] == ring_setup(poll, j),
            decreases thread_cnt - i,
        {
            let mut setup = RingSetup {
                entries: QUEUE_DEPTH,
                sq_poll_idle: None,
                io_poll: false,
                attach_wq: None,
            };
            if poll {
                setup.sq_poll_idle = Some(SQ_POLL_IDLE_MS);
                setup.io_poll = true;
                if i >= 1 {
                    setup.attach_wq = Some(i - 1);
                }
            }
            ring.push(setup);
            i += 1;
        }
        assert(ring@ =~= pool_layout(poll, parallelism));
        IoUringInstance { ring, poll }
    }

    /// The number of rings in the pool.
    pub fn len(&self) -> (n: usize)
        ensures
            n == self@.len(),
            n >= MIN_RING_COUNT,
    {
        proof {
            use_type_invariant(self);
        }
        self.ring.len()
    }

    /// The index of the ring that serves the thread whose identity hashes to
    /// `thread_hash`: the hash modulo the pool size.
    pub fn get_current_ring(&self, thread_hash: u64) -> (idx: usize)
        ensures
            idx == thread_hash as int % self@.len() as int,
            idx < self@.len(),
    {
        proof {
            use_type_invariant(self);
        }
        let idx = thread_hash % (self.ring.len() as u64);
        idx as usize
    }

    /// The setup of the ring at `idx`. A ring that shares a worker pool
    /// shares that of a ring before it in the pool.
    pub fn get_ring(&self, idx: usize) -> (setup: RingSetup)
        requires
            idx < self@.len(),
        ensures
            setup == self@[idx as int],
            setup == ring_setup(self.polling(), idx as int),
            setup.attach_wq matches Some(before) ==> before < idx,
    {
        proof {
            use_type_invariant(self);
        }
        self.ring[idx]
    }
}

/// The tag that every request carries and every completion must echo.
pub const CORRELATION_TAG: u64 = 0x42;

/// The longest transfer whose completion can report every byte as moved: a
/// completion's result is a signed 32-bit count.
pub const MAX_TRANSFER_LEN: usize = 0x7fff_ffff;

/// The direction of a transfer.
#[derive(Clone, Copy, Debug, PartialEq, Eq, Structural)]
pub enum IoOp {
    Read,
    Write,
}

/// One ring operation, as plain values.
#[derive(Clone, Copy, Debug, PartialEq, Eq, Structural)]
pub struct IoRequest {
    pub op: IoOp,
    /// The file descriptor of the backing file.
    pub fd: i32,
    /// The address of the caller's buffer.
    pub addr: usize,
    /// The length of the caller's buffer.
    pub len: u32,
    /// The position in the backing file.
    pub offset: u64,
    /// The tag that the completion must echo.
    pub user_data: u64,
}

/// One entry of a ring's completion queue, as plain values.
#[derive(Clone, Copy, Debug, PartialEq, Eq, Structural)]
pub struct Completion {
    pub user_data: u64,
    /// The number of bytes moved, or a negated error number.
    pub result: i32,
}

/// The request that moves `len` bytes between the buffer at `addr` and the
/// file `fd` at `offset`.
pub open spec fn request_for(
    op: IoOp,
    fd: i32,
    offset: usize,
    addr: usize,
    len: usize,
) -> IoRequest {
    IoRequest { op, fd, addr, len: len as u32, offset: offset as u64, user_data: CORRELATION_TAG }
}

/// Whether the completion `cqe` shows that `request` moved every byte. The
/// tag is looked at first, then the sign of the result, then the count.
pub open spec fn completion_verdict(request: IoRequest, cqe: Completion) -> Result<(), VfsError> {
    if cqe.user_data != request.user_data {
        Err(VfsError::TagMismatch { tag: cqe.user_data })
    } else if cqe.result < 0 {
        Err(VfsError::OperationFailed { result: cqe.result })
    } else if cqe.result != request.len {
        Err(
            VfsError::LengthMismatch {
                expected: request.len as usize,
                actual: cqe.result as usize,
            },
        )
    } else {
        Ok(())
    }
}

/// Checks a completion against the request it is taken to answer.
pub fn check_completion(request: &IoRequest, cqe: &Completion) -> (r: Result<(), VfsError>)
    ensures
        r == completion_verdict(*request, *cqe),
{
    if cqe.user_data != request.user_data {
        Err(VfsError::TagMismatch { tag: cqe.user_data })
    } else if cqe.result < 0 {
        Err(VfsError::OperationFailed { result: cqe.result })
    } else if cqe.result as u32 != request.len {
        Err(
            VfsError::LengthMismatch {
                expected: request.len as usize,
                actual: cqe.result as usize,
            },
        )
    } else {
        Ok(())
    }
}

/// Where a transfer stands. Each phase but the last two names the one thing
/// the host does next.
#[derive(Clone, Copy, Debug, PartialEq, Eq, Structural)]
pub enum Phase {
    /// The request is to be pushed onto the submission queue.
    Push,
    /// The queue is to be submitted, and completions waited for.
    Submit,
    /// The completion queue is to be read.
    Reap,
    /// Every byte was moved.
    Finished,
    /// The transfer failed, and the host stops.
    Failed(VfsError),
}

/// What the host reports after doing what a phase asked for.
#[derive(Clone, Copy, Debug, PartialEq, Eq, Structural)]
pub enum Event {
    /// The request is on the submission queue, and the queue is published.
    Pushed,
    /// The submission queue had no free entry.
    QueueFull,
    /// The kernel took the submission.
    Submitted,
    /// The kernel refused the submission with the error number `code`.
    SubmitFailed { code: i32 },
    /// The completion queue was empty.
    Empty,
    /// The completion queue held this entry.
    Completed(Completion),
}

/// What the host does next.
#[derive(Clone, Copy, Debug, PartialEq, Eq, Structural)]
pub enum Action {
    /// Push the request onto the submission queue and publish the queue.
    Push(IoRequest),
    /// Submit, and block until this many completions can be seen.
    SubmitAndWait(usize),
    /// Read the completion queue again and take its next entry.
    Reap,
    /// Return to the caller: every byte was moved.
    Finish,
    /// Stop: the transfer failed.
    Abort(VfsError),
}

/// The phase that follows `phase` when the host reports `event`. The two last
/// phases are final; an event that a phase does not expect fails the transfer.
pub open spec fn next_phase(request: IoRequest, phase: Phase, event: Event) -> Phase {
    match phase {
        Phase::Push => match event {
            Event::Pushed => Phase::Submit,
            Event::QueueFull => Phase::Failed(VfsError::QueueFull),
            _ => Phase::Failed(VfsError::OutOfOrder),
        },
        Phase::Submit => match event {
            Event::Submitted => Phase::Reap,
            Event::SubmitFailed { code } => Phase::Failed(VfsError::Os { code }),
            _ => Phase::Failed(VfsError::OutOfOrder),
        },
        Phase::Reap => match event {
            Event::Empty => Phase::Reap,
            Event::Completed(cqe) => match completion_verdict(request, cqe) {
                Ok(_) => Phase::Finished,
                Err(e) => Phase::Failed(e),
            },
            _ => Phase::Failed(VfsError::OutOfOrder),
        },
        Phase::Finished => Phase::Finished,
        Phase::Failed(e) => Phase::Failed(e),
    }
}

/// What the host does in `phase`.
pub open spec fn action_in(request: IoRequest, wait_count: usize, phase: Phase) -> Action {
    match phase {
        Phase::Push => Action::Push(request),
        Phase::Submit => Action::SubmitAndWait(wait_count),
        Phase::Reap => Action::Reap,
        Phase::Finished => Action::Finish,
        Phase::Failed(e) => Action::Abort(e),
    }
}

/// One transfer through one ring: the request, how many completions the
/// submission waits for, and the phase reached.
#[derive(Clone, Copy, Debug, PartialEq, Eq, Structural)]
pub struct Transfer {
    pub request: IoRequest,
    pub wait_count: usize,
    pub phase: Phase,
}

impl Transfer {
    /// A transfer of `request` that has not begun.
    pub fn new(request: IoRequest, wait_count: usize) -> (t: Self)
        ensures
            t == (Transfer { request, wait_count, phase: Phase::Push }),
    {
        Transfer { request, wait_count, phase: Phase::Push }
    }

    /// What the host does next.
    pub fn action(&self) -> (a: Action)
        ensures
            a == action_in(self.request, self.wait_count, self.phase),
    {
        match self.phase {
            Phase::Push => Action::Push(self.request),
            Phase::Submit => Action::SubmitAndWait(self.wait_count),
            Phase::Reap => Action::Reap,
            Phase::Finished => Action::Finish,
            Phase::Failed(e) => Action::Abort(e),
        }
    }

    /// Takes in what the host reports and says what it does next.
    pub fn step(&mut self, event: Event) -> (a: Action)
        ensures
            final(self).request == old(self).request,
            final(self).wait_count == old(self).wait_count,
            final(self).phase == next_phase(old(self).request, old(self).phase, event),
            a == action_in(final(self).request, final(self).wait_count, final(self).phase),
    {
        let next = match self.phase {
            Phase::Push => match event {
                Event::Pushed => Phase::Submit,
                Event::QueueFull => Phase::Failed(VfsError::QueueFull),
                _ => Phase::Failed(VfsError::OutOfOrder),
            },
            Phase::Submit => match event {
                Event::Submitted => Phase::Reap,
                Event::SubmitFailed { code } => Phase::Failed(VfsError::Os { code }),
                _ => Phase::Failed(VfsError::OutOfOrder),
            },
            Phase::Reap => match event {
                Event::Empty => Phase::Reap,
                Event::Completed(cqe) => match check_completion(&self.request, &cqe) {
                    Ok(_) => Phase::Finished,
                    Err(e) => Phase::Failed(e),
                },
                _ => Phase::Failed(VfsError::OutOfOrder),
            },
            Phase::Finished => Phase::Finished,
            Phase::Failed(e) => Phase::Failed(e),
        };
        self.phase = next;
        self.action()
    }
}

/// What the ring backend knows of itself: the descriptor of its backing file,
/// whether it polls, and the layout of its pool.
pub struct IoUringVfs {
    fd: i32,
    rings: IoUringInstance,
    polling: bool,
}

/// The ring backend as plain values.
pub struct IoUringVfsView {
    pub fd: i32,
    pub rings: Seq<RingSetup>,
    pub polling: bool,
}

impl View for IoUringVfs {
    type V = IoUringVfsView;

    closed spec fn view(&self) -> IoUringVfsView {
        IoUringVfsView { fd: self.fd, rings: self.rings@, polling: self.polling }
    }
}

/// Completions that a submission waits for: none in a polling pool, where
/// completions are found by polling, and one in a blocking pool.
pub open spec fn wait_count(polling: bool) -> usize {
    if polling {
        0
    } else {
        1
    }
}

/// How the backing file is opened: for direct I/O, to read and write, created
/// if missing, and its owner's alone.
pub fn open_plan() -> (plan: OpenPlan)
    ensures
        plan == (OpenPlan {
            read: true,
            write: true,
            create: true,
            truncate: false,
            direct: true,
            owner_only: true,
        }),
{
    OpenPlan {
        read: true,
        write: true,
        create: true,
        truncate: false,
        direct: true,
        owner_only: true,
    }
}

impl IoUringVfs {
    #[verifier::type_invariant]
    spec fn consistent(&self) -> bool {
        self.polling == self.rings.polling()
    }

    /// The backend over the open file `fd`, with a blocking pool.
    pub fn new_blocking(fd: i32, parallelism: usize) -> (vfs: Self)
        requires
            RINGS_PER_CPU * parallelism <= usize::MAX,
        ensures
            vfs@ == (IoUringVfsView {
                fd,
                rings: pool_layout(false, parallelism),
                polling: false,
            }),
    {
        Self::new_inner(fd, parallelism, false)
    }

    /// The backend over the open file `fd`, with a polling pool.
    pub fn open(fd: i32, parallelism: usize) -> (vfs: Self)
        requires
            RINGS_PER_CPU * parallelism <= usize::MAX,
        ensures
            vfs@ == (IoUringVfsView {
                fd,
                rings: pool_layout(true, parallelism),
                polling: true,
            }),
    {
        Self::new_inner(fd, parallelism, true)
    }

    fn new_inner(fd: i32, parallelism: usize, use_poll: bool) -> (vfs: Self)
        requires
            RINGS_PER_CPU * parallelism <= usize::MAX,
        ensures
            vfs@ == (IoUringVfsView {
                fd,
                rings: pool_layout(use_poll, parallelism),
                polling: use_poll,
            }),
    {
        IoUringVfs { fd, rings: IoUringInstance::new(use_poll, parallelism), polling: use_poll }
    }

    /// The layout of the pool.
    pub fn rings(&self) -> (pool: &IoUringInstance)
        ensures
            pool@ == self@.rings,
            pool.polling() == self@.polling,
    {
        proof {
            use_type_invariant(self);
        }
        &self.rings
    }

    /// Completions that a submission waits for.
    pub fn wait_cnt(&self) -> (n: usize)
        ensures
            n == wait_count(self@.polling),
    {
        if self.polling {
            0
        } else {
            1
        }
    }

    /// Begins a read of `len` bytes at `offset` into the buffer at `addr`.
    pub fn read(&self, offset: usize, addr: usize, len: usize) -> (r: Result<Transfer, VfsError>)
        ensures
            len <= MAX_TRANSFER_LEN ==> r == Ok::<Transfer, VfsError>(
                Transfer {
                    request: request_for(IoOp::Read, self@.fd, offset, addr, len),
                    wait_count: wait_count(self@.polling),
                    phase: Phase::Push,
                },
            ),
            len > MAX_TRANSFER_LEN ==> r == Err::<Transfer, VfsError>(VfsError::TooLong { len }),
    {
        self.begin(IoOp::Read, offset, addr, len)
    }

    /// Begins a write of `len` bytes at `offset` from the buffer at `addr`.
    pub fn write(&self, offset: usize, addr: usize, len: usize) -> (r: Result<Transfer, VfsError>)
        ensures
            len <= MAX_TRANSFER_LEN ==> r == Ok::<Transfer, VfsError>(
                Transfer {
                    request: request_for(IoOp::Write, self@.fd, offset, addr, len),
                    wait_count: wait_count(self@.polling),
                    phase: Phase::Push,
                },
            ),
            len > MAX_TRANSFER_LEN ==> r == Err::<Transfer, VfsError>(VfsError::TooLong { len }),
    {
        self.begin(IoOp::Write, offset, addr, len)
    }

    fn begin(&self, op: IoOp, offset: usize, addr: usize, len: usize) -> (r: Result<
        Transfer,
        VfsError,
    >)
        ensures
            len <= MAX_TRANSFER_LEN ==> r == Ok::<Transfer, VfsError>(
                Transfer {
                    request: request_for(op, self@.fd, offset, addr, len),
                    wait_count: wait_count(self@.polling),
                    phase: Phase::Push,
                },
            ),
            len > MAX_TRANSFER_LEN ==> r == Err::<Transfer, VfsError>(VfsError::TooLong { len }),
    {
        if len > MAX_TRANSFER_LEN {
            return Err(VfsError::TooLong { len });
        }
        let request = IoRequest {
            op,
            fd: self.fd,
            addr,
            len: len as u32,
            offset: offset as u64,
            user_data: CORRELATION_TAG,
        };
        Ok(Transfer::new(request, self.wait_cnt()))
    }
}

/// The phase reached from `phase` when the host reports `events` in order.
pub open spec fn phase_after(request: IoRequest, phase: Phase, events: Seq<Event>) -> Phase
    decreases events.len(),
{
    if events.len() == 0 {
        phase
    } else {
        next_phase(request, phase_after(request, phase, events.drop_last()), events.last())
    }
}

/// Whether `event` is a completion that echoes the tag of `request` and
/// reports exactly its length as moved.
pub open spec fn answers(request: IoRequest, event: Event) -> bool {
    event matches Event::Completed(cqe) && cqe.user_data == request.user_data && cqe.result
        == request.len
}

/// No partial transfer is ever taken for a whole one: a transfer that has not
/// finished finishes only in the reaping phase, on a completion that echoes
/// the request's tag and reports exactly the request's length.
pub proof fn lemma_finishes_only_when_complete(request: IoRequest, phase: Phase, event: Event)
    requires
        phase != Phase::Finished,
        next_phase(request, phase, event) == Phase::Finished,
    ensures
        phase == Phase::Reap,
        answers(request, event),
{
}

/// The same over whole runs: if a transfer that starts with the push has
/// finished after `events`, then one of them was a completion that echoes the
/// request's tag and reports exactly the request's length.
pub proof fn lemma_finished_run_saw_completion(request: IoRequest, events: Seq<Event>)
    requires
        phase_after(request, Phase::Push, events) == Phase::Finished,
    ensures
        exists|k: int| 0 <= k < events.len() && answers(request, #[trigger] events[k]),
    decreases events.len(),
{
    if events.len() > 0 {
        let before = phase_after(request, Phase::Push, events.drop_last());
        if before == Phase::Finished {
            lemma_finished_run_saw_completion(request, events.drop_last());
            let k = choose|k: int|
                0 <= k < events.drop_last().len() && answers(
                    request,
                    #[trigger] events.drop_last()[k],
                );
            assert(answers(request, events[k]));
        } else {
            lemma_finishes_only_when_complete(request, before, events.last());
            assert(answers(request, events[events.len() - 1]));
        }
    }
}

/// The events of a run in which nothing goes wrong: the push, the
/// submission, `spins` looks at an empty completion queue, and the completion
/// that answers `request`.
pub open spec fn clean_run(request: IoRequest, spins: nat) -> Seq<Event> {
    seq![Event::Pushed, Event::Submitted] + Seq::new(spins, |i: int| Event::Empty) + seq![
        Event::Completed(Completion { user_data: request.user_data, result: request.len as i32 }),
    ]
}

/// After the push and the submission, looking at an empty completion queue
/// any number of times leaves the transfer reaping.
pub proof fn lemma_spinning_keeps_reaping(request: IoRequest, spins: nat)
    ensures
        phase_after(
            request,
            Phase::Push,
            seq![Event::Pushed, Event::Submitted] + Seq::new(spins, |i: int| Event::Empty),
        ) == Phase::Reap,
    decreases spins,
{
    let start = seq![Event::Pushed, Event::Submitted];
    let events = start + Seq::new(spins, |i: int| Event::Empty);
    if spins == 0 {
        assert(events =~= start);
        assert(start.drop_last() =~= seq![Event::Pushed]);
        assert(seq![Event::Pushed].drop_last() =~= Seq::<Event>::empty());
        reveal_with_fuel(phase_after, 3);
    } else {
        lemma_spinning_keeps_reaping(request, (spins - 1) as nat);
        assert(events.drop_last() =~= start + Seq::new((spins - 1) as nat, |i: int| Event::Empty));
    }
}

/// A whole transfer is taken for one: however often the completion queue was
/// found empty, a run in which nothing goes wrong finishes the transfer of
/// any request whose length a completion can report.
pub proof fn lemma_clean_run_finishes(request: IoRequest, spins: nat)
    requires
        request.len <= MAX_TRANSFER_LEN,
    ensures
        phase_after(request, Phase::Push, clean_run(request, spins)) == Phase::Finished,
{
    let head = seq![Event::Pushed, Event::Submitted] + Seq::new(spins, |i: int| Event::Empty);
    lemma_spinning_keeps_reaping(request, spins);
    assert(clean_run(request, spins).drop_last() =~= head);
}

/// The two last phases are final: whatever the host reports afterwards, a
/// finished transfer stays finished and a failed one keeps its failure.
pub proof fn lemma_final_phases_stay(request: IoRequest, phase: Phase, events: Seq<Event>)
    requires
        phase == Phase::Finished || phase is Failed,
    ensures
        phase_after(request, phase, events) == phase,
    decreases events.len(),
{
    if events.len() > 0 {
        lemma_final_phases_stay(request, phase, events.drop_last());
    }
}

/// A transfer of no bytes is a request like any other, and the completion
/// that reports no bytes moved finishes it.
pub proof fn lemma_empty_transfer_finishes(op: IoOp, fd: i32, offset: usize, addr: usize)
    ensures
        completion_verdict(
            request_for(op, fd, offset, addr, 0),
            Completion { user_data: CORRELATION_TAG, result: 0 },
        ) == Ok::<(), VfsError>(()),
{
}

} // verus!
