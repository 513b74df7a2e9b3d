use page_io::fs::io_uring_vfs::{
    Action, Completion, Event, IoOp, IoRequest, IoUringVfs, Transfer,
};
use page_io::fs::{OffsetAlloc, VfsError};

/// A ring that lives in the test: a submission queue of the planned depth, a
/// completion queue, and a number of looks at the completion queue that find
/// it empty before a completion shows.
struct Ring {
    depth: usize,
    submitted: Vec<IoRequest>,
    completed: Vec<Completion>,
    lag: usize,
    runs: usize,
}

/// A host that lives in the test. A buffer's address is its index in `buffers`.
struct Host {
    plan: IoUringVfs,
    file: Vec<u8>,
    buffers: Vec<Vec<u8>>,
    rings: Vec<Ring>,
    alloc: OffsetAlloc,
}

impl Host {
    fn new(plan: IoUringVfs, lag: usize) -> Host {
        let mut rings = Vec::new();
        for i in 0..plan.rings().len() {
            rings.push(Ring {
                depth: plan.rings().get_ring(i).entries as usize,
                submitted: Vec::new(),
                completed: Vec::new(),
                lag,
                runs: 0,
            });
        }
        Host { plan, file: Vec::new(), buffers: Vec::new(), rings, alloc: OffsetAlloc::new_with(0) }
    }

    fn perform(&mut self, request: &IoRequest) -> Completion {
        let offset = request.offset as usize;
        let len = request.len as usize;
        let moved = match request.op {
            IoOp::Write => {
                if self.file.len() < offset + len {
                    self.file.resize(offset + len, 0);
                }
                self.file[offset..offset + len].copy_from_slice(&self.buffers[request.addr][..len]);
                len
            }
            IoOp::Read => {
                let there = self.file.len().saturating_sub(offset).min(len);
                let from = &self.file[offset.min(self.file.len())..offset.min(self.file.len()) + there];
                self.buffers[request.addr][..there].copy_from_slice(from);
                there
            }
        };
        Completion { user_data: request.user_data, result: moved as i32 }
    }

    fn run(&mut self, thread_hash: u64, begun: Result<Transfer, VfsError>) -> Result<(), VfsError> {
        let mut transfer = begun?;
        let idx = self.plan.rings().get_current_ring(thread_hash);
        self.rings[idx].runs += 1;
        let mut spins = self.rings[idx].lag;
        let mut action = transfer.action();
        loop {
            let event = match action {
                Action::Push(request) => {
                    if self.rings[idx].submitted.len() >= self.rings[idx].depth {
                        Event::QueueFull
                    } else {
                        self.rings[idx].submitted.push(request);
                        Event::Pushed
                    }
                }
                Action::SubmitAndWait(_) => {
                    let taken: Vec<IoRequest> = self.rings[idx].submitted.drain(..).collect();
                    for request in taken.iter() {
                        let done = self.perform(request);
                        self.rings[idx].completed.push(done);
                    }
                    Event::Submitted
                }
                Action::Reap => {
                    if spins > 0 {
                        spins -= 1;
                        Event::Empty
                    } else {
                        match self.rings[idx].completed.pop() {
                            Some(cqe) => Event::Completed(cqe),
                            None => Event::Empty,
                        }
                    }
                }
                Action::Finish => return Ok(()),
                Action::Abort(e) => return Err(e),
            };
            action = transfer.step(event);
        }
    }

    fn write(&mut self, thread_hash: u64, offset: usize, data: &[u8]) -> Result<(), VfsError> {
        self.buffers.push(data.to_vec());
        let addr = self.buffers.len() - 1;
        let begun = self.plan.write(offset, addr, data.len());
        self.run(thread_hash, begun)
    }

    fn read(&mut self, thread_hash: u64, offset: usize, len: usize) -> Result<Vec<u8>, VfsError> {
        self.buffers.push(vec![0; len]);
        let addr = self.buffers.len() - 1;
        let begun = self.plan.read(offset, addr, len);
        self.run(thread_hash, begun)?;
        Ok(self.buffers[addr].clone())
    }
}

fn page(len: usize, seed: usize) -> Vec<u8> {
    let mut v = Vec::with_capacity(len);
    for i in 0..len {
        v.push((i.wrapping_mul(131).wrapping_add(seed.wrapping_mul(7919)) % 251) as u8);
    }
    v
}

#[test]
fn blocking_ring_round_trip_at_allocated_offsets() {
    let mut host = Host::new(IoUringVfs::new_blocking(3, 4), 0);
    for len in [1usize, 4096, 32768] {
        let offset = host.alloc.alloc_offset(32768);
        assert_eq!(offset % 4096, 0);
        let data = page(len, len);
        assert_eq!(host.write(11, offset, &data), Ok(()));
        assert_eq!(host.read(11, offset, len), Ok(data));
    }
}

#[test]
fn polling_ring_round_trip_at_allocated_offsets() {
    let mut host = Host::new(IoUringVfs::open(3, 4), 17);
    for len in [1usize, 4096, 32768] {
        let offset = host.alloc.alloc_offset(32768);
        let data = page(len, len + 1);
        assert_eq!(host.write(12, offset, &data), Ok(()));
        assert_eq!(host.read(13, offset, len), Ok(data));
    }
}

#[test]
fn many_callers_write_and_read_back_without_corruption() {
    let callers = 40usize;
    let cycles = 100usize;
    let mut host = Host::new(IoUringVfs::open(3, 4), 3);
    let mut written: Vec<(usize, usize, Vec<u8>)> = Vec::new();
    for cycle in 0..cycles {
        for caller in 0..callers {
            let hash = (caller as u64).wrapping_mul(0x9e37_79b9_7f4a_7c15);
            let len = 4096 * (1 + (caller + cycle) % 8);
            let offset = host.alloc.alloc_offset(len);
            let data = page(len, caller * cycles + cycle);
            assert_eq!(host.write(hash, offset, &data), Ok(()));
            assert_eq!(host.read(hash, offset, len), Ok(data.clone()));
            if cycle % 10 == 0 {
                written.push((caller, offset, data));
            }
        }
    }
    for (caller, offset, data) in written.iter() {
        let hash = (*caller as u64).wrapping_mul(0x9e37_79b9_7f4a_7c15).wrapping_add(1);
        assert_eq!(host.read(hash, *offset, data.len()), Ok(data.clone()));
    }
    let used = host.rings.iter().filter(|r| r.runs > 0).count();
    assert!(used > 1);
    assert!(used <= host.rings.len());
    assert!(host.rings.iter().all(|r| r.submitted.is_empty() && r.completed.is_empty()));
}

#[test]
fn read_past_the_end_of_the_file_is_fatal() {
    let mut host = Host::new(IoUringVfs::new_blocking(3, 4), 0);
    let offset = host.alloc.alloc_offset(4096);
    assert_eq!(host.write(1, offset, &page(100, 5)), Ok(()));
    assert_eq!(
        host.read(1, offset, 4096),
        Err(VfsError::LengthMismatch { expected: 4096, actual: 100 })
    );
    assert_eq!(
        host.read(1, offset + 8192, 4096),
        Err(VfsError::LengthMismatch { expected: 4096, actual: 0 })
    );
}

#[test]
fn full_queue_on_a_ring_is_fatal() {
    let mut host = Host::new(IoUringVfs::new_blocking(3, 4), 0);
    let idx = host.plan.rings().get_current_ring(5);
    let filler = IoRequest { op: IoOp::Read, fd: 3, addr: 0, len: 0, offset: 0, user_data: 0x42 };
    for _ in 0..8 {
        host.rings[idx].submitted.push(filler);
    }
    assert_eq!(host.write(5, 4096, &[1, 2, 3]), Err(VfsError::QueueFull));
    assert_eq!(host.write(6, 4096, &[1, 2, 3]), Ok(()));
}

#[test]
fn transfer_of_no_bytes_touches_nothing() {
    let mut host = Host::new(IoUringVfs::open(3, 4), 2);
    let offset = host.alloc.alloc_offset(4096);
    assert_eq!(host.write(1, offset, &[]), Ok(()));
    assert_eq!(host.read(1, offset, 0), Ok(Vec::new()));
    assert_eq!(host.write(1, offset, &[9, 9]), Ok(()));
    assert_eq!(host.write(1, offset, &[]), Ok(()));
    assert_eq!(host.read(1, offset, 2), Ok(vec![9, 9]));
}
