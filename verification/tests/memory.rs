use page_io::fs::memory_vfs::MemoryVfs;
use page_io::fs::VfsError;

fn pattern(len: usize, seed: u8) -> Vec<u8> {
    let mut v = Vec::with_capacity(len);
    for i in 0..len {
        v.push((i as u8).wrapping_mul(31).wrapping_add(seed));
    }
    v
}

fn round_trip(len: usize, offset: usize) {
    let vfs = MemoryVfs::new();
    let mut region = vec![0xEEu8; 4 * 32768];
    let data = pattern(len, 7);
    assert_eq!(vfs.write(&mut region, offset, &data), Ok(()));
    let mut back = vec![0u8; len];
    assert_eq!(vfs.read(&region, offset, &mut back), Ok(()));
    assert_eq!(back, data);
    assert!(region[..offset].iter().all(|b| *b == 0xEE));
    assert!(region[offset + len..].iter().all(|b| *b == 0xEE));
}

#[test]
fn round_trip_of_one_byte() {
    round_trip(1, 0);
    round_trip(1, 4096);
    round_trip(1, 32768);
}

#[test]
fn round_trip_of_one_page() {
    round_trip(4096, 0);
    round_trip(4096, 4096);
    round_trip(4096, 8192);
}

#[test]
fn round_trip_of_the_largest_page() {
    round_trip(32768, 0);
    round_trip(32768, 4096);
    round_trip(32768, 3 * 32768);
}

#[test]
fn read_copies_the_bytes_at_the_offset() {
    let vfs = MemoryVfs::new();
    let region: Vec<u8> = vec![10, 11, 12, 13, 14, 15, 16, 17];
    let mut buf = [0u8; 3];
    assert_eq!(vfs.read(&region, 2, &mut buf), Ok(()));
    assert_eq!(buf, [12, 13, 14]);
    assert_eq!(vfs.read(&region, 5, &mut buf), Ok(()));
    assert_eq!(buf, [15, 16, 17]);
}

#[test]
fn write_lays_the_bytes_over_the_region() {
    let vfs = MemoryVfs::new();
    let mut region: Vec<u8> = vec![10, 11, 12, 13, 14, 15, 16, 17];
    assert_eq!(vfs.write(&mut region, 3, &[1, 2, 3]), Ok(()));
    assert_eq!(region, vec![10, 11, 12, 1, 2, 3, 16, 17]);
    assert_eq!(vfs.write(&mut region, 0, &[9]), Ok(()));
    assert_eq!(region, vec![9, 11, 12, 1, 2, 3, 16, 17]);
}

#[test]
fn write_past_the_end_fails_and_changes_nothing() {
    let vfs = MemoryVfs::new();
    let mut region: Vec<u8> = vec![1, 2, 3, 4];
    assert_eq!(vfs.write(&mut region, 2, &[7, 7, 7]), Err(VfsError::OutOfBounds));
    assert_eq!(region, vec![1, 2, 3, 4]);
    assert_eq!(vfs.write(&mut region, 4, &[7]), Err(VfsError::OutOfBounds));
    assert_eq!(vfs.write(&mut region, 5, &[7]), Err(VfsError::OutOfBounds));
    assert_eq!(vfs.write(&mut region, usize::MAX, &[7, 7]), Err(VfsError::OutOfBounds));
    assert_eq!(region, vec![1, 2, 3, 4]);
    assert_eq!(vfs.write(&mut region, 0, &[5, 6, 7, 8]), Ok(()));
    assert_eq!(region, vec![5, 6, 7, 8]);
}

#[test]
fn read_past_the_end_fails_and_changes_nothing() {
    let vfs = MemoryVfs::new();
    let region: Vec<u8> = vec![1, 2, 3, 4];
    let mut buf = [9u8; 3];
    assert_eq!(vfs.read(&region, 2, &mut buf), Err(VfsError::OutOfBounds));
    assert_eq!(buf, [9, 9, 9]);
    assert_eq!(vfs.read(&region, usize::MAX, &mut buf), Err(VfsError::OutOfBounds));
    assert_eq!(buf, [9, 9, 9]);
    assert_eq!(vfs.read(&region, 1, &mut buf), Ok(()));
    assert_eq!(buf, [2, 3, 4]);
}

#[test]
fn transfer_of_no_bytes_is_a_no_op_at_every_offset() {
    let vfs = MemoryVfs::new();
    let mut region: Vec<u8> = vec![1, 2, 3, 4];
    let mut nothing: [u8; 0] = [];
    for offset in [0usize, 2, 4, 5, 4096, usize::MAX] {
        assert_eq!(vfs.write(&mut region, offset, &nothing), Ok(()));
        assert_eq!(region, vec![1, 2, 3, 4]);
        assert_eq!(vfs.read(&region, offset, &mut nothing), Ok(()));
    }
    let mut empty_region: Vec<u8> = Vec::new();
    assert_eq!(vfs.write(&mut empty_region, 0, &nothing), Ok(()));
    assert_eq!(vfs.read(&empty_region, 0, &mut nothing), Ok(()));
    assert_eq!(vfs.write(&mut empty_region, 0, &[1]), Err(VfsError::OutOfBounds));
}

#[test]
fn memory_backend_hands_out_no_offsets() {
    let vfs = MemoryVfs::open("/tmp/ignored/path");
    assert_eq!(vfs.alloc_offset(4096), Err(VfsError::Unsupported));
    assert_eq!(vfs.alloc_offset(0), Err(VfsError::Unsupported));
    assert_eq!(vfs.dealloc_offset(4096), Err(VfsError::Unsupported));
    vfs.flush();
}
