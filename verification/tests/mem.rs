use stackvm::memory::{Memory, MemoryError, HEAP_BASE};
use stackvm::UWord;

#[test]
fn memory_append() {
    let mut mem = Memory::from_limits(2048, 2048);
    mem.stack.expand(4).unwrap();
    assert_eq!(mem.stack.len(), 4);
    assert_eq!(mem.stack.as_slice(), &[0, 0, 0, 0]);

    let mut mem = Memory::from_limits(2048, 2048);
    assert_eq!(mem.stack.expand(UWord::MAX), Err(MemoryError::PageOverflow("stack")));
}

#[test]
fn memory_set_get_stack() {
    let mut mem = Memory::from_limits(2048, 2048);
    mem.stack.expand(9).unwrap();
    mem.set(1, 0xFF000F0A_u64).unwrap();
    assert_eq!(mem.stack.as_slice(), &[0, 10, 15, 0, 255, 0, 0, 0, 0]);

    let value: u64 = mem.get(1).unwrap();
    assert_eq!(value, 0xFF000F0A_u64);
}

#[test]
fn memory_set_get_heap() {
    let mut mem = Memory::from_limits(2048, 2048);
    mem.heap.expand(9).unwrap();
    mem.set(HEAP_BASE + 1, 0xFF000F0A_u64).unwrap();
    assert_eq!(mem.heap.as_slice(), &[0, 10, 15, 0, 255, 0, 0, 0, 0]);

    let value: u64 = mem.get(HEAP_BASE + 1).unwrap();
    assert_eq!(value, 0xFF000F0A_u64);
}

#[test]
fn memory_update() {
    let mut mem = Memory::from_limits(2048, 2048);
    mem.stack.expand(8).unwrap();
    mem.set(0, 1).unwrap();

    mem.update(0, |v: u32| v + 1).unwrap();

    let value: u64 = mem.get(0).unwrap();
    assert_eq!(value, 2);

    mem.update(0, |v: u32| v * v).unwrap();

    let value: u64 = mem.get(0).unwrap();
    assert_eq!(value, 4);
}

#[test]
fn memory_copy() {
    let mut mem = Memory::from_limits(2048, 2048);
    mem.stack.expand(8).unwrap();
    mem.set(0, 12).unwrap();

    mem.heap.expand(8).unwrap();
    mem.copy(HEAP_BASE, 0, 8).unwrap();

    assert_eq!(mem.stack.as_slice(), mem.heap.as_slice());

    let mut mem = Memory::from_limits(2048, 2048);
    mem.heap.expand(8).unwrap();
    mem.set(HEAP_BASE, 0xFF32).unwrap();

    mem.stack.expand(8).unwrap();
    mem.copy(0, HEAP_BASE, 8).unwrap();

    assert_eq!(mem.stack.as_slice(), mem.heap.as_slice());
}

#[test]
fn memory_copy_move() {
    let mut mem = Memory::from_limits(2048, 2048);
    mem.stack.expand(16).unwrap();
    mem.set(0, 0xFF04_u64).unwrap();

    mem.copy(8, 0, 8).unwrap();
    assert_eq!(mem.stack.as_slice(), &[4, 255, 0, 0, 0, 0, 0, 0, 4, 255, 0, 0, 0, 0, 0, 0]);

    let mut mem = Memory::from_limits(2048, 2048);
    mem.heap.expand(16).unwrap();
    mem.set(HEAP_BASE, 0xFF04_u64).unwrap();

    mem.copy(HEAP_BASE + 8, HEAP_BASE, 8).unwrap();
    assert_eq!(mem.heap.as_slice(), &[4, 255, 0, 0, 0, 0, 0, 0, 4, 255, 0, 0, 0, 0, 0, 0]);
}

#[test]
fn memory_copy_segmentation_fault() {
    let mut mem = Memory::from_limits(2048, 2048);
    mem.stack.expand(0).unwrap();
    mem.copy(0, 0, 0).unwrap();

    mem.stack.expand(1).unwrap();
    mem.copy(0, 0, 1).unwrap();
    mem.copy(1, 0, 0).unwrap();
    mem.copy(0, 1, 0).unwrap();
    mem.copy(1, 1, 0).unwrap();

    assert_eq!(mem.copy(1, 0, 1), Err(MemoryError::SegmentationFault(1, 1)));
    assert_eq!(mem.copy(0, 0, 2), Err(MemoryError::SegmentationFault(0, 2)));
}

#[test]
fn memory_copy_wrong_range() {
    let mut mem = Memory::from_limits(2048, 2048);
    mem.stack.expand(2).unwrap();

    assert_eq!(mem.copy(0, 1, UWord::MAX), Err(MemoryError::WrongRange));
}

#[test]
fn memory_set_zeros() {
    let mut mem = Memory::from_limits(2048, 2048);
    mem.stack.expand(16).unwrap();
    mem.set(0, 0xFFFF_u64).unwrap();
    mem.set(8, 0xFFFF_u64).unwrap();
    mem.set_zeros(0, 16).unwrap();

    assert!(mem.stack.as_slice().iter().all(|b| *b == 0));

    let mut mem = Memory::from_limits(2048, 2048);
    mem.heap.expand(16).unwrap();
    mem.set(HEAP_BASE, 0xFFFF_u64).unwrap();
    mem.set(HEAP_BASE + 8, 0xFFFF_u64).unwrap();
    mem.set_zeros(HEAP_BASE, 16).unwrap();

    assert!(mem.heap.as_slice().iter().all(|b| *b == 0));
}

#[test]
fn memory_memory_append() {
    let mut mem = Memory::new();
    mem.stack.expand(4).unwrap();
    assert_eq!(mem.stack.len(), 4);
    assert_eq!(mem.stack.as_slice(), &[0, 0, 0, 0]);

    let mut mem = Memory::new();
    assert_eq!(mem.stack.expand(UWord::MAX), Err(MemoryError::PageOverflow("stack")));
}

#[test]
fn memory_memory_set_get_stack() {
    let mut mem = Memory::new();
    mem.stack.expand(9).unwrap();
    mem.set(1, 0xFF000F0A_u64).unwrap();
    assert_eq!(mem.stack.as_slice(), &[0, 10, 15, 0, 255, 0, 0, 0, 0]);

    let value: u64 = mem.get(1).unwrap();
    assert_eq!(value, 0xFF000F0A_u64);
}

#[test]
fn memory_memory_set_get_heap() {
    let mut mem = Memory::new();
    mem.heap.expand(9).unwrap();
    mem.set(HEAP_BASE + 1, 0xFF000F0A_u64).unwrap();
    assert_eq!(mem.heap.as_slice(), &[0, 10, 15, 0, 255, 0, 0, 0, 0]);

    let value: u64 = mem.get(HEAP_BASE + 1).unwrap();
    assert_eq!(value, 0xFF000F0A_u64);
}

#[test]
fn memory_memory_update() {
    let mut mem = Memory::new();
    mem.stack.expand(8).unwrap();
    mem.set(0, 1).unwrap();

    mem.update(0, |v: u32| v + 1).unwrap();

    let value: u64 = mem.get(0).unwrap();
    assert_eq!(value, 2);

    mem.update(0, |v: u32| v * v).unwrap();

    let value: u64 = mem.get(0).unwrap();
    assert_eq!(value, 4);
}

#[test]
fn memory_memory_copy_move() {
    let mut mem = Memory::new();
    mem.stack.expand(16).unwrap();
    mem.set(0, 0xFF04_u64).unwrap();

    mem.copy(8, 0, 8).unwrap();
    assert_eq!(mem.stack.as_slice(), &[4, 255, 0, 0, 0, 0, 0, 0, 4, 255, 0, 0, 0, 0, 0, 0]);
}

#[test]
fn memory_memory_copy_wrong_range() {
    let mut mem = Memory::new();
    mem.stack.expand(2).unwrap();

    assert_eq!(mem.copy(0, 1, UWord::MAX), Err(MemoryError::WrongRange));
}

#[test]
fn memory_reserve_global() {
    let mut mem = Memory::new();
    mem.reserve_global(8).unwrap();
    assert_eq!(mem.heap.len(), 8);
    assert_eq!(mem.reserve_global(4), Err(MemoryError::HeapAlreadyUsed));
}

#[test]
fn memory_narrow() {
    let mut mem = Memory::new();
    mem.stack.expand(8).unwrap();
    mem.stack.narrow(3).unwrap();
    assert_eq!(mem.stack.len(), 5);
    assert_eq!(mem.stack.narrow(6), Err(MemoryError::RageUnderflow("stack")));
}

#[test]
fn memory_copy_wrong_range_across_pages() {
    let mut mem = Memory::from_limits(2048, 2048);
    mem.stack.expand(8).unwrap();
    mem.heap.expand(8).unwrap();

    // the source range's end wraps below its start in the flat space
    assert_eq!(mem.copy(0, HEAP_BASE + 1, UWord::MAX), Err(MemoryError::WrongRange));
    assert_eq!(mem.copy(HEAP_BASE, 1, UWord::MAX), Err(MemoryError::WrongRange));
}
