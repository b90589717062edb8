//! The hook heap's ledger: reservation arithmetic, capacity failures,
//! and the protection discipline around write sessions.
use hooking::mem::error::MemoryError;
use hooking::mem::linux::LinuxMemoryAllocationInfo;
use hooking::mem::table::HeapState;
use hooking::mem::{AllocationInfo, MemoryProtection};

fn one_page_heap() -> HeapState<LinuxMemoryAllocationInfo> {
    let mut heap = HeapState::empty();
    heap.ensure_allocated(LinuxMemoryAllocationInfo::new(4096, 4096, 0x10000));
    heap
}

#[test]
fn empty_heap_rejects_use() {
    let mut heap: HeapState<LinuxMemoryAllocationInfo> = HeapState::empty();
    assert!(matches!(heap.write_address(), Err(MemoryError::TableHeapNotAllocated)));
    assert!(matches!(heap.reserve(8), Err(MemoryError::TableHeapNotAllocated)));
    assert!(matches!(heap.make_writable(), Err(MemoryError::TableHeapNotAllocated)));
}

#[test]
fn ensure_allocated_is_one_time() {
    let mut heap = one_page_heap();
    heap.ensure_allocated(LinuxMemoryAllocationInfo::new(4096, 8192, 0x40000));
    // The second record is ignored: the first allocation stays.
    assert_eq!(heap.write_address().unwrap(), 0x10000);
    assert_eq!(heap.reserve(4096).unwrap(), 0x10000);
    assert!(heap.reserve(1).is_err());
}

#[test]
fn reserve_advances_and_never_overlaps() {
    let mut heap = one_page_heap();
    let a = heap.reserve(8).unwrap();
    let b = heap.reserve(24).unwrap();
    let c = heap.reserve(1).unwrap();
    // Pairwise disjoint, in order, inside the allocation.
    assert_eq!(a, 0x10000);
    assert_eq!(b, 0x10008);
    assert_eq!(c, 0x10020);
    assert!(a + 8 <= b && b + 24 <= c);
    assert!(c + 1 <= 0x10000 + 4096);
    assert_eq!(heap.write_address().unwrap(), 0x10021);
}

#[test]
fn reserve_reports_needs_and_has() {
    let mut heap = one_page_heap();
    heap.reserve(4000).unwrap();
    match heap.reserve(200) {
        Err(MemoryError::NoMemory { needs, has }) => {
            assert_eq!(needs, 4200);
            assert_eq!(has, 4096);
            assert!(needs > has);
        },
        r => panic!("expected NoMemory, got {:?}", r),
    }
    // The failed reservation did not move the cursor.
    assert_eq!(heap.write_address().unwrap(), 0x10000 + 4000);
}

#[test]
fn write_bytes_records_content() {
    let mut heap = one_page_heap();
    heap.make_writable().unwrap();
    let a = heap.write_bytes(&[1, 2, 3]).unwrap();
    let b = heap.write_bytes(&[4, 5]).unwrap();
    assert_eq!(a, 0x10000);
    assert_eq!(b, 0x10003);
    assert_eq!(heap.content, vec![1, 2, 3, 4, 5]);
    assert_eq!(heap.written, 5);
}

#[test]
fn write_session_rests_executable() {
    let mut heap = one_page_heap();
    heap.make_writable().unwrap();
    assert_eq!(heap.protection, MemoryProtection::ReadWrite);
    heap.write_bytes(&[0x90; 16]).unwrap();
    heap.make_executable().unwrap();
    assert_eq!(heap.protection, MemoryProtection::ReadExecute);
}

#[test]
fn allocation_info_accessors() {
    let info = LinuxMemoryAllocationInfo::new(4096, 16384, 0x7000_0000);
    assert_eq!(info.page_size(), 4096);
    assert_eq!(info.allocation_size(), 16384);
    assert_eq!(info.allocation_start(), 0x7000_0000);
}
