//! End-to-end hook creation over a modeled heap, and the apply/remove
//! lifecycle.
use hooking::error::HookingError;
use hooking::hooks::{Hook, HookWriter};
use hooking::mem::error::MemoryError;
use hooking::mem::linux::LinuxMemoryAllocationInfo;
use hooking::mem::table::HeapState;
use hooking::mem::MemoryProtection;
use hooking::PATCH_SIZE;

fn rel32(ip_after: u64, dest: u64) -> [u8; 4] {
    (dest.wrapping_sub(ip_after) as u32).to_le_bytes()
}

fn heap_at(start: u64, size: usize) -> HeapState<LinuxMemoryAllocationInfo> {
    let mut heap = HeapState::empty();
    heap.ensure_allocated(LinuxMemoryAllocationInfo::new(4096, size, start));
    heap
}

/// A plain prologue: PUSH RBP; MOV RBP, RSP; NOP; then padding.
fn plain_prefix() -> Vec<u8> {
    let mut p = vec![0x55u8, 0x48, 0x89, 0xE5, 0x90];
    p.extend_from_slice(&[0xCC; 20]);
    p
}

#[test]
fn write_hook_table_lays_out_heap() {
    let mut heap = heap_at(0x10000, 4096);
    let writer = HookWriter::new();
    let target = 0x5000u64;
    let dest = 0x7000u64;
    let prefix = plain_prefix();
    let hd = writer.write_hook_table(&mut heap, target, dest, &prefix).unwrap();

    let slot = 0x10000u64;
    let tramp = slot + 8;
    let stub = tramp + 13;

    // The patch jumps from the target to the trampoline.
    let mut patch = vec![0xE9u8];
    patch.extend_from_slice(&rel32(target + 5, tramp));
    assert_eq!(hd.patch_bytes, patch);
    assert_eq!(hd.original_bytes, &prefix[0..5]);
    assert_eq!(hd.symbol_address, target);

    // The trampoline loads R10 from the slot and jumps to the
    // destination.
    let mut tr = vec![0x4Cu8, 0x8B, 0x15];
    tr.extend_from_slice(&rel32(tramp + 7, slot));
    tr.push(0xE9);
    tr.extend_from_slice(&rel32(tramp + 12, dest));
    tr.push(0x90);
    assert_eq!(hd.trampoline_data, tr);

    // The call stub re-emits the three plain instructions and jumps
    // back past the patched region.
    let mut st = prefix[0..5].to_vec();
    st.push(0xE9);
    st.extend_from_slice(&rel32(stub + 5 + 5, target + 5));
    st.push(0x90);
    assert_eq!(hd.restore_data, st);

    // Heap content: slot holding the stub address, trampoline, stub;
    // at rest the region is executable again.
    let mut content = stub.to_le_bytes().to_vec();
    content.extend_from_slice(&hd.trampoline_data);
    content.extend_from_slice(&hd.restore_data);
    assert_eq!(heap.content, content);
    assert_eq!(heap.written, 8 + 13 + hd.restore_data.len());
    assert_eq!(heap.protection, MemoryProtection::ReadExecute);
}

#[test]
fn write_hook_fn_ptr_rejects_null() {
    let mut heap = heap_at(0x10000, 4096);
    let writer = HookWriter::new();
    let prefix = plain_prefix();
    assert_eq!(
        writer.write_hook_fn_ptr(&mut heap, 0, 0x7000, &prefix),
        Err(HookingError::InvalidTarget(0))
    );
    assert_eq!(
        writer.write_hook_fn_ptr(&mut heap, 0x5000, 0, &prefix),
        Err(HookingError::InvalidDestination(0))
    );
    assert_eq!(heap.written, 0);
}

#[test]
fn unallocated_heap_is_reported() {
    let mut heap: HeapState<LinuxMemoryAllocationInfo> = HeapState::empty();
    let writer = HookWriter::new();
    let prefix = plain_prefix();
    assert_eq!(
        writer.write_hook_table(&mut heap, 0x5000, 0x7000, &prefix),
        Err(HookingError::MemoryError(MemoryError::TableHeapNotAllocated))
    );
}

#[test]
fn far_heap_is_out_of_patch_range() {
    // The target sits just over 2 GiB above the trampoline: the
    // patch's `JMP rel32` cannot reach it, while the call stub's back
    // jump — a few dozen bytes shorter — still can, and the
    // destination sits near the heap so the trampoline assembles.
    let mut heap = heap_at(0x10000, 4096);
    let writer = HookWriter::new();
    let prefix = plain_prefix();
    let target = 0x10000u64 + 0x8000_0010;
    let r = writer.write_hook_table(&mut heap, target, 0x12000, &prefix);
    assert_eq!(r, Err(HookingError::PatchOutOfRange));
    assert_eq!(heap.protection, MemoryProtection::ReadExecute);
}

#[test]
fn heap_exhaustion_reports_needs_over_has() {
    // One page of heap; each hook takes 8 + 13 + stub bytes. Creating
    // hooks in a loop must end in NoMemory with needs above has.
    let mut heap = heap_at(0x10000, 4096);
    let writer = HookWriter::new();
    let prefix = plain_prefix();
    let mut made: usize = 0;
    loop {
        match writer.write_hook_table(&mut heap, 0x5000, 0x7000, &prefix) {
            Ok(_) => {
                made += 1;
                assert!(made <= 4096 / 21);
            },
            Err(HookingError::MemoryError(MemoryError::NoMemory { needs, has })) => {
                assert!(needs > has);
                assert_eq!(has, 4096);
                break;
            },
            Err(e) => panic!("unexpected error {:?}", e),
        }
    }
    assert!(made > 0);
    assert_eq!(heap.protection, MemoryProtection::ReadExecute);
}

#[test]
fn apply_and_remove_rewrite_target_bytes() {
    let mut heap = heap_at(0x10000, 4096);
    let writer = HookWriter::new();
    let prefix = plain_prefix();
    let mut hook: Hook = writer.write_hook_fn_ptr(&mut heap, 0x5000, 0x7000, &prefix).unwrap();
    assert!(!hook.applied);

    let mut target_bytes = prefix[0..PATCH_SIZE].to_vec();
    hook.apply_hook(&mut target_bytes).unwrap();
    assert!(hook.applied);
    assert_eq!(target_bytes, hook.data.patch_bytes);

    hook.remove_hook(&mut target_bytes).unwrap();
    assert!(!hook.applied);
    assert_eq!(target_bytes, hook.data.original_bytes);
    assert_eq!(target_bytes, &prefix[0..PATCH_SIZE]);
}

#[test]
fn double_apply_and_double_remove_are_noops() {
    let mut heap = heap_at(0x10000, 4096);
    let writer = HookWriter::new();
    let prefix = plain_prefix();
    let mut hook: Hook = writer.write_hook_fn_ptr(&mut heap, 0x5000, 0x7000, &prefix).unwrap();

    let mut target_bytes = prefix[0..PATCH_SIZE].to_vec();
    assert_eq!(hook.apply_hook(&mut target_bytes), Ok(()));
    assert_eq!(hook.apply_hook(&mut target_bytes), Ok(()));
    assert_eq!(target_bytes, hook.data.patch_bytes);
    assert_eq!(hook.remove_hook(&mut target_bytes), Ok(()));
    assert_eq!(hook.remove_hook(&mut target_bytes), Ok(()));
    assert_eq!(target_bytes, hook.data.original_bytes);
}

#[test]
fn hooks_share_the_heap_without_overlap() {
    let mut heap = heap_at(0x10000, 4096);
    let writer = HookWriter::new();
    let prefix = plain_prefix();
    let before = heap.written;
    let first = writer.write_hook_table(&mut heap, 0x5000, 0x7000, &prefix).unwrap();
    let middle = heap.written;
    let second = writer.write_hook_table(&mut heap, 0x5100, 0x7100, &prefix).unwrap();
    let after = heap.written;
    assert!(before < middle && middle < after);
    // The second hook's regions start where the first ended.
    assert_eq!(middle - before, 8 + 13 + first.restore_data.len());
    assert_eq!(after - middle, 8 + 13 + second.restore_data.len());
}

#[test]
fn undecodable_target_is_an_assembly_error() {
    // A prefix that decodes to an invalid instruction cannot be
    // relocated.
    let mut heap = heap_at(0x10000, 4096);
    let writer = HookWriter::new();
    let prefix = vec![0x06u8; 25];
    let r = writer.write_hook_table(&mut heap, 0x5000, 0x7000, &prefix);
    assert!(matches!(r, Err(HookingError::AssemblyError(_))));
    assert_eq!(heap.protection, MemoryProtection::ReadExecute);
}
