//! Hooks and the hook writer: composing the heap and the assembler
//! into a hook record, and the apply/remove lifecycle over the
//! target's patched bytes.
//!
//! The actual stores into executable memory are performed by the
//! unverified shell: it reads the target's first bytes into a buffer,
//! lets `apply_hook` / `remove_hook` rewrite that buffer, and copies
//! it back under a protection guard. The lifecycle logic itself — what
//! the bytes must be in each state — is all here.
use vstd::prelude::*;

use crate::assembler::decode::{
    spec_consumed, spec_relocated_stream, spec_stream_outcome, StreamOutcome,
};
use crate::assembler::encode::{push_le64, rel32_fits, rel32_reachable, spec_jmp_rel32, spec_le64, spec_trampoline};
use crate::assembler::error::AssemblyError;
use crate::assembler::x86_64::{back_jump_fits, HookAssemblerx86_64};
use crate::error::HookingError;
use crate::mem::error::MemoryError;
use crate::mem::table::{needed_capacity, HeapState};
use crate::mem::{AllocationInfo, MemoryProtection};
use crate::PATCH_SIZE;

verus! {

/// Everything recorded at hook-creation time: where the target is,
/// the bytes living in the hook heap, and the two byte images of the
/// target's prologue.
#[derive(Debug, Clone, PartialEq, Eq)]
pub struct HookData {
    /// Address of the target function T.
    pub symbol_address: u64,
    /// The trampoline bytes placed in the hook heap.
    pub trampoline_data: Vec<u8>,
    /// The call-stub bytes placed in the hook heap: the relocated
    /// prologue followed by a jump back into T.
    pub restore_data: Vec<u8>,
    /// The patch written over T's first bytes on apply.
    pub patch_bytes: Vec<u8>,
    /// T's original first bytes, restored on remove.
    pub original_bytes: Vec<u8>,
}

/// An installable hook: immutable data plus the `applied` flag.
#[derive(Debug, Clone, PartialEq, Eq)]
pub struct Hook {
    pub data: HookData,
    pub applied: bool,
}

/// The mathematical image of a hook.
pub ghost struct HookView {
    pub symbol_address: u64,
    pub trampoline: Seq<u8>,
    pub restore: Seq<u8>,
    pub patch: Seq<u8>,
    pub original: Seq<u8>,
    pub applied: bool,
}

impl View for Hook {
    type V = HookView;

    open spec fn view(&self) -> HookView {
        HookView {
            symbol_address: self.data.symbol_address,
            trampoline: self.data.trampoline_data@,
            restore: self.data.restore_data@,
            patch: self.data.patch_bytes@,
            original: self.data.original_bytes@,
            applied: self.applied,
        }
    }
}

impl HookView {
    /// Both byte images cover exactly the patch region.
    pub open spec fn wf(self) -> bool {
        self.patch.len() == PATCH_SIZE && self.original.len() == PATCH_SIZE
    }
}

/// Applying a hook: a no-op when already applied, otherwise the
/// target's first bytes become the patch and the hook is applied.
pub open spec fn spec_apply(h: HookView, mem: Seq<u8>) -> (HookView, Seq<u8>) {
    if h.applied {
        (h, mem)
    } else {
        (HookView { applied: true, ..h }, h.patch)
    }
}

/// Removing a hook: a no-op when not applied, otherwise the target's
/// first bytes become the original snapshot and the hook is no longer
/// applied.
pub open spec fn spec_remove(h: HookView, mem: Seq<u8>) -> (HookView, Seq<u8>) {
    if !h.applied {
        (h, mem)
    } else {
        (HookView { applied: false, ..h }, h.original)
    }
}

/// The tie between a hook and the target's first bytes: while applied
/// they are the patch, otherwise the original snapshot.
pub open spec fn hook_consistent(h: HookView, mem: Seq<u8>) -> bool {
    if h.applied {
        mem == h.patch
    } else {
        mem == h.original
    }
}

/// While a hook is applied, the target's first bytes are its patch
/// bytes; both lifecycle operations preserve the tie between hook
/// state and target bytes, whatever state they start from.
pub proof fn lemma_lifecycle_consistent(h: HookView, mem: Seq<u8>)
    requires
        hook_consistent(h, mem),
    ensures
        hook_consistent(spec_apply(h, mem).0, spec_apply(h, mem).1),
        spec_apply(h, mem).0.applied,
        spec_apply(h, mem).1 == h.patch,
        hook_consistent(spec_remove(h, mem).0, spec_remove(h, mem).1),
        !spec_remove(h, mem).0.applied,
        spec_remove(h, mem).1 == h.original,
{
}

/// Applying and then removing a hook always leaves the target's first
/// bytes equal to the original snapshot, and the hook unapplied, no
/// matter what state it started in.
pub proof fn lemma_apply_remove_restores(h: HookView, mem: Seq<u8>)
    ensures
        ({
            let (h1, m1) = spec_apply(h, mem);
            let (h2, m2) = spec_remove(h1, m1);
            &&& m2 == h.original
            &&& !h2.applied
            &&& h2 == (HookView { applied: false, ..h })
        }),
{
}

/// Both lifecycle operations are idempotent: applying twice leaves
/// exactly the state of applying once, and likewise for removing.
pub proof fn lemma_lifecycle_idempotent(h: HookView, mem: Seq<u8>)
    ensures
        spec_apply(spec_apply(h, mem).0, spec_apply(h, mem).1) == spec_apply(h, mem),
        spec_remove(spec_remove(h, mem).0, spec_remove(h, mem).1) == spec_remove(h, mem),
{
}

impl Hook {
    /// Installs the patch: rewrites the target's first bytes, handed
    /// in as `target_bytes`, to the patch image, and marks the hook
    /// applied. A no-op when already applied. Never fails.
    pub fn apply_hook(&mut self, target_bytes: &mut Vec<u8>) -> (r: Result<(), HookingError>)
        requires
            old(self)@.wf(),
            old(target_bytes)@.len() == PATCH_SIZE,
        ensures
            final(self)@.wf(),
            r is Ok,
            final(self)@ == spec_apply(old(self)@, old(target_bytes)@).0,
            final(target_bytes)@ == spec_apply(old(self)@, old(target_bytes)@).1,
            final(target_bytes)@.len() == PATCH_SIZE,
    {
        if self.applied {
            return Ok(());
        }
        target_bytes.clear();
        target_bytes.extend_from_slice(self.data.patch_bytes.as_slice());
        self.applied = true;
        assert(target_bytes@ =~= self.data.patch_bytes@);
        Ok(())
    }

    /// Reverts the patch: rewrites the target's first bytes to the
    /// original snapshot and marks the hook unapplied. A no-op when
    /// not applied. Never fails.
    pub fn remove_hook(&mut self, target_bytes: &mut Vec<u8>) -> (r: Result<(), HookingError>)
        requires
            old(self)@.wf(),
            old(target_bytes)@.len() == PATCH_SIZE,
        ensures
            final(self)@.wf(),
            r is Ok,
            final(self)@ == spec_remove(old(self)@, old(target_bytes)@).0,
            final(target_bytes)@ == spec_remove(old(self)@, old(target_bytes)@).1,
            final(target_bytes)@.len() == PATCH_SIZE,
    {
        if !self.applied {
            return Ok(());
        }
        target_bytes.clear();
        target_bytes.extend_from_slice(self.data.original_bytes.as_slice());
        self.applied = false;
        assert(target_bytes@ =~= self.data.original_bytes@);
        Ok(())
    }
}

/// What a successful hook creation leaves behind, in terms of the
/// heap state `pre` before the call: an eight-byte call-stub slot at
/// the old cursor holding the call stub's address, the thirteen-byte
/// trampoline right after it, then the call stub — the decode walk's
/// relocation of the target's prologue, ending with a jump back into
/// the target past the patched region. The patch is a `JMP rel32`
/// from the target to the trampoline, and the original bytes are the
/// target's first bytes as they were read.
pub open spec fn hook_layout<A: AllocationInfo>(
    pre: HeapState<A>,
    sym_addr: u64,
    destination_fn: u64,
    prefix: Seq<u8>,
    hd: HookData,
    post: HeapState<A>,
) -> bool {
    let slot = (pre.start() + pre.written) as u64;
    let tramp = (pre.start() + pre.written + 8) as u64;
    let stub = (pre.start() + pre.written + 21) as u64;
    let body = spec_relocated_stream(prefix, sym_addr, PATCH_SIZE as int, 0);
    let consumed = spec_consumed(prefix, sym_addr, PATCH_SIZE as int, 0);
    &&& hd.symbol_address == sym_addr
    &&& hd.patch_bytes@ == spec_jmp_rel32(sym_addr, tramp)
    &&& hd.patch_bytes@.len() == PATCH_SIZE
    &&& rel32_fits((sym_addr + PATCH_SIZE) as u64, tramp)
    &&& PATCH_SIZE <= consumed && consumed < PATCH_SIZE + 15 && consumed <= prefix.len()
    &&& hd.original_bytes@ == prefix.subrange(0, PATCH_SIZE as int)
    &&& hd.trampoline_data@ == spec_trampoline(tramp, destination_fn, slot)
    &&& hd.restore_data@ == body + spec_jmp_rel32(
        (stub + body.len()) as u64,
        (sym_addr + consumed) as u64,
    ) + seq![0x90u8]
    &&& post.allocation == pre.allocation
    &&& post.written == pre.written + 21 + hd.restore_data@.len()
    &&& post.content@ == pre.content@ + spec_le64(stub) + hd.trampoline_data@ + hd.restore_data@
    &&& post.protection == MemoryProtection::ReadExecute
}

/// The first check hook creation fails, in the order the writer makes
/// them.
#[derive(Debug, Clone, Copy, PartialEq, Eq, Structural)]
pub enum CreationFailure {
    /// The heap has no allocation yet.
    NotAllocated,
    /// No room left for the eight-byte call-stub slot.
    SlotRoom,
    /// No room left for the thirteen-byte trampoline.
    TrampolineRoom,
    /// The trampoline's jump cannot reach the destination.
    TrampolineRange,
    /// The target's first instructions do not decode across the patch
    /// region.
    Undecodable,
    /// A RIP-relative instruction is refused by the encoder.
    Unencodable,
    /// The call stub's back jump cannot reach past the patched region.
    BackJumpRange,
    /// The patch's jump cannot reach the trampoline.
    PatchRange,
    /// No room left for the call stub.
    StubRoom,
}

/// The first failing creation check for a hook on `sym_addr` (whose
/// first bytes are `prefix`) diverting to `destination_fn`, laid out
/// at heap state `pre` — or `None` when creation succeeds.
pub open spec fn spec_creation_error<A: AllocationInfo>(
    pre: HeapState<A>,
    sym_addr: u64,
    destination_fn: u64,
    prefix: Seq<u8>,
) -> Option<CreationFailure> {
    let tramp = (pre.start() + pre.written + 8) as u64;
    let stub = (pre.start() + pre.written + 21) as u64;
    let outcome = spec_stream_outcome(prefix, sym_addr, PATCH_SIZE as int, 0);
    let body = spec_relocated_stream(prefix, sym_addr, PATCH_SIZE as int, 0);
    if !pre.is_allocated() {
        Some(CreationFailure::NotAllocated)
    } else if pre.written + 8 > pre.capacity() {
        Some(CreationFailure::SlotRoom)
    } else if pre.written + 21 > pre.capacity() {
        Some(CreationFailure::TrampolineRoom)
    } else if !rel32_fits((tramp + 12) as u64, destination_fn) {
        Some(CreationFailure::TrampolineRange)
    } else if outcome == StreamOutcome::Undecodable {
        Some(CreationFailure::Undecodable)
    } else if outcome == StreamOutcome::Unencodable {
        Some(CreationFailure::Unencodable)
    } else if !back_jump_fits(prefix, sym_addr, PATCH_SIZE as int, stub) {
        Some(CreationFailure::BackJumpRange)
    } else if !rel32_fits((sym_addr + PATCH_SIZE) as u64, tramp) {
        Some(CreationFailure::PatchRange)
    } else if pre.written + 21 + body.len() + 6 > pre.capacity() {
        Some(CreationFailure::StubRoom)
    } else {
        None
    }
}

/// The error a failed creation returns, by the first failing check:
/// room failures carry the exact needed and held capacities, an
/// undecodable prologue is `RelocationError`, encoder and range
/// refusals inside assembly carry a message, and an unreachable patch
/// is `PatchOutOfRange`.
pub open spec fn creation_error_matches<A: AllocationInfo>(
    pre: HeapState<A>,
    sym_addr: u64,
    destination_fn: u64,
    prefix: Seq<u8>,
    e: HookingError,
) -> bool {
    let body = spec_relocated_stream(prefix, sym_addr, PATCH_SIZE as int, 0);
    match spec_creation_error(pre, sym_addr, destination_fn, prefix) {
        Some(f) => match f {
            CreationFailure::NotAllocated => e == HookingError::MemoryError(
                MemoryError::TableHeapNotAllocated,
            ),
            CreationFailure::SlotRoom => e == HookingError::MemoryError(
                (MemoryError::NoMemory {
                    needs: needed_capacity(pre.written, 8),
                    has: pre.capacity(),
                }),
            ),
            CreationFailure::TrampolineRoom => e == HookingError::MemoryError(
                (MemoryError::NoMemory {
                    needs: needed_capacity(pre.written, 21),
                    has: pre.capacity(),
                }),
            ),
            CreationFailure::TrampolineRange => e matches HookingError::AssemblyError(
                AssemblyError::AssemblyError(_),
            ),
            CreationFailure::Undecodable => e == HookingError::AssemblyError(
                AssemblyError::RelocationError,
            ),
            CreationFailure::Unencodable => e matches HookingError::AssemblyError(
                AssemblyError::AssemblyError(_),
            ),
            CreationFailure::BackJumpRange => e matches HookingError::AssemblyError(
                AssemblyError::AssemblyError(_),
            ),
            CreationFailure::PatchRange => e == HookingError::PatchOutOfRange,
            CreationFailure::StubRoom => e == HookingError::MemoryError(
                (MemoryError::NoMemory {
                    needs: needed_capacity(((pre.written + 21) as usize), body.len() + 6),
                    has: pre.capacity(),
                }),
            ),
        },
        None => false,
    }
}

/// Builds hooks: composes the heap and the assembler into a hook
/// record.
pub struct HookWriter;

impl HookWriter {
    pub fn new() -> Self {
        Self
    }

    /// Lays a complete hook out in the hook heap for the target at
    /// `sym_addr`, whose first bytes were read into `target_prefix`,
    /// diverting to `destination_fn`: reserves the call-stub slot,
    /// writes the trampoline and the relocated call stub, patches the
    /// slot with the stub's address, and returns the record. Succeeds
    /// exactly when every creation check passes
    /// (`spec_creation_error`); already-reserved heap bytes are never
    /// rewritten, and the heap rests executable-readable again on
    /// every exit.
    pub fn write_hook_table<A: AllocationInfo>(
        &self,
        heap: &mut HeapState<A>,
        sym_addr: u64,
        destination_fn: u64,
        target_prefix: &Vec<u8>,
    ) -> (r: Result<HookData, HookingError>)
        requires
            old(heap).wf(),
            sym_addr + target_prefix@.len() <= u64::MAX,
        ensures
            final(heap).wf(),
            final(heap).allocation == old(heap).allocation,
            old(heap).written <= final(heap).written,
            final(heap).content@.subrange(0, old(heap).written as int) == old(heap).content@,
            !old(heap).is_allocated() ==> final(heap).written == old(heap).written
                && final(heap).content@ == old(heap).content@
                && final(heap).protection == old(heap).protection,
            old(heap).is_allocated() ==> final(heap).protection
                == MemoryProtection::ReadExecute,
            r is Ok <==> spec_creation_error(
                *old(heap),
                sym_addr,
                destination_fn,
                target_prefix@,
            ) is None,
            r matches Ok(hd) ==> hook_layout(
                *old(heap),
                sym_addr,
                destination_fn,
                target_prefix@,
                hd,
                *final(heap),
            ),
            r matches Err(e) ==> creation_error_matches(
                *old(heap),
                sym_addr,
                destination_fn,
                target_prefix@,
                e,
            ),
    {
        let assembler = HookAssemblerx86_64::new();
        // Everything below runs under the writable protection, which
        // is restored before every exit; the flip fails only when the
        // heap has no allocation yet.
        match heap.make_writable() {
            Ok(()) => {},
            Err(e) => {
                return Err(HookingError::MemoryError(e));
            },
        }
        let base_written: usize = heap.written;
        // The eight-byte call-stub slot, placeholder bytes until the
        // call stub's address is known.
        let placeholder: Vec<u8> = vec![0xAAu8; 8];
        let slot_addr: u64 = match heap.write_bytes(placeholder.as_slice()) {
            Ok(a) => a,
            Err(e) => {
                let _ = heap.make_executable();
                return Err(HookingError::MemoryError(e));
            },
        };
        // Check the room for the thirteen-byte trampoline before
        // assembling at its address, so the address cannot wrap.
        let cap: usize = match &heap.allocation {
            Some(a) => a.allocation_size(),
            None => 0,
        };
        if 13 > cap - heap.written {
            let needs: usize = if 13 <= usize::MAX - heap.written {
                heap.written + 13
            } else {
                usize::MAX
            };
            let _ = heap.make_executable();
            return Err(HookingError::MemoryError(MemoryError::NoMemory { needs, has: cap }));
        }
        let rip: u64 = slot_addr + 8;
        let trampoline: Vec<u8> = match assembler.assemble_trampoline(
            rip,
            destination_fn,
            Some(slot_addr),
        ) {
            Ok(v) => v,
            Err(e) => {
                let _ = heap.make_executable();
                return Err(HookingError::AssemblyError(e));
            },
        };
        let tramp_addr: u64 = match heap.write_bytes(trampoline.as_slice()) {
            Ok(a) => a,
            Err(e) => {
                let _ = heap.make_executable();
                return Err(HookingError::MemoryError(e));
            },
        };
        assert(tramp_addr == rip);
        let stub_addr: u64 = tramp_addr + 13;
        let stub: Vec<u8> = match assembler.relocate_instructions(
            stub_addr,
            sym_addr,
            target_prefix,
            PATCH_SIZE,
            true,
        ) {
            Ok(v) => v,
            Err(e) => {
                let _ = heap.make_executable();
                return Err(HookingError::AssemblyError(e));
            },
        };
        // The patch's jump must reach the trampoline from the target.
        if !rel32_reachable(sym_addr + (PATCH_SIZE as u64), tramp_addr) {
            let _ = heap.make_executable();
            return Err(HookingError::PatchOutOfRange);
        }
        let patch: Vec<u8> = match assembler.assemble_patch(sym_addr, tramp_addr) {
            Ok(v) => v,
            Err(e) => {
                let _ = heap.make_executable();
                return Err(HookingError::AssemblyError(e));
            },
        };
        let stub_written_at: u64 = match heap.write_bytes(stub.as_slice()) {
            Ok(a) => a,
            Err(e) => {
                let _ = heap.make_executable();
                return Err(HookingError::MemoryError(e));
            },
        };
        assert(stub_written_at == stub_addr);
        // One-shot patch of the slot with the call stub's address:
        // the slot still holds its placeholder bytes, everything after
        // it was only appended.
        let mut slot_value: Vec<u8> = Vec::new();
        push_le64(&mut slot_value, stub_addr);
        proof {
            assert(heap.content@.subrange(base_written as int, base_written as int + 8)
                =~= Seq::new(8, |i: int| 0xAAu8));
        }
        heap.fill_reserved(base_written, slot_value.as_slice());
        let _ = heap.make_executable();
        let original: Vec<u8> = crate::assembler::decode::copy_range(target_prefix, 0, PATCH_SIZE);
        let hd = HookData {
            symbol_address: sym_addr,
            trampoline_data: trampoline,
            restore_data: stub,
            patch_bytes: patch,
            original_bytes: original,
        };
        proof {
            assert(heap.content@ =~= old(heap).content@ + spec_le64(stub_addr)
                + hd.trampoline_data@ + hd.restore_data@);
            assert(heap.content@.subrange(0, old(heap).written as int) =~= old(heap).content@);
        }
        Ok(hd)
    }

    /// Creates a hook diverting `target` to `destination`, rejecting
    /// null addresses first, and returns it unapplied. Past the null
    /// gates, success and failure are exactly those of
    /// `write_hook_table`.
    pub fn write_hook_fn_ptr<A: AllocationInfo>(
        &self,
        heap: &mut HeapState<A>,
        target: u64,
        destination: u64,
        target_prefix: &Vec<u8>,
    ) -> (r: Result<Hook, HookingError>)
        requires
            old(heap).wf(),
            target + target_prefix@.len() <= u64::MAX,
        ensures
            final(heap).wf(),
            final(heap).allocation == old(heap).allocation,
            old(heap).written <= final(heap).written,
            final(heap).content@.subrange(0, old(heap).written as int) == old(heap).content@,
            target == 0 ==> r == Err::<Hook, HookingError>(HookingError::InvalidTarget(0))
                && final(heap).written == old(heap).written
                && final(heap).content@ == old(heap).content@
                && final(heap).protection == old(heap).protection,
            target != 0 && destination == 0 ==> r == Err::<Hook, HookingError>(
                HookingError::InvalidDestination(0),
            ) && final(heap).written == old(heap).written
                && final(heap).content@ == old(heap).content@
                && final(heap).protection == old(heap).protection,
            target != 0 && destination != 0 ==> {
                &&& (r is Ok <==> spec_creation_error(
                    *old(heap),
                    target,
                    destination,
                    target_prefix@,
                ) is None)
                &&& old(heap).is_allocated() ==> final(heap).protection
                    == MemoryProtection::ReadExecute
                &&& (r matches Err(e) ==> creation_error_matches(
                    *old(heap),
                    target,
                    destination,
                    target_prefix@,
                    e,
                ))
            },
            r matches Ok(h) ==> target != 0 && destination != 0 && h.applied == false && h@.wf()
                && hook_layout(
                *old(heap),
                target,
                destination,
                target_prefix@,
                h.data,
                *final(heap),
            ),
    {
        if target == 0 {
            return Err(HookingError::InvalidTarget(0));
        }
        if destination == 0 {
            return Err(HookingError::InvalidDestination(0));
        }
        let data = match self.write_hook_table(heap, target, destination, target_prefix) {
            Ok(d) => d,
            Err(e) => {
                return Err(e);
            },
        };
        Ok(Hook { data, applied: false })
    }
}

} // verus!
