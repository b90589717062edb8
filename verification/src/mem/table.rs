//! The hook heap: a single bump-allocated region whose pages rest
//! executable-readable and become writable only for the duration of a
//! write session.
//!
//! This type is the heap's ledger. It records the one-time allocation,
//! the cursor of bytes handed out, the bytes written so far, and the
//! protection the region currently carries. The unverified shell owns
//! the real mapping and mirrors every operation recorded here onto it:
//! it copies `content` into the mapping after writes and performs the
//! protection syscalls that `make_writable` and `make_executable`
//! account for. Regions once reserved are never handed out again.
use vstd::prelude::*;

use crate::mem::error::MemoryError;
use crate::mem::{AllocationInfo, MemoryProtection};

verus! {

/// State of the hook heap: one optional allocation and a cursor that
/// only ever advances.
pub struct HeapState<A: AllocationInfo> {
    /// The one-time allocation, absent until the first use.
    pub allocation: Option<A>,
    /// Number of bytes reserved so far from the start of the region.
    pub written: usize,
    /// The bytes the heap holds at rest: one entry per reserved byte.
    /// Reserved-but-unwritten space is zero, as anonymous mappings are.
    pub content: Vec<u8>,
    /// Protection currently applied to the whole region.
    pub protection: MemoryProtection,
}

impl<A: AllocationInfo> HeapState<A> {
    /// The heap has its backing region.
    pub open spec fn is_allocated(&self) -> bool {
        self.allocation is Some
    }

    /// Address of the first byte of the backing region.
    pub open spec fn start(&self) -> u64 {
        self.allocation->Some_0.spec_allocation_start()
    }

    /// Total size of the backing region in bytes.
    pub open spec fn capacity(&self) -> usize {
        self.allocation->Some_0.spec_allocation_size()
    }

    /// Well-formedness: the ledger covers exactly the reserved bytes,
    /// the cursor stays within the allocation, and the region's address
    /// range does not wrap.
    pub open spec fn wf(&self) -> bool {
        &&& self.content@.len() == self.written
        &&& match self.allocation {
            Some(a) => {
                &&& self.written <= a.spec_allocation_size()
                &&& a.spec_allocation_start() + a.spec_allocation_size() <= u64::MAX
            },
            None => self.written == 0,
        }
    }

    /// A heap with no allocation yet; fresh mappings arrive writable,
    /// so the recorded protection starts as `ReadWrite`.
    pub fn empty() -> (r: Self)
        ensures
            r.wf(),
            !r.is_allocated(),
            r.written == 0,
            r.content@ =~= Seq::<u8>::empty(),
            r.protection == MemoryProtection::ReadWrite,
    {
        HeapState { allocation: None, written: 0, content: Vec::new(), protection: MemoryProtection::ReadWrite }
    }

    /// Installs the backing region on first use; later calls change
    /// nothing. The caller performs the actual mapping and passes its
    /// record here. A fresh anonymous mapping is readable and writable.
    pub fn ensure_allocated(&mut self, info: A)
        requires
            old(self).wf(),
            info.spec_allocation_start() + info.spec_allocation_size() <= u64::MAX,
        ensures
            final(self).wf(),
            final(self).is_allocated(),
            final(self).written == old(self).written,
            final(self).content@ == old(self).content@,
            old(self).is_allocated() ==> final(self).allocation == old(self).allocation
                && final(self).protection == old(self).protection,
            !old(self).is_allocated() ==> final(self).allocation == (Some(info))
                && final(self).protection == MemoryProtection::ReadWrite,
    {
        if self.allocation.is_none() {
            self.allocation = Some(info);
            self.protection = MemoryProtection::ReadWrite;
        }
    }

    /// The address where the next reservation would land.
    pub fn write_address(&self) -> (r: Result<u64, MemoryError>)
        requires
            self.wf(),
        ensures
            match r {
                Ok(addr) => self.is_allocated() && addr == self.start() + self.written,
                Err(e) => !self.is_allocated() && e == MemoryError::TableHeapNotAllocated,
            },
    {
        match &self.allocation {
            Some(a) => Ok(a.allocation_start() + (self.written as u64)),
            None => Err(MemoryError::TableHeapNotAllocated),
        }
    }

    /// Advances the cursor by `size` bytes and returns the address of
    /// the reserved region, or reports how much room would have been
    /// needed against what the allocation has.
    pub fn reserve(&mut self, size: usize) -> (r: Result<u64, MemoryError>)
        requires
            old(self).wf(),
        ensures
            final(self).wf(),
            final(self).allocation == old(self).allocation,
            final(self).protection == old(self).protection,
            old(self).written <= final(self).written,
            match r {
                Ok(addr) => {
                    &&& reserve_step(*old(self), size, addr, *final(self))
                    &&& final(self).written == old(self).written + size
                    &&& final(self).content@ == old(self).content@ + Seq::new(size as nat, |i: int| 0u8)
                },
                Err(e) => {
                    &&& final(self).written == old(self).written
                    &&& final(self).content@ == old(self).content@
                    &&& if !old(self).is_allocated() {
                        e == MemoryError::TableHeapNotAllocated
                    } else {
                        &&& old(self).written + size > old(self).capacity()
                        &&& e == (MemoryError::NoMemory {
                            needs: needed_capacity(old(self).written, size as nat),
                            has: old(self).capacity(),
                        })
                    }
                },
            },
    {
        let has: usize = match &self.allocation {
            Some(a) => a.allocation_size(),
            None => {
                return Err(MemoryError::TableHeapNotAllocated);
            },
        };
        if size > has - self.written {
            let needs: usize = if size <= usize::MAX - self.written {
                self.written + size
            } else {
                usize::MAX
            };
            return Err(MemoryError::NoMemory { needs, has });
        }
        let addr: u64 = match &self.allocation {
            Some(a) => a.allocation_start() + (self.written as u64),
            None => 0,
        };
        let mut zeros: Vec<u8> = vec![0u8; size];
        self.content.append(&mut zeros);
        self.written = self.written + size;
        Ok(addr)
    }

    /// Reserves room for `buffer` and records its bytes there,
    /// returning the address of the written region. Writing requires
    /// the region to be writable.
    pub fn write_bytes(&mut self, buffer: &[u8]) -> (r: Result<u64, MemoryError>)
        requires
            old(self).wf(),
            old(self).protection == MemoryProtection::ReadWrite,
        ensures
            final(self).wf(),
            final(self).allocation == old(self).allocation,
            final(self).protection == old(self).protection,
            old(self).written <= final(self).written,
            match r {
                Ok(addr) => {
                    &&& reserve_step(*old(self), buffer@.len() as usize, addr, *final(self))
                    &&& final(self).written == old(self).written + buffer@.len()
                    &&& final(self).content@ == old(self).content@ + buffer@
                },
                Err(e) => {
                    &&& final(self).written == old(self).written
                    &&& final(self).content@ == old(self).content@
                    &&& if !old(self).is_allocated() {
                        e == MemoryError::TableHeapNotAllocated
                    } else {
                        &&& old(self).written + buffer@.len() > old(self).capacity()
                        &&& e == (MemoryError::NoMemory {
                            needs: needed_capacity(old(self).written, buffer@.len()),
                            has: old(self).capacity(),
                        })
                    }
                },
            },
    {
        let has: usize = match &self.allocation {
            Some(a) => a.allocation_size(),
            None => {
                return Err(MemoryError::TableHeapNotAllocated);
            },
        };
        let size: usize = buffer.len();
        if size > has - self.written {
            let needs: usize = if size <= usize::MAX - self.written {
                self.written + size
            } else {
                usize::MAX
            };
            return Err(MemoryError::NoMemory { needs, has });
        }
        let addr: u64 = match &self.allocation {
            Some(a) => a.allocation_start() + (self.written as u64),
            None => 0,
        };
        self.content.extend_from_slice(buffer);
        self.written = self.written + size;
        Ok(addr)
    }

    /// Records the one-shot patch of the call-stub slot: the slot is
    /// reserved with placeholder bytes first and receives its final
    /// value once the call stub's address is known. No region is ever
    /// handed out twice, and no written value is ever rewritten: this
    /// fills, under the writable protection, only a reserved region
    /// that still holds its placeholder bytes.
    pub(crate) fn fill_reserved(&mut self, offset: usize, buffer: &[u8])
        requires
            old(self).wf(),
            old(self).protection == MemoryProtection::ReadWrite,
            offset + buffer@.len() <= old(self).written,
            old(self).content@.subrange(offset as int, offset + buffer@.len()) == Seq::new(
                buffer@.len(),
                |i: int| 0xAAu8,
            ),
        ensures
            final(self).wf(),
            final(self).allocation == old(self).allocation,
            final(self).protection == old(self).protection,
            final(self).written == old(self).written,
            final(self).content@ == old(self).content@.subrange(0, offset as int) + buffer@
                + old(self).content@.subrange(
                offset + buffer@.len(),
                old(self).content@.len() as int,
            ),
    {
        let len: usize = buffer.len();
        let mut k: usize = 0;
        while k < len
            invariant
                0 <= k <= len,
                offset + len <= old(self).written,
                self.written == old(self).written,
                self.allocation == old(self).allocation,
                self.protection == old(self).protection,
                self.content@.len() == old(self).content@.len(),
                old(self).content@.len() == old(self).written,
                buffer@.len() == len,
                forall|i: int|
                    0 <= i < old(self).content@.len() && !(offset <= i < offset + k)
                        ==> self.content@[i] == old(self).content@[i],
                forall|i: int|
                    offset <= i < offset + k ==> self.content@[i] == buffer@[i - offset],
            decreases len - k,
        {
            let b: u8 = buffer[k];
            self.content.set(offset + k, b);
            k += 1;
        }
        proof {
            assert(self.content@ =~= old(self).content@.subrange(0, offset as int) + buffer@
                + old(self).content@.subrange(
                offset + buffer@.len(),
                old(self).content@.len() as int,
            ));
        }
    }

    /// Flips the recorded protection to readable-writable, as the
    /// construction of a write handle does.
    pub fn make_writable(&mut self) -> (r: Result<(), MemoryError>)
        requires
            old(self).wf(),
        ensures
            final(self).wf(),
            final(self).allocation == old(self).allocation,
            final(self).written == old(self).written,
            final(self).content@ == old(self).content@,
            match r {
                Ok(()) => old(self).is_allocated()
                    && final(self).protection == MemoryProtection::ReadWrite,
                Err(e) => !old(self).is_allocated()
                    && final(self).protection == old(self).protection
                    && e == MemoryError::TableHeapNotAllocated,
            },
    {
        if self.allocation.is_some() {
            self.protection = MemoryProtection::ReadExecute;
            self.protection = MemoryProtection::ReadWrite;
            Ok(())
        } else {
            Err(MemoryError::TableHeapNotAllocated)
        }
    }

    /// Flips the recorded protection back to readable-executable, as
    /// the release of a write handle does: after any write session the
    /// region rests executable, never writable.
    pub fn make_executable(&mut self) -> (r: Result<(), MemoryError>)
        requires
            old(self).wf(),
        ensures
            final(self).wf(),
            final(self).allocation == old(self).allocation,
            final(self).written == old(self).written,
            final(self).content@ == old(self).content@,
            match r {
                Ok(()) => old(self).is_allocated()
                    && final(self).protection == MemoryProtection::ReadExecute,
                Err(e) => !old(self).is_allocated()
                    && final(self).protection == old(self).protection
                    && e == MemoryError::TableHeapNotAllocated,
            },
    {
        if self.allocation.is_some() {
            self.protection = MemoryProtection::ReadExecute;
            Ok(())
        } else {
            Err(MemoryError::TableHeapNotAllocated)
        }
    }
}

/// The capacity a reservation of `size` more bytes would have needed:
/// the cursor plus the request, saturated at the machine word.
pub open spec fn needed_capacity(written: usize, size: nat) -> usize {
    if written + size <= usize::MAX {
        (written + size) as usize
    } else {
        usize::MAX
    }
}

/// One successful reservation, as observed through the contracts of
/// `reserve` and `write_bytes`: from heap `pre`, the region
/// `[addr, addr + size)` was handed out and the cursor advanced past it
/// to form `post`.
pub open spec fn reserve_step<A: AllocationInfo>(
    pre: HeapState<A>,
    size: usize,
    addr: u64,
    post: HeapState<A>,
) -> bool {
    &&& pre.wf()
    &&& pre.is_allocated()
    &&& post.allocation == pre.allocation
    &&& pre.written + size <= pre.capacity()
    &&& addr == pre.start() + pre.written
    &&& post.written == pre.written + size
}

/// Reservations never overlap. Two successful reservations on the same
/// heap, the second made on any later state (every operation of the
/// heap leaves the cursor equal or larger, so `post1.written <=
/// pre2.written` holds across any interleaving), return regions with
/// the first entirely below the second, and every region stays inside
/// the allocation.
pub proof fn lemma_reserved_regions_disjoint<A: AllocationInfo>(
    pre1: HeapState<A>,
    size1: usize,
    addr1: u64,
    post1: HeapState<A>,
    pre2: HeapState<A>,
    size2: usize,
    addr2: u64,
    post2: HeapState<A>,
)
    requires
        reserve_step(pre1, size1, addr1, post1),
        reserve_step(pre2, size2, addr2, post2),
        pre2.allocation == post1.allocation,
        post1.written <= pre2.written,
    ensures
        addr1 + size1 <= addr2,
        addr2 + size2 <= pre2.start() + pre2.capacity(),
        addr1 + size1 <= pre1.start() + pre1.capacity(),
{
}

} // verus!
