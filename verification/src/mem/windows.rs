//! The Windows side of the memory controller. The platform calls
//! (`VirtualAlloc`, `VirtualProtect`, `VirtualQuery`, `GetSystemInfo`,
//! module and symbol lookup) are made by the unverified shell around
//! this library; verified here is the arithmetic handed to them.
use vstd::prelude::*;

use crate::mem::{is_page_size, AllocationInfo};

verus! {

/// The record of one finished Windows allocation.
#[derive(Debug, Clone, Copy, PartialEq, Eq, Structural)]
pub struct WindowsMemoryAllocationInfo {
    pub page_size: usize,
    pub allocation_size: usize,
    pub allocation_start: u64,
}

impl WindowsMemoryAllocationInfo {
    pub fn new(page_size: usize, allocation_size: usize, allocation_start: u64) -> (r: Self)
        ensures
            r.page_size == page_size,
            r.allocation_size == allocation_size,
            r.allocation_start == allocation_start,
    {
        Self { page_size, allocation_size, allocation_start }
    }
}

impl AllocationInfo for WindowsMemoryAllocationInfo {
    open spec fn spec_page_size(&self) -> usize {
        self.page_size
    }

    open spec fn spec_allocation_size(&self) -> usize {
        self.allocation_size
    }

    open spec fn spec_allocation_start(&self) -> u64 {
        self.allocation_start
    }

    fn page_size(&self) -> (r: usize) {
        self.page_size
    }

    fn allocation_size(&self) -> (r: usize) {
        self.allocation_size
    }

    fn allocation_start(&self) -> (r: u64) {
        self.allocation_start
    }
}

/// Page-granular arithmetic for Windows mappings.
pub struct WindowsMemoryController;

impl WindowsMemoryController {
    pub fn new() -> Self {
        Self
    }

    /// Rounds `address` up to the next multiple of `page_size`.
    pub fn allign_up(&self, page_size: usize, address: usize) -> (r: usize)
        requires
            is_page_size(page_size),
            address + page_size - 1 <= usize::MAX,
        ensures
            address <= r,
            r % page_size == 0,
            r < address + page_size,
    {
        let sum: usize = address + (page_size - 1);
        let r: usize = sum & !(page_size - 1);
        proof {
            crate::mem::lemma_mask_is_page_multiple(page_size, sum);
            crate::mem::lemma_mask_bounds(page_size, sum);
        }
        r
    }

    /// Rounds `address` down to the containing page boundary.
    pub fn allign_down(&self, page_size: usize, address: usize) -> (r: usize)
        requires
            is_page_size(page_size),
        ensures
            r <= address,
            r % page_size == 0,
            address < r + page_size,
    {
        let r: usize = address & !(page_size - 1);
        proof {
            crate::mem::lemma_mask_is_page_multiple(page_size, address);
            crate::mem::lemma_mask_bounds(page_size, address);
        }
        r
    }

    /// The mapping size that `allocate_memory` asks the platform for:
    /// whole pages covering `min_size`, or a single page by default.
    pub fn allocation_size_for(&self, page_size: usize, min_size: Option<usize>) -> (r: usize)
        requires
            is_page_size(page_size),
            min_size matches Some(m) ==> m + page_size - 1 <= usize::MAX,
        ensures
            r % page_size == 0,
            match min_size {
                Some(m) => m <= r && r < m + page_size,
                None => r == page_size,
            },
    {
        match min_size {
            Some(m) => self.allign_up(page_size, m),
            None => {
                proof {
                    assert(page_size % page_size == 0) by (bit_vector)
                        requires page_size > 0;
                }
                page_size
            }
        }
    }
}

} // verus!
