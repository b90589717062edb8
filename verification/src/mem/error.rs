//! Error kinds raised by the memory subsystem: heap state, allocation,
//! protection changes, and symbol lookup.
use vstd::prelude::*;

verus! {

/// Everything that can go wrong below the hook writer: the hook heap's
/// state, page allocation, protection flips, and symbol resolution.
#[derive(Debug, Clone, PartialEq, Eq)]
pub enum MemoryError {
    /// The heap's lock or state was poisoned.
    BadTableHeapState,
    /// The heap was used before its one-time allocation.
    TableHeapNotAllocated,
    /// The platform would not report a page size.
    NoPageSize,
    /// The platform refused to allocate pages.
    CantAllocate,
    /// A protection change failed; carries the address of the region.
    CantSetMemoryProtection(usize),
    /// The heap has too little room left: the cursor would need `needs`
    /// bytes of capacity, but the allocation holds only `has`.
    NoMemory { needs: usize, has: usize },
    /// No loaded module has the given name.
    CantFindModule(String),
    /// The module does not export the given symbol.
    CantFindSymbol(String),
    /// An address was unusable, for instance null after alignment.
    BadAdress(usize),
}

} // verus!
