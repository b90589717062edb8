//! The unified error surface of the library: hooking failures and the
//! memory and assembly errors they pass through.
use vstd::prelude::*;

use crate::assembler::error::AssemblyError;
use crate::mem::error::MemoryError;

verus! {

/// Everything that can go wrong while creating, applying, or removing
/// a hook.
#[derive(Debug, Clone, PartialEq, Eq)]
pub enum HookingError {
    /// A memory operation failed.
    MemoryError(MemoryError),
    /// Assembly or disassembly failed.
    AssemblyError(AssemblyError),
    /// The destination given for a hook looked up by name was null;
    /// carries the symbol name.
    NoDestination(String),
    /// The target address given for a hook is unusable.
    InvalidTarget(u64),
    /// The destination address given for a hook is unusable.
    InvalidDestination(u64),
    /// The patch's `JMP rel32` cannot reach the trampoline from the
    /// target.
    PatchOutOfRange,
}

} // verus!
