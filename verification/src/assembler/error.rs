//! Error kinds raised while assembling patches, trampolines, and
//! relocated instruction streams.
use vstd::prelude::*;

verus! {

/// Failure during assembly or disassembly.
#[derive(Debug, Clone, PartialEq, Eq)]
pub enum AssemblyError {
    /// The encoder or decoder refused an instruction; carries its
    /// message.
    AssemblyError(String),
    /// The decoder could not decode enough whole instructions to cover
    /// the patch region.
    RelocationError,
}

} // verus!
