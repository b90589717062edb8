//! Inline function hooking for x86_64: instruction relocation, a
//! page-granular hook heap, and the apply/remove hook lifecycle.
pub mod assembler;
pub mod error;
pub mod hooks;
pub mod mem;

use vstd::prelude::*;

verus! {

/// Size in bytes of the patch written over a target's prologue: a
/// `JMP rel32` is one opcode byte and a 32-bit displacement.
pub const PATCH_SIZE: usize = 5;

} // verus!
