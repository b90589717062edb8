//! The x86_64 assembler: emits the patch, the trampoline, and a
//! position-independent relocation of a target's first instructions.
pub mod decode;
pub mod encode;
pub mod error;
pub mod x86_64;
