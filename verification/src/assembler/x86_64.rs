//! The x86_64 hook assembler: the patch, the trampoline, and the
//! relocation of a target's first instructions into a call stub.
use vstd::prelude::*;

use crate::assembler::decode::{
    decode_stream, spec_consumed, spec_relocated_stream, spec_stream_outcome, StreamOutcome,
};
use crate::assembler::encode::{
    disp32_for, push_jmp_rel32, push_le32, rel32_fits, rel32_reachable, spec_jmp_rel32,
    spec_trampoline,
};
use crate::assembler::error::AssemblyError;

verus! {

/// The back jump appended to a relocated stream can be encoded: its
/// own address arithmetic does not wrap, and its `rel32` reaches the
/// first source byte past the relocated region.
pub open spec fn back_jump_fits(source: Seq<u8>, source_address: u64, patch_size: int, eip: u64) -> bool {
    let body = spec_relocated_stream(source, source_address, patch_size, 0);
    let consumed = spec_consumed(source, source_address, patch_size, 0);
    &&& eip + body.len() + 5 <= u64::MAX
    &&& rel32_fits((eip + body.len() + 5) as u64, (source_address + consumed) as u64)
}

/// Assembles the byte sequences a 64-bit hook needs.
pub struct HookAssemblerx86_64;

impl HookAssemblerx86_64 {
    pub fn new() -> Self {
        Self
    }

    /// Emits the patch written over the target's prologue: a single
    /// `JMP rel32` at `eip` to `destination_fn`. Fails exactly when
    /// the displacement cannot reach.
    pub fn assemble_patch(&self, eip: u64, destination_fn: u64) -> (r: Result<
        Vec<u8>,
        AssemblyError,
    >)
        requires
            eip + 5 <= u64::MAX,
        ensures
            match r {
                Ok(v) => rel32_fits((eip + 5) as u64, destination_fn) && v@ == spec_jmp_rel32(
                    eip,
                    destination_fn,
                ) && v@.len() == 5,
                Err(e) => !rel32_fits((eip + 5) as u64, destination_fn) && e matches
                    AssemblyError::AssemblyError(_),
            },
    {
        if !rel32_reachable(eip + 5, destination_fn) {
            return Err(AssemblyError::AssemblyError("patch jump out of rel32 range".to_owned()));
        }
        let mut out: Vec<u8> = Vec::new();
        push_jmp_rel32(&mut out, eip, destination_fn);
        Ok(out)
    }

    /// Emits the trampoline at `eip`: when a call-stub slot is given,
    /// `MOV R10, [RIP+disp]` loading the slot at absolute address
    /// `restore_fn_address`, then `JMP rel32` to `destination_fn`,
    /// then `NOP`. Without a slot the load is omitted. Fails exactly
    /// when the jump cannot reach the destination.
    pub fn assemble_trampoline(
        &self,
        eip: u64,
        destination_fn: u64,
        restore_fn_address: Option<u64>,
    ) -> (r: Result<Vec<u8>, AssemblyError>)
        requires
            eip + 13 <= u64::MAX,
        ensures
            match r {
                Ok(v) => match restore_fn_address {
                    Some(slot) => rel32_fits((eip + 12) as u64, destination_fn) && v@
                        == spec_trampoline(eip, destination_fn, slot) && v@.len() == 13,
                    None => rel32_fits((eip + 5) as u64, destination_fn) && v@ == spec_jmp_rel32(
                        eip,
                        destination_fn,
                    ) + seq![0x90u8],
                },
                Err(e) => ({
                    &&& match restore_fn_address {
                        Some(slot) => !rel32_fits((eip + 12) as u64, destination_fn),
                        None => !rel32_fits((eip + 5) as u64, destination_fn),
                    }
                    &&& e matches AssemblyError::AssemblyError(_)
                }),
            },
    {
        match restore_fn_address {
            Some(slot) => {
                if !rel32_reachable(eip + 12, destination_fn) {
                    return Err(
                        AssemblyError::AssemblyError(
                            "trampoline jump out of rel32 range".to_owned(),
                        ),
                    );
                }
                let mut out: Vec<u8> = Vec::new();
                out.push(0x4C);
                out.push(0x8B);
                out.push(0x15);
                let disp: u32 = disp32_for(eip + 7, slot);
                push_le32(&mut out, disp);
                push_jmp_rel32(&mut out, eip + 7, destination_fn);
                out.push(0x90);
                assert(out@ =~= spec_trampoline(eip, destination_fn, slot));
                Ok(out)
            },
            None => {
                if !rel32_reachable(eip + 5, destination_fn) {
                    return Err(
                        AssemblyError::AssemblyError(
                            "trampoline jump out of rel32 range".to_owned(),
                        ),
                    );
                }
                let mut out: Vec<u8> = Vec::new();
                push_jmp_rel32(&mut out, eip, destination_fn);
                out.push(0x90);
                assert(out@ =~= spec_jmp_rel32(eip, destination_fn) + seq![0x90u8]);
                Ok(out)
            },
        }
    }

    /// Relocates the instructions that cover the first `patch_size`
    /// bytes of `source` — the bytes read from the target at address
    /// `source_address` — so they can run at `eip` instead. When
    /// `add_jump` is set, the stream ends with a `JMP rel32` back to
    /// the first source byte past the relocated region, then a `NOP`.
    ///
    /// Succeeds exactly when the decode walk covers the patch region
    /// and the requested back jump can be encoded, and then returns
    /// exactly the walk's bytes; a malformed or truncated stream is
    /// `RelocationError`, an encoder refusal or an unreachable back
    /// jump carries a message.
    pub fn relocate_instructions(
        &self,
        eip: u64,
        source_address: u64,
        source: &Vec<u8>,
        patch_size: usize,
        add_jump: bool,
    ) -> (r: Result<Vec<u8>, AssemblyError>)
        requires
            source_address + source@.len() <= u64::MAX,
        ensures
            ({
                let outcome = spec_stream_outcome(source@, source_address, patch_size as int, 0);
                let body = spec_relocated_stream(source@, source_address, patch_size as int, 0);
                let consumed = spec_consumed(source@, source_address, patch_size as int, 0);
                &&& (r is Ok <==> outcome == StreamOutcome::Covered && (add_jump
                    ==> back_jump_fits(source@, source_address, patch_size as int, eip)))
                &&& (r == Err::<Vec<u8>, AssemblyError>(AssemblyError::RelocationError) <==> outcome
                    == StreamOutcome::Undecodable)
                &&& ((r matches Err(e) && e matches AssemblyError::AssemblyError(_)) <==> (outcome
                    == StreamOutcome::Unencodable || (outcome == StreamOutcome::Covered && add_jump
                    && !back_jump_fits(source@, source_address, patch_size as int, eip))))
                &&& r matches Ok(v) ==> {
                    &&& patch_size <= consumed <= source@.len()
                    &&& consumed < patch_size + 15
                    &&& if add_jump {
                        v@ == body + spec_jmp_rel32(
                            (eip + body.len()) as u64,
                            (source_address + consumed) as u64,
                        ) + seq![0x90u8]
                    } else {
                        v@ == body
                    }
                }
            }),
    {
        let (insts, consumed) = match decode_stream(source, source_address, patch_size) {
            Ok(ok) => ok,
            Err(e) => {
                return Err(e);
            },
        };
        let jump_back: Option<u64> = if add_jump {
            Some(source_address + (consumed as u64))
        } else {
            None
        };
        match crate::assembler::encode::emit_relocated(&insts, eip, jump_back) {
            Ok(v) => Ok(v),
            Err(e) => Err(e),
        }
    }
}

} // verus!
