//! Byte-exact checks of the assembler: the patch, the trampoline, and
//! the relocation of decoded instruction streams.
use hooking::assembler::encode::{emit_relocated, Cond, DecodedInst, RelocKind};
use hooking::assembler::error::AssemblyError;
use hooking::assembler::x86_64::HookAssemblerx86_64;

fn rel32(ip_after: u64, dest: u64) -> [u8; 4] {
    (dest.wrapping_sub(ip_after) as u32).to_le_bytes()
}

#[test]
fn patch_is_jmp_rel32_forward() {
    let assembler = HookAssemblerx86_64::new();
    let patch = assembler.assemble_patch(0x1000, 0x2000).unwrap();
    let mut expected = vec![0xE9u8];
    expected.extend_from_slice(&rel32(0x1005, 0x2000));
    assert_eq!(patch, expected);
    assert_eq!(patch, vec![0xE9, 0xFB, 0x0F, 0x00, 0x00]);
}

#[test]
fn patch_is_jmp_rel32_backward() {
    let assembler = HookAssemblerx86_64::new();
    let patch = assembler.assemble_patch(0x2000, 0x1000).unwrap();
    let mut expected = vec![0xE9u8];
    expected.extend_from_slice(&rel32(0x2005, 0x1000));
    assert_eq!(patch, expected);
    assert_eq!(patch, vec![0xE9, 0xFB, 0xEF, 0xFF, 0xFF]);
}

#[test]
fn patch_out_of_range_is_refused() {
    let assembler = HookAssemblerx86_64::new();
    let r = assembler.assemble_patch(0x1000, 0x1_0000_0000);
    assert!(matches!(r, Err(AssemblyError::AssemblyError(_))));
}

#[test]
fn trampoline_loads_slot_and_jumps() {
    let assembler = HookAssemblerx86_64::new();
    // Slot sits eight bytes before the trampoline, as the writer lays
    // it out.
    let tramp = 0x10008u64;
    let slot = 0x10000u64;
    let dest = 0x20000u64;
    let bytes = assembler.assemble_trampoline(tramp, dest, Some(slot)).unwrap();
    let mut expected = vec![0x4Cu8, 0x8B, 0x15];
    expected.extend_from_slice(&rel32(tramp + 7, slot));
    expected.push(0xE9);
    expected.extend_from_slice(&rel32(tramp + 12, dest));
    expected.push(0x90);
    assert_eq!(bytes, expected);
    assert_eq!(bytes.len(), 13);
    // The RIP-relative displacement to the slot is always -15.
    assert_eq!(&bytes[3..7], &[0xF1, 0xFF, 0xFF, 0xFF]);
}

#[test]
fn trampoline_without_slot_is_jmp_and_nop() {
    let assembler = HookAssemblerx86_64::new();
    let bytes = assembler.assemble_trampoline(0x1000, 0x3000, None).unwrap();
    let mut expected = vec![0xE9u8];
    expected.extend_from_slice(&rel32(0x1005, 0x3000));
    expected.push(0x90);
    assert_eq!(bytes, expected);
}

#[test]
fn emit_plain_keeps_bytes() {
    let insts = vec![DecodedInst { len: 2, kind: RelocKind::Plain { bytes: vec![0x85, 0xC0] } }];
    let out = emit_relocated(&insts, 0x9000, None).unwrap();
    assert_eq!(out, vec![0x85, 0xC0]);
}

#[test]
fn emit_riprel_wraps_in_r10_save() {
    let insts = vec![DecodedInst {
        len: 7,
        kind: RelocKind::RipRelMem { patched: vec![0x49, 0x8D, 0x02], target: 0x1122334455667788 },
    }];
    let out = emit_relocated(&insts, 0x9000, None).unwrap();
    let mut expected = vec![0x41u8, 0x52, 0x49, 0xBA];
    expected.extend_from_slice(&0x1122334455667788u64.to_le_bytes());
    expected.extend_from_slice(&[0x49, 0x8D, 0x02]);
    expected.extend_from_slice(&[0x41, 0x5A]);
    assert_eq!(out, expected);
}

#[test]
fn emit_near_call_uses_inline_literal() {
    let insts = vec![DecodedInst { len: 5, kind: RelocKind::NearCall { target: 0x4142 } }];
    let out = emit_relocated(&insts, 0x9000, None).unwrap();
    let mut expected = vec![0xFFu8, 0x15, 0, 0, 0, 0];
    expected.extend_from_slice(&0x4142u64.to_le_bytes());
    assert_eq!(out, expected);
}

#[test]
fn emit_near_jmp_uses_inline_literal() {
    let insts = vec![DecodedInst { len: 2, kind: RelocKind::NearJmp { target: 0x6000 } }];
    let out = emit_relocated(&insts, 0x9000, None).unwrap();
    let mut expected = vec![0xFFu8, 0x25, 0, 0, 0, 0];
    expected.extend_from_slice(&0x6000u64.to_le_bytes());
    assert_eq!(out, expected);
}

#[test]
fn emit_jcc_inverts_and_skips() {
    let insts = vec![DecodedInst {
        len: 2,
        kind: RelocKind::NearJcc { cond: Cond::E, target: 0x6000 },
    }];
    let out = emit_relocated(&insts, 0x9000, None).unwrap();
    // JNE +14 skips the absolute jump taken when the original JE fired.
    let mut expected = vec![0x75u8, 14, 0xFF, 0x25, 0, 0, 0, 0];
    expected.extend_from_slice(&0x6000u64.to_le_bytes());
    assert_eq!(out, expected);
}

#[test]
fn emit_back_jump_appends_jmp_and_nop() {
    let insts = vec![DecodedInst { len: 5, kind: RelocKind::Plain { bytes: vec![0x90; 5] } }];
    let out = emit_relocated(&insts, 0x9000, Some(0x1005)).unwrap();
    assert_eq!(out.len(), 5 + 5 + 1);
    assert_eq!(out[5], 0xE9);
    assert_eq!(&out[6..10], &rel32(0x9005 + 5, 0x1005));
    assert_eq!(out[10], 0x90);
}

#[test]
fn relocate_lea_riprel_keeps_target() {
    // LEA RAX, [RIP + 0x10]; RET — the effective address the original
    // computes is source_ip + 7 + 0x10.
    let source = vec![0x48u8, 0x8D, 0x05, 0x10, 0x00, 0x00, 0x00, 0xC3];
    let assembler = HookAssemblerx86_64::new();
    let out = assembler.relocate_instructions(0x9000, 0x1000, &source, 5, true).unwrap();
    let target = 0x1000u64 + 7 + 0x10;
    // PUSH R10; MOV R10, imm64 target
    assert_eq!(&out[0..4], &[0x41, 0x52, 0x49, 0xBA]);
    assert_eq!(&out[4..12], &target.to_le_bytes());
    // LEA re-encoded to read through R10, keeping a zeroed
    // 32-bit displacement: lea rax, [r10 + 0]
    assert_eq!(&out[12..19], &[0x49, 0x8D, 0x82, 0, 0, 0, 0]);
    // POP R10
    assert_eq!(&out[19..21], &[0x41, 0x5A]);
    // Back jump to source_ip + consumed (the RET), then NOP.
    assert_eq!(out[21], 0xE9);
    assert_eq!(&out[22..26], &rel32(0x9000 + 21 + 5, 0x1007));
    assert_eq!(out[26], 0x90);
    assert_eq!(out.len(), 27);
}

#[test]
fn relocate_short_jcc_inverts_condition() {
    // TEST EAX, EAX; JE +2; MOV EAX, 1 — covering five patch bytes
    // consumes all three instructions.
    let source = vec![0x85u8, 0xC0, 0x74, 0x02, 0xB8, 0x01, 0x00, 0x00, 0x00, 0xC3];
    let assembler = HookAssemblerx86_64::new();
    let out = assembler.relocate_instructions(0x9000, 0x2000, &source, 5, true).unwrap();
    // TEST is position-independent and kept as is.
    assert_eq!(&out[0..2], &[0x85, 0xC0]);
    // JE becomes JNE over an absolute jump to the JE's target.
    let je_target = 0x2000u64 + 2 + 2 + 2;
    assert_eq!(&out[2..4], &[0x75, 14]);
    assert_eq!(&out[4..10], &[0xFF, 0x25, 0, 0, 0, 0]);
    assert_eq!(&out[10..18], &je_target.to_le_bytes());
    // The MOV is kept as is.
    assert_eq!(&out[18..23], &[0xB8, 0x01, 0x00, 0x00, 0x00]);
    // Back jump to source_ip + 9 (past TEST, JE, MOV), then NOP.
    assert_eq!(out[23], 0xE9);
    assert_eq!(&out[24..28], &rel32(0x9000 + 23 + 5, 0x2009));
    assert_eq!(out[28], 0x90);
    assert_eq!(out.len(), 29);
}

#[test]
fn relocate_near_call_uses_literal() {
    // CALL rel32 to source_ip + 5 + 0x100.
    let source = vec![0xE8u8, 0x00, 0x01, 0x00, 0x00, 0xC3, 0x90, 0x90];
    let assembler = HookAssemblerx86_64::new();
    let out = assembler.relocate_instructions(0x9000, 0x3000, &source, 5, false).unwrap();
    let call_target = 0x3000u64 + 5 + 0x100;
    let mut expected = vec![0xFFu8, 0x15, 0, 0, 0, 0];
    expected.extend_from_slice(&call_target.to_le_bytes());
    assert_eq!(out, expected);
}

#[test]
fn relocate_truncated_stream_fails() {
    // Three bytes cannot cover a five-byte patch with whole
    // instructions.
    let source = vec![0x90u8, 0x90, 0x90];
    let assembler = HookAssemblerx86_64::new();
    let r = assembler.relocate_instructions(0x9000, 0x1000, &source, 5, true);
    assert!(matches!(r, Err(AssemblyError::RelocationError)));
}

#[test]
fn trampoline_out_of_range_is_refused() {
    let assembler = HookAssemblerx86_64::new();
    let r = assembler.assemble_trampoline(0x1000, 0x1_0000_0000, Some(0x0FF8));
    assert!(matches!(r, Err(AssemblyError::AssemblyError(_))));
}

#[test]
fn relocate_riprel_to_address_zero() {
    // LEA RAX, [RIP - 7] at address 0: the effective address is 0.
    // Detection goes by the operand form, so the instruction is still
    // rewritten to read through R10, now loaded with zero.
    let source = vec![0x48u8, 0x8D, 0x05, 0xF9, 0xFF, 0xFF, 0xFF, 0xC3];
    let assembler = HookAssemblerx86_64::new();
    let out = assembler.relocate_instructions(0x9000, 0, &source, 5, false).unwrap();
    assert_eq!(&out[0..4], &[0x41, 0x52, 0x49, 0xBA]);
    assert_eq!(&out[4..12], &0u64.to_le_bytes());
    assert_eq!(&out[12..19], &[0x49, 0x8D, 0x82, 0, 0, 0, 0]);
    assert_eq!(&out[19..21], &[0x41, 0x5A]);
    assert_eq!(out.len(), 21);
}
