//! Byte-exact encodings emitted by the assembler: little-endian
//! immediates, `rel32` control transfers, the trampoline, and the
//! per-instruction relocation sequences, together with the facts that
//! make them correct: a fitting displacement lands exactly on its
//! destination, and a relocated RIP-relative instruction keeps its
//! absolute target.
use vstd::prelude::*;

use crate::assembler::error::AssemblyError;

verus! {

/// Little-endian encoding of a 32-bit immediate.
pub open spec fn spec_le32(x: u32) -> Seq<u8> {
    seq![
        (x & 0xff) as u8,
        ((x >> 8) & 0xff) as u8,
        ((x >> 16) & 0xff) as u8,
        ((x >> 24) & 0xff) as u8,
    ]
}

/// Little-endian encoding of a 64-bit immediate.
pub open spec fn spec_le64(x: u64) -> Seq<u8> {
    seq![
        (x & 0xff) as u8,
        ((x >> 8) & 0xff) as u8,
        ((x >> 16) & 0xff) as u8,
        ((x >> 24) & 0xff) as u8,
        ((x >> 32) & 0xff) as u8,
        ((x >> 40) & 0xff) as u8,
        ((x >> 48) & 0xff) as u8,
        ((x >> 56) & 0xff) as u8,
    ]
}

/// The distance from `ip_after` (the address following the transfer
/// instruction) to `dest`, as the processor sees it: reduced to the
/// 64-bit address width.
pub open spec fn spec_diff64(ip_after: u64, dest: u64) -> u64 {
    if dest - ip_after < 0 {
        (dest - ip_after + 0x1_0000_0000_0000_0000) as u64
    } else {
        (dest - ip_after) as u64
    }
}

/// A `rel32` field from `ip_after` can reach `dest`: the wrapped
/// distance sign-extends back to itself.
pub open spec fn rel32_fits(ip_after: u64, dest: u64) -> bool {
    spec_diff64(ip_after, dest) <= 0x7fff_ffff
        || spec_diff64(ip_after, dest) >= 0xffff_ffff_8000_0000
}

/// The 32-bit displacement field written for a transfer from
/// `ip_after` to `dest`: the low half of the wrapped distance.
pub open spec fn spec_disp32(ip_after: u64, dest: u64) -> u32 {
    (spec_diff64(ip_after, dest) % 0x1_0000_0000) as u32
}

/// Sign extension of a 32-bit displacement, as the processor applies
/// it.
pub open spec fn sext32(x: u32) -> int {
    if x < 0x8000_0000 {
        x as int
    } else {
        x - 0x1_0000_0000
    }
}

/// A fitting displacement is faithful: adding its sign extension to
/// `ip_after`, modulo the address width, gives exactly `dest`. This is
/// why a patched `JMP rel32` transfers control to the trampoline and
/// nowhere else.
pub proof fn lemma_disp32_reaches(ip_after: u64, dest: u64)
    requires
        rel32_fits(ip_after, dest),
    ensures
        (ip_after + sext32(spec_disp32(ip_after, dest))) % 0x1_0000_0000_0000_0000 == dest,
{
    let diff = spec_diff64(ip_after, dest);
    let disp = spec_disp32(ip_after, dest);
    assert(disp == diff % 0x1_0000_0000 && (diff <= 0x7fff_ffff
        ==> disp == diff && sext32(disp) == diff) && (diff >= 0xffff_ffff_8000_0000
        ==> disp >= 0x8000_0000 && sext32(disp) == diff - 0x1_0000_0000_0000_0000))
        by (bit_vector)
        requires
            disp == diff % 0x1_0000_0000,
            diff <= 0x7fff_ffff || diff >= 0xffff_ffff_8000_0000,
    ;
    if diff <= 0x7fff_ffff {
        if dest >= ip_after {
            vstd::arithmetic::div_mod::lemma_small_mod(dest as nat, 0x1_0000_0000_0000_0000);
        } else {
            vstd::arithmetic::div_mod::lemma_mod_add_multiples_vanish(
                ip_after + sext32(disp) - 0x1_0000_0000_0000_0000,
                0x1_0000_0000_0000_0000,
            );
            vstd::arithmetic::div_mod::lemma_small_mod(dest as nat, 0x1_0000_0000_0000_0000);
        }
    } else {
        if dest >= ip_after {
            vstd::arithmetic::div_mod::lemma_mod_add_multiples_vanish(
                ip_after + sext32(disp),
                0x1_0000_0000_0000_0000,
            );
            vstd::arithmetic::div_mod::lemma_small_mod(dest as nat, 0x1_0000_0000_0000_0000);
        } else {
            vstd::arithmetic::div_mod::lemma_small_mod(dest as nat, 0x1_0000_0000_0000_0000);
        }
    }
}

/// `JMP rel32` emitted at address `ip` toward absolute `dest`: opcode
/// `E9` and the displacement measured from the end of the five-byte
/// instruction.
pub open spec fn spec_jmp_rel32(ip: u64, dest: u64) -> Seq<u8> {
    seq![0xE9u8] + spec_le32(spec_disp32((ip + 5) as u64, dest))
}

/// The trampoline emitted at `ip`: load R10 from the eight-byte slot
/// at absolute address `slot` (`MOV R10, [RIP+disp32]`, bytes
/// `4C 8B 15 disp32`), jump to the destination, and one `NOP` for
/// disassembler resynchronization. Thirteen bytes in all.
pub open spec fn spec_trampoline(ip: u64, dest: u64, slot: u64) -> Seq<u8> {
    seq![0x4Cu8, 0x8Bu8, 0x15u8] + spec_le32(spec_disp32((ip + 7) as u64, slot))
        + spec_jmp_rel32((ip + 7) as u64, dest) + seq![0x90u8]
}

/// The trampoline's `MOV R10, [RIP+disp]` reads exactly the call-stub
/// slot: adding the sign-extended displacement to the address after
/// the seven-byte load lands on `slot`. In the writer's layout the
/// slot sits fifteen bytes before the load's end, so the displacement
/// always fits.
pub proof fn lemma_trampoline_reads_slot(ip: u64, slot: u64)
    requires
        ip + 7 <= u64::MAX,
        rel32_fits((ip + 7) as u64, slot),
    ensures
        ((ip + 7) + sext32(spec_disp32((ip + 7) as u64, slot))) % 0x1_0000_0000_0000_0000
            == slot,
{
    lemma_disp32_reaches((ip + 7) as u64, slot);
}

/// Every byte of a little-endian encoding is masked to eight bits.
proof fn lemma_le_bytes_bounded(x: u64, y: u32)
    by (bit_vector)
    ensures
        x & 0xff <= 0xff,
        (x >> 8) & 0xff <= 0xff,
        (x >> 16) & 0xff <= 0xff,
        (x >> 24) & 0xff <= 0xff,
        (x >> 32) & 0xff <= 0xff,
        (x >> 40) & 0xff <= 0xff,
        (x >> 48) & 0xff <= 0xff,
        (x >> 56) & 0xff <= 0xff,
        y & 0xff <= 0xff,
        (y >> 8) & 0xff <= 0xff,
        (y >> 16) & 0xff <= 0xff,
        (y >> 24) & 0xff <= 0xff,
{
}

/// Appends the little-endian encoding of a 32-bit immediate.
pub fn push_le32(out: &mut Vec<u8>, x: u32)
    ensures
        final(out)@ == old(out)@ + spec_le32(x),
{
    proof {
        lemma_le_bytes_bounded(0, x);
    }
    out.push((x & 0xff) as u8);
    out.push(((x >> 8) & 0xff) as u8);
    out.push(((x >> 16) & 0xff) as u8);
    out.push(((x >> 24) & 0xff) as u8);
    assert(out@ =~= old(out)@ + spec_le32(x));
}

/// Appends the little-endian encoding of a 64-bit immediate.
pub fn push_le64(out: &mut Vec<u8>, x: u64)
    ensures
        final(out)@ == old(out)@ + spec_le64(x),
{
    proof {
        lemma_le_bytes_bounded(x, 0);
    }
    out.push((x & 0xff) as u8);
    out.push(((x >> 8) & 0xff) as u8);
    out.push(((x >> 16) & 0xff) as u8);
    out.push(((x >> 24) & 0xff) as u8);
    out.push(((x >> 32) & 0xff) as u8);
    out.push(((x >> 40) & 0xff) as u8);
    out.push(((x >> 48) & 0xff) as u8);
    out.push(((x >> 56) & 0xff) as u8);
    assert(out@ =~= old(out)@ + spec_le64(x));
}

/// The `rel32` displacement for a transfer whose next-instruction
/// address is `ip_after`.
pub fn disp32_for(ip_after: u64, dest: u64) -> (r: u32)
    ensures
        r == spec_disp32(ip_after, dest),
{
    let diff: u64 = dest.wrapping_sub(ip_after);
    proof {
        assert(diff == spec_diff64(ip_after, dest));
        assert(diff as u32 == diff % 0x1_0000_0000) by (bit_vector);
    }
    #[verifier::truncate] (diff as u32)
}

/// Whether a `rel32` transfer ending at `ip_after` reaches `dest`.
pub fn rel32_reachable(ip_after: u64, dest: u64) -> (b: bool)
    ensures
        b == rel32_fits(ip_after, dest),
{
    let diff: u64 = dest.wrapping_sub(ip_after);
    diff <= 0x7fff_ffff || diff >= 0xffff_ffff_8000_0000
}

/// Appends `JMP rel32` from `ip` to `dest`.
pub fn push_jmp_rel32(out: &mut Vec<u8>, ip: u64, dest: u64)
    requires
        ip + 5 <= u64::MAX,
    ensures
        final(out)@ == old(out)@ + spec_jmp_rel32(ip, dest),
{
    out.push(0xE9);
    let rel: u32 = disp32_for(ip + 5, dest);
    push_le32(out, rel);
    assert(out@ =~= old(out)@ + spec_jmp_rel32(ip, dest));
}

/// Condition of a conditional near jump, or `Uncond` for an
/// unconditional one.
#[derive(Debug, Clone, Copy, PartialEq, Eq, Structural)]
pub enum Cond {
    E,
    Ne,
    B,
    Ae,
    Be,
    A,
    L,
    Ge,
    Le,
    G,
    P,
    Np,
    O,
    No,
    S,
    Ns,
    Uncond,
}

/// The inverse condition: the relocated form tests the inverse and
/// skips over an absolute jump, so the absolute jump runs exactly when
/// the original condition held.
pub open spec fn spec_inverse(c: Cond) -> Cond {
    match c {
        Cond::E => Cond::Ne,
        Cond::Ne => Cond::E,
        Cond::B => Cond::Ae,
        Cond::Ae => Cond::B,
        Cond::Be => Cond::A,
        Cond::A => Cond::Be,
        Cond::L => Cond::Ge,
        Cond::Ge => Cond::L,
        Cond::Le => Cond::G,
        Cond::G => Cond::Le,
        Cond::P => Cond::Np,
        Cond::Np => Cond::P,
        Cond::O => Cond::No,
        Cond::No => Cond::O,
        Cond::S => Cond::Ns,
        Cond::Ns => Cond::S,
        Cond::Uncond => Cond::Uncond,
    }
}

/// Opcode of the two-byte short jump for a condition: `70`..`7F` for
/// the conditional forms, `EB` for the unconditional one.
pub open spec fn spec_cc_short_opcode(c: Cond) -> u8 {
    match c {
        Cond::O => 0x70,
        Cond::No => 0x71,
        Cond::B => 0x72,
        Cond::Ae => 0x73,
        Cond::E => 0x74,
        Cond::Ne => 0x75,
        Cond::Be => 0x76,
        Cond::A => 0x77,
        Cond::S => 0x78,
        Cond::Ns => 0x79,
        Cond::P => 0x7A,
        Cond::Np => 0x7B,
        Cond::L => 0x7C,
        Cond::Ge => 0x7D,
        Cond::Le => 0x7E,
        Cond::G => 0x7F,
        Cond::Uncond => 0xEB,
    }
}

/// How one decoded source instruction is re-emitted.
#[derive(Debug, Clone, PartialEq, Eq)]
pub enum RelocKind {
    /// Position-independent: its original bytes are kept unchanged.
    Plain { bytes: Vec<u8> },
    /// A RIP-relative memory operand with absolute effective address
    /// `target`; `patched` is the instruction re-encoded with its base
    /// changed to R10 and its displacement zeroed.
    RipRelMem { patched: Vec<u8>, target: u64 },
    /// A near call to absolute `target`.
    NearCall { target: u64 },
    /// A short or near unconditional jump to absolute `target`.
    NearJmp { target: u64 },
    /// A short or near conditional jump to absolute `target`.
    NearJcc { cond: Cond, target: u64 },
}

/// One decoded source instruction: how many source bytes it covered
/// and how it is re-emitted.
#[derive(Debug, Clone, PartialEq, Eq)]
pub struct DecodedInst {
    pub len: usize,
    pub kind: RelocKind,
}

/// The bytes emitted for one relocated instruction. Every form is
/// position-independent, so no address parameter appears:
/// - a plain instruction keeps its bytes;
/// - a RIP-relative memory operand becomes `PUSH R10; MOV R10, imm64
///   target;` the patched instruction reading through R10; `POP R10`;
/// - a near call becomes `CALL [RIP+0]` over an inline eight-byte
///   literal holding the absolute target;
/// - a near jump becomes `JMP [RIP+0]` over the same literal form;
/// - a conditional jump tests the inverse condition to skip a
///   fourteen-byte absolute `JMP [RIP+0]` + literal sequence.
pub open spec fn spec_reloc_bytes(k: RelocKind) -> Seq<u8> {
    match k {
        RelocKind::Plain { bytes } => bytes@,
        RelocKind::RipRelMem { patched, target } => seq![0x41u8, 0x52u8, 0x49u8, 0xBAu8]
            + spec_le64(target) + patched@ + seq![0x41u8, 0x5Au8],
        RelocKind::NearCall { target } => seq![0xFFu8, 0x15u8, 0u8, 0u8, 0u8, 0u8]
            + spec_le64(target),
        RelocKind::NearJmp { target } => seq![0xFFu8, 0x25u8, 0u8, 0u8, 0u8, 0u8]
            + spec_le64(target),
        RelocKind::NearJcc { cond, target } => seq![
            spec_cc_short_opcode(spec_inverse(cond)),
            14u8,
            0xFFu8,
            0x25u8,
            0u8,
            0u8,
            0u8,
            0u8,
        ] + spec_le64(target),
    }
}

/// The bytes emitted for a whole relocated stream, in order.
pub open spec fn spec_stream_bytes(insts: Seq<DecodedInst>) -> Seq<u8>
    decreases insts.len(),
{
    if insts.len() == 0 {
        Seq::empty()
    } else {
        spec_reloc_bytes(insts[0].kind) + spec_stream_bytes(insts.subrange(1, insts.len() as int))
    }
}

/// Appending one instruction to a stream appends its bytes.
pub proof fn lemma_stream_snoc(insts: Seq<DecodedInst>, x: DecodedInst)
    ensures
        spec_stream_bytes(insts.push(x)) == spec_stream_bytes(insts) + spec_reloc_bytes(x.kind),
    decreases insts.len(),
{
    if insts.len() == 0 {
        assert(insts.push(x)[0] == x);
        assert(insts.push(x).subrange(1, insts.push(x).len() as int) =~= Seq::<
            DecodedInst,
        >::empty());
        assert(spec_stream_bytes(Seq::<DecodedInst>::empty()) == Seq::<u8>::empty());
        assert(spec_stream_bytes(insts.push(x)) =~= spec_stream_bytes(insts)
            + spec_reloc_bytes(x.kind));
    } else {
        let tail = insts.subrange(1, insts.len() as int);
        assert(insts.push(x)[0] == insts[0]);
        assert(insts.push(x).subrange(1, insts.push(x).len() as int) =~= tail.push(x));
        lemma_stream_snoc(tail, x);
        assert(spec_stream_bytes(insts.push(x)) == spec_reloc_bytes(insts[0].kind)
            + spec_stream_bytes(tail.push(x)));
        assert(spec_stream_bytes(insts) == spec_reloc_bytes(insts[0].kind)
            + spec_stream_bytes(tail));
        assert(spec_stream_bytes(insts.push(x)) =~= spec_stream_bytes(insts)
            + spec_reloc_bytes(x.kind));
    }
}

/// A stream splits around any instruction: the bytes are the prefix's
/// bytes, that instruction's bytes, then the suffix's bytes.
pub proof fn lemma_stream_split(insts: Seq<DecodedInst>, i: int)
    requires
        0 <= i < insts.len(),
    ensures
        spec_stream_bytes(insts) == spec_stream_bytes(insts.take(i))
            + spec_reloc_bytes(insts[i].kind) + spec_stream_bytes(
            insts.skip(i + 1),
        ),
    decreases i,
{
    if i == 0 {
        assert(insts.take(0) =~= Seq::<DecodedInst>::empty());
        assert(insts.skip(1) =~= insts.subrange(1, insts.len() as int));
        assert(spec_stream_bytes(insts) =~= spec_stream_bytes(insts.take(0))
            + spec_reloc_bytes(insts[0].kind) + spec_stream_bytes(insts.skip(1)));
    } else {
        let tail = insts.subrange(1, insts.len() as int);
        lemma_stream_split(tail, i - 1);
        assert(tail.take(i - 1) =~= insts.take(i).subrange(1, i));
        assert(insts.take(i).subrange(1, i) =~= insts.take(i).subrange(
            1,
            insts.take(i).len() as int,
        ));
        assert(tail[i - 1] == insts[i]);
        assert(tail.skip(i) =~= insts.skip(i + 1));
        assert(spec_stream_bytes(insts.take(i)) == spec_reloc_bytes(insts[0].kind)
            + spec_stream_bytes(tail.take(i - 1)));
        assert(spec_stream_bytes(insts) =~= spec_stream_bytes(insts.take(i))
            + spec_reloc_bytes(insts[i].kind) + spec_stream_bytes(insts.skip(i + 1)));
    }
}

/// Relocation preserves every RIP-relative effective address: at the
/// position where a RIP-relative instruction was re-emitted, the
/// stream holds `PUSH R10; MOV R10, imm64` whose eight-byte immediate
/// is exactly the source instruction's absolute target, so the
/// rewritten instruction reads through R10 from the same address the
/// original addressed through RIP.
pub proof fn lemma_riprel_target_preserved(insts: Seq<DecodedInst>, i: int)
    requires
        0 <= i < insts.len(),
    ensures
        insts[i].kind matches RelocKind::RipRelMem { patched, target } ==> ({
            let off = spec_stream_bytes(insts.take(i)).len() as int;
            let out = spec_stream_bytes(insts);
            &&& off + 14 + patched@.len() <= out.len()
            &&& out.subrange(off, off + 4) == seq![0x41u8, 0x52u8, 0x49u8, 0xBAu8]
            &&& out.subrange(off + 4, off + 12) == spec_le64(target)
        }),
{
    match insts[i].kind {
        RelocKind::RipRelMem { patched, target } => {
            lemma_stream_split(insts, i);
            let off = spec_stream_bytes(insts.take(i)).len() as int;
            let out = spec_stream_bytes(insts);
            let mid = spec_reloc_bytes(insts[i].kind);
            assert(mid.len() == 14 + patched@.len());
            assert(out.subrange(off, off + 4) =~= seq![0x41u8, 0x52u8, 0x49u8, 0xBAu8]);
            assert(out.subrange(off + 4, off + 12) =~= spec_le64(target));
        },
        _ => {},
    }
}

/// Emits the opcode of the short jump on the inverse condition.
pub fn inverse_short_opcode(c: Cond) -> (r: u8)
    ensures
        r == spec_cc_short_opcode(spec_inverse(c)),
{
    match c {
        Cond::E => 0x75,
        Cond::Ne => 0x74,
        Cond::B => 0x73,
        Cond::Ae => 0x72,
        Cond::Be => 0x77,
        Cond::A => 0x76,
        Cond::L => 0x7D,
        Cond::Ge => 0x7C,
        Cond::Le => 0x7F,
        Cond::G => 0x7E,
        Cond::P => 0x7B,
        Cond::Np => 0x7A,
        Cond::O => 0x71,
        Cond::No => 0x70,
        Cond::S => 0x79,
        Cond::Ns => 0x78,
        Cond::Uncond => 0xEB,
    }
}

/// Appends the relocated form of one decoded instruction.
pub fn push_reloc(out: &mut Vec<u8>, inst: &DecodedInst)
    ensures
        final(out)@ == old(out)@ + spec_reloc_bytes(inst.kind),
{
    match &inst.kind {
        RelocKind::Plain { bytes } => {
            out.extend_from_slice(bytes.as_slice());
            assert(out@ =~= old(out)@ + spec_reloc_bytes(inst.kind));
        },
        RelocKind::RipRelMem { patched, target } => {
            out.push(0x41);
            out.push(0x52);
            out.push(0x49);
            out.push(0xBA);
            push_le64(out, *target);
            out.extend_from_slice(patched.as_slice());
            out.push(0x41);
            out.push(0x5A);
            assert(out@ =~= old(out)@ + spec_reloc_bytes(inst.kind));
        },
        RelocKind::NearCall { target } => {
            out.push(0xFF);
            out.push(0x15);
            out.push(0);
            out.push(0);
            out.push(0);
            out.push(0);
            push_le64(out, *target);
            assert(out@ =~= old(out)@ + spec_reloc_bytes(inst.kind));
        },
        RelocKind::NearJmp { target } => {
            out.push(0xFF);
            out.push(0x25);
            out.push(0);
            out.push(0);
            out.push(0);
            out.push(0);
            push_le64(out, *target);
            assert(out@ =~= old(out)@ + spec_reloc_bytes(inst.kind));
        },
        RelocKind::NearJcc { cond, target } => {
            let op = inverse_short_opcode(*cond);
            out.push(op);
            out.push(14);
            out.push(0xFF);
            out.push(0x25);
            out.push(0);
            out.push(0);
            out.push(0);
            out.push(0);
            push_le64(out, *target);
            assert(out@ =~= old(out)@ + spec_reloc_bytes(inst.kind));
        },
    }
}

/// Emits the whole relocated stream at `eip` and, when a back-jump
/// target is given, appends `JMP rel32` to it followed by one `NOP`.
/// Fails exactly when the requested back jump cannot be encoded: its
/// address computation would wrap, or it cannot reach its target.
pub fn emit_relocated(insts: &Vec<DecodedInst>, eip: u64, jump_back: Option<u64>) -> (r: Result<
    Vec<u8>,
    AssemblyError,
>)
    ensures
        match r {
            Ok(v) => match jump_back {
                Some(t) => eip + spec_stream_bytes(insts@).len() + 5 <= u64::MAX && rel32_fits(
                    (eip + spec_stream_bytes(insts@).len() + 5) as u64,
                    t,
                ) && v@ == spec_stream_bytes(insts@) + spec_jmp_rel32(
                    (eip + spec_stream_bytes(insts@).len()) as u64,
                    t,
                ) + seq![0x90u8],
                None => v@ == spec_stream_bytes(insts@),
            },
            Err(e) => {
                &&& jump_back matches Some(t) && (eip + spec_stream_bytes(insts@).len() + 5
                    > u64::MAX || !rel32_fits((eip + spec_stream_bytes(insts@).len() + 5) as u64, t))
                &&& e matches AssemblyError::AssemblyError(_)
            },
        },
{
    let mut out: Vec<u8> = Vec::new();
    let mut i: usize = 0;
    while i < insts.len()
        invariant
            0 <= i <= insts.len(),
            out@ == spec_stream_bytes(insts@.take(i as int)),
        decreases insts.len() - i,
    {
        push_reloc(&mut out, &insts[i]);
        proof {
            assert(insts@.take(i + 1) =~= insts@.take(i as int).push(insts@[i as int]));
            lemma_stream_snoc(insts@.take(i as int), insts@[i as int]);
        }
        i += 1;
    }
    proof {
        assert(insts@.take(insts@.len() as int) =~= insts@);
    }
    match jump_back {
        Some(t) => {
            let total: u64 = out.len() as u64;
            if total > u64::MAX - 5 || eip > u64::MAX - 5 - total {
                return Err(
                    AssemblyError::AssemblyError("back jump address out of range".to_owned()),
                );
            }
            let here: u64 = eip + total;
            if !rel32_reachable(here + 5, t) {
                return Err(
                    AssemblyError::AssemblyError("back jump out of rel32 range".to_owned()),
                );
            }
            push_jmp_rel32(&mut out, here, t);
            out.push(0x90);
            assert(out@ =~= spec_stream_bytes(insts@) + spec_jmp_rel32(here, t) + seq![0x90u8]);
            Ok(out)
        },
        None => Ok(out),
    }
}

} // verus!
