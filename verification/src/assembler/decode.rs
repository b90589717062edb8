//! Decoding and classifying the target's first instructions.
//!
//! The `iced_x86` disassembler and encoder are reached through two
//! trusted functions that take and return plain values; what each
//! returns is a function of its arguments alone, so the results carry
//! names (`decoded_len`, `decoded_riprel`, ...) that the contracts
//! above them speak of exactly. The walk over the instruction stream —
//! which offsets are visited, when it fails and how, how many bytes it
//! covers, and the bytes each step contributes — is defined here as
//! spec functions over those names (`spec_stream_outcome`,
//! `spec_consumed`, `spec_relocated_stream`), and `decode_stream` is
//! proved to return `Ok` exactly when the walk covers the patch.
use vstd::prelude::*;

use crate::assembler::encode::{spec_le64, spec_reloc_bytes, Cond, DecodedInst, RelocKind};
use crate::assembler::error::AssemblyError;

verus! {

/// Whether an instruction decodes at `offset` of `source` (read from
/// address `ip`): names the negation of `Instruction::is_invalid` on
/// the decoder's result there.
pub uninterp spec fn decoded_valid(source: Seq<u8>, ip: u64, offset: int) -> bool;

/// The byte length of the instruction decoded at `offset`: names
/// `Instruction::len` there.
pub uninterp spec fn decoded_len(source: Seq<u8>, ip: u64, offset: int) -> usize;

/// Whether the instruction decoded at `offset` has a RIP-based memory
/// operand: names `Instruction::memory_base` compared with RIP.
pub uninterp spec fn decoded_riprel(source: Seq<u8>, ip: u64, offset: int) -> bool;

/// The absolute effective address of a RIP-relative memory operand
/// decoded at `offset`: names `Instruction::memory_displacement64`.
pub uninterp spec fn decoded_mem_target(source: Seq<u8>, ip: u64, offset: int) -> u64;

/// Whether the instruction decoded at `offset` is a near call: names
/// `Instruction::is_call_near`.
pub uninterp spec fn decoded_call_near(source: Seq<u8>, ip: u64, offset: int) -> bool;

/// Whether the instruction decoded at `offset` is a short or near
/// unconditional jump: names `Instruction::is_jmp_short_or_near`.
pub uninterp spec fn decoded_jmp_near(source: Seq<u8>, ip: u64, offset: int) -> bool;

/// Whether the instruction decoded at `offset` is a short or near
/// conditional jump: names `Instruction::is_jcc_short_or_near`.
pub uninterp spec fn decoded_jcc_near(source: Seq<u8>, ip: u64, offset: int) -> bool;

/// The condition of the instruction decoded at `offset`: names
/// `Instruction::condition_code`.
pub uninterp spec fn decoded_cond(source: Seq<u8>, ip: u64, offset: int) -> Cond;

/// The absolute target of a near call or jump decoded at `offset`:
/// names `Instruction::near_branch_target`.
pub uninterp spec fn decoded_branch_target(source: Seq<u8>, ip: u64, offset: int) -> u64;

/// Whether the encoder accepts the instruction decoded at `offset`
/// once its memory base is changed to R10 and its displacement
/// zeroed: names the success of `Encoder::encode` on that rewritten
/// instruction.
pub uninterp spec fn riprel_encodable(source: Seq<u8>, ip: u64, offset: int) -> bool;

/// The bytes the encoder produces for the instruction decoded at
/// `offset` with its memory base changed to R10 and its displacement
/// zeroed: names the buffer of `Encoder::encode`.
pub uninterp spec fn patched_riprel(source: Seq<u8>, ip: u64, offset: int) -> Seq<u8>;

/// What one decode of the instruction at an offset reports, as plain
/// values.
pub(crate) struct DecodeSummary {
    /// The instruction decoded (`false` on a malformed or truncated
    /// stream).
    pub valid: bool,
    /// Its length in bytes; the architecture caps it at fifteen.
    pub len: usize,
    /// Its memory operand's base register is RIP.
    pub is_riprel: bool,
    /// Absolute effective address of the RIP-relative operand.
    pub riprel_target: u64,
    /// It is a near call.
    pub is_call: bool,
    /// It is a short or near unconditional jump.
    pub is_jmp: bool,
    /// It is a short or near conditional jump.
    pub is_jcc: bool,
    /// Its condition.
    pub cond: Cond,
    /// Absolute target of the near call or jump.
    pub branch_target: u64,
}

/// Relies on `Decoder::with_ip` and `Decoder::decode`, decoding in
/// 64-bit mode (the only mode this library emits for) one instruction
/// at `offset` of `source`, read from address `ip`; the remaining
/// fields convert the decoded instruction to plain values through its
/// own accessors (`is_invalid`, `len`, `memory_base`,
/// `memory_displacement64`, `is_call_near`, `is_jmp_short_or_near`,
/// `is_jcc_short_or_near`, `condition_code`, `near_branch_target`).
/// Decoding depends on the bytes and the address alone, and iced
/// documents the instruction length as zero to fifteen bytes.
#[verifier::external_body]
fn decode_one(source: &Vec<u8>, ip: u64, offset: usize) -> (r: DecodeSummary)
    requires
        offset <= source@.len(),
    ensures
        r.valid == decoded_valid(source@, ip, offset as int),
        r.len == decoded_len(source@, ip, offset as int),
        r.len <= 15,
        r.is_riprel == decoded_riprel(source@, ip, offset as int),
        r.riprel_target == decoded_mem_target(source@, ip, offset as int),
        r.is_call == decoded_call_near(source@, ip, offset as int),
        r.is_jmp == decoded_jmp_near(source@, ip, offset as int),
        r.is_jcc == decoded_jcc_near(source@, ip, offset as int),
        r.cond == decoded_cond(source@, ip, offset as int),
        r.branch_target == decoded_branch_target(source@, ip, offset as int),
{
    let mut decoder =
        iced_x86::Decoder::with_ip(64, &source[offset..], ip.wrapping_add(offset as u64), 0);
    let i = decoder.decode();
    DecodeSummary {
        valid: !i.is_invalid(), len: i.len(),
        is_riprel: matches!(i.memory_base(), iced_x86::Register::RIP),
        riprel_target: i.memory_displacement64(), is_call: i.is_call_near(),
        is_jmp: i.is_jmp_short_or_near(), is_jcc: i.is_jcc_short_or_near(),
        cond: condition_of(&i), branch_target: i.near_branch_target(),
    }
}

/// Relies on `Decoder::with_ip`/`Decoder::decode` re-reading the
/// instruction at `offset`, `Instruction::set_memory_base` (to R10)
/// and `Instruction::set_memory_displacement64` (to zero) rewriting
/// it, and `Encoder::new`/`encode`/`take_buffer` producing its bytes;
/// an encoder refusal is returned as its message. The result depends
/// on the bytes and the address alone.
#[verifier::external_body]
fn encode_riprel_r10(source: &Vec<u8>, ip: u64, offset: usize) -> (r: Result<Vec<u8>, String>)
    requires
        offset <= source@.len(),
    ensures
        r matches Ok(v) ==> riprel_encodable(source@, ip, offset as int) && v@ == patched_riprel(
            source@,
            ip,
            offset as int,
        ),
        r is Err ==> !riprel_encodable(source@, ip, offset as int),
{
    let mut decoder =
        iced_x86::Decoder::with_ip(64, &source[offset..], ip.wrapping_add(offset as u64), 0);
    let mut instruction = decoder.decode();
    instruction.set_memory_base(iced_x86::Register::R10);
    instruction.set_memory_displacement64(0);
    let mut encoder = iced_x86::Encoder::new(64);
    match encoder.encode(&instruction, ip.wrapping_add(offset as u64)) {
        Ok(_) => Ok(encoder.take_buffer()),
        Err(e) => Err(format!("{e}")),
    }
}

#[verifier::external_type_specification]
#[verifier::external_body]
pub struct ExInstruction(iced_x86::Instruction);

/// Relies on `Instruction::condition_code`, telling the condition of
/// a conditional instruction apart; each value maps to its own form.
#[verifier::external_body]
fn condition_of(i: &iced_x86::Instruction) -> Cond {
    match i.condition_code() {
        iced_x86::ConditionCode::e => Cond::E, iced_x86::ConditionCode::ne => Cond::Ne,
        iced_x86::ConditionCode::b => Cond::B, iced_x86::ConditionCode::ae => Cond::Ae,
        iced_x86::ConditionCode::be => Cond::Be, iced_x86::ConditionCode::a => Cond::A,
        iced_x86::ConditionCode::l => Cond::L, iced_x86::ConditionCode::ge => Cond::Ge,
        iced_x86::ConditionCode::le => Cond::Le, iced_x86::ConditionCode::g => Cond::G,
        iced_x86::ConditionCode::p => Cond::P, iced_x86::ConditionCode::np => Cond::Np,
        iced_x86::ConditionCode::o => Cond::O, iced_x86::ConditionCode::no => Cond::No,
        iced_x86::ConditionCode::s => Cond::S, iced_x86::ConditionCode::ns => Cond::Ns,
        iced_x86::ConditionCode::None => Cond::Uncond,
    }
}

/// The decode step at `offset` fails: the instruction is invalid,
/// makes no progress, or runs past the source.
pub open spec fn decode_fails_at(source: Seq<u8>, ip: u64, offset: int) -> bool {
    ||| !decoded_valid(source, ip, offset)
    ||| decoded_len(source, ip, offset) == 0
    ||| offset + decoded_len(source, ip, offset) > source.len()
}

/// How the decode walk over the patch region ends.
#[derive(Debug, Clone, Copy, PartialEq, Eq, Structural)]
pub enum StreamOutcome {
    /// Whole instructions cover at least `patch_size` bytes, and every
    /// RIP-relative one re-encodes.
    Covered,
    /// Some instruction before the cover is complete does not decode.
    Undecodable,
    /// Some RIP-relative instruction before the cover is complete is
    /// refused by the encoder.
    Unencodable,
}

/// The decode walk from `offset`: step instruction by instruction
/// until at least `patch_size` source bytes are covered, and report
/// the first failure, decode failures taking precedence within one
/// step.
pub open spec fn spec_stream_outcome(
    source: Seq<u8>,
    ip: u64,
    patch_size: int,
    offset: int,
) -> StreamOutcome
    decreases source.len() - offset,
{
    if offset >= patch_size {
        StreamOutcome::Covered
    } else if decode_fails_at(source, ip, offset) {
        StreamOutcome::Undecodable
    } else if decoded_riprel(source, ip, offset) && !riprel_encodable(source, ip, offset) {
        StreamOutcome::Unencodable
    } else {
        spec_stream_outcome(source, ip, patch_size, offset + decoded_len(source, ip, offset))
    }
}

/// The source bytes the walk from `offset` covers: the least sum of
/// whole-instruction lengths reaching `patch_size` (zero where the
/// walk cannot step).
pub open spec fn spec_consumed(source: Seq<u8>, ip: u64, patch_size: int, offset: int) -> int
    decreases source.len() - offset,
{
    if offset >= patch_size {
        0
    } else if decode_fails_at(source, ip, offset) {
        0
    } else {
        decoded_len(source, ip, offset) + spec_consumed(
            source,
            ip,
            patch_size,
            offset + decoded_len(source, ip, offset),
        )
    }
}

/// The bytes re-emitted for the instruction decoded at `offset`:
/// its relocation form over the named decoder results.
pub open spec fn spec_reloc_bytes_at(source: Seq<u8>, ip: u64, offset: int) -> Seq<u8> {
    if decoded_riprel(source, ip, offset) {
        seq![0x41u8, 0x52u8, 0x49u8, 0xBAu8] + spec_le64(decoded_mem_target(source, ip, offset))
            + patched_riprel(source, ip, offset) + seq![0x41u8, 0x5Au8]
    } else if decoded_call_near(source, ip, offset) {
        seq![0xFFu8, 0x15u8, 0u8, 0u8, 0u8, 0u8] + spec_le64(
            decoded_branch_target(source, ip, offset),
        )
    } else if decoded_jmp_near(source, ip, offset) {
        seq![0xFFu8, 0x25u8, 0u8, 0u8, 0u8, 0u8] + spec_le64(
            decoded_branch_target(source, ip, offset),
        )
    } else if decoded_jcc_near(source, ip, offset) {
        seq![
            crate::assembler::encode::spec_cc_short_opcode(
                crate::assembler::encode::spec_inverse(decoded_cond(source, ip, offset)),
            ),
            14u8,
            0xFFu8,
            0x25u8,
            0u8,
            0u8,
            0u8,
            0u8,
        ] + spec_le64(decoded_branch_target(source, ip, offset))
    } else {
        source.subrange(offset, offset + decoded_len(source, ip, offset))
    }
}

/// The bytes the whole relocated walk from `offset` emits, in order.
pub open spec fn spec_relocated_stream(
    source: Seq<u8>,
    ip: u64,
    patch_size: int,
    offset: int,
) -> Seq<u8>
    decreases source.len() - offset,
{
    if offset >= patch_size {
        Seq::empty()
    } else if decode_fails_at(source, ip, offset) {
        Seq::empty()
    } else {
        spec_reloc_bytes_at(source, ip, offset) + spec_relocated_stream(
            source,
            ip,
            patch_size,
            offset + decoded_len(source, ip, offset),
        )
    }
}

/// Total number of source bytes a decoded stream covers.
pub open spec fn spec_total_len(insts: Seq<DecodedInst>) -> int
    decreases insts.len(),
{
    if insts.len() == 0 {
        0
    } else {
        insts[0].len + spec_total_len(insts.subrange(1, insts.len() as int))
    }
}

/// Appending one instruction adds its length to the total.
pub proof fn lemma_total_len_snoc(insts: Seq<DecodedInst>, x: DecodedInst)
    ensures
        spec_total_len(insts.push(x)) == spec_total_len(insts) + x.len,
    decreases insts.len(),
{
    if insts.len() == 0 {
        assert(insts.push(x)[0] == x);
        assert(insts.push(x).subrange(1, insts.push(x).len() as int) =~= Seq::<
            DecodedInst,
        >::empty());
        assert(spec_total_len(Seq::<DecodedInst>::empty()) == 0);
    } else {
        let tail = insts.subrange(1, insts.len() as int);
        assert(insts.push(x)[0] == insts[0]);
        assert(insts.push(x).subrange(1, insts.push(x).len() as int) =~= tail.push(x));
        lemma_total_len_snoc(tail, x);
    }
}

/// One decoded stream element is exactly what the decoder reports at
/// its offset: same length, and the relocation form the named
/// classification selects, carrying the named targets and patched
/// bytes.
pub open spec fn inst_matches_decode(
    inst: DecodedInst,
    source: Seq<u8>,
    ip: u64,
    offset: int,
) -> bool {
    &&& decoded_valid(source, ip, offset)
    &&& inst.len == decoded_len(source, ip, offset)
    &&& 1 <= inst.len <= 15
    &&& offset + inst.len <= source.len()
    &&& if decoded_riprel(source, ip, offset) {
        &&& riprel_encodable(source, ip, offset)
        &&& inst.kind matches RelocKind::RipRelMem { patched, target } && patched@
            == patched_riprel(source, ip, offset) && target == decoded_mem_target(
            source,
            ip,
            offset,
        )
    } else if decoded_call_near(source, ip, offset) {
        inst.kind == (RelocKind::NearCall { target: decoded_branch_target(source, ip, offset) })
    } else if decoded_jmp_near(source, ip, offset) {
        inst.kind == (RelocKind::NearJmp { target: decoded_branch_target(source, ip, offset) })
    } else if decoded_jcc_near(source, ip, offset) {
        inst.kind == (RelocKind::NearJcc {
            cond: decoded_cond(source, ip, offset),
            target: decoded_branch_target(source, ip, offset),
        })
    } else {
        inst.kind matches RelocKind::Plain { bytes } && bytes@ == source.subrange(
            offset,
            offset + inst.len,
        )
    }
}

/// A decoded stream is the decoder's own minimal cover of the patch
/// region: element `j` is what decodes at its offset, the lengths sum
/// to `consumed`, the cover reaches `patch_size` without running past
/// the source, and it is minimal — dropping the last instruction
/// leaves the cover short, so `consumed` stays below `patch_size`
/// plus one instruction length.
pub open spec fn stream_wf(
    insts: Seq<DecodedInst>,
    source: Seq<u8>,
    ip: u64,
    patch_size: int,
    consumed: int,
) -> bool {
    &&& consumed == spec_total_len(insts)
    &&& patch_size <= consumed <= source.len()
    &&& (insts.len() == 0 ==> consumed == 0)
    &&& (insts.len() > 0 ==> consumed - insts.last().len < patch_size && consumed < patch_size
        + 15)
    &&& forall|j: int|
        0 <= j < insts.len() ==> inst_matches_decode(
            #[trigger] insts[j],
            source,
            ip,
            spec_total_len(insts.take(j)),
        )
}

/// One decodable, encodable step unfolds all three walk functions.
proof fn lemma_walk_step(source: Seq<u8>, ip: u64, patch_size: int, offset: int)
    requires
        offset < patch_size,
        !decode_fails_at(source, ip, offset),
        decoded_riprel(source, ip, offset) ==> riprel_encodable(source, ip, offset),
    ensures
        ({
            let next = offset + decoded_len(source, ip, offset);
            &&& spec_stream_outcome(source, ip, patch_size, offset) == spec_stream_outcome(
                source,
                ip,
                patch_size,
                next,
            )
            &&& spec_consumed(source, ip, patch_size, offset) == decoded_len(source, ip, offset)
                + spec_consumed(source, ip, patch_size, next)
            &&& spec_relocated_stream(source, ip, patch_size, offset) == spec_reloc_bytes_at(
                source,
                ip,
                offset,
            ) + spec_relocated_stream(source, ip, patch_size, next)
        }),
{
}

/// Copies `len` source bytes starting at `start`.
pub(crate) fn copy_range(source: &Vec<u8>, start: usize, len: usize) -> (r: Vec<u8>)
    requires
        start + len <= source@.len(),
    ensures
        r@ == source@.subrange(start as int, start as int + len as int),
{
    let slen: usize = source.len();
    let mut out: Vec<u8> = Vec::new();
    let mut k: usize = 0;
    while k < len
        invariant
            0 <= k <= len,
            start + len <= slen,
            slen == source@.len(),
            out@ == source@.subrange(start as int, start as int + k as int),
        decreases len - k,
    {
        out.push(source[start + k]);
        proof {
            assert(out@ =~= source@.subrange(start as int, start as int + (k + 1)));
        }
        k += 1;
    }
    out
}

/// Decodes whole instructions from `source` (read from address
/// `source_ip`) until at least `patch_size` bytes are covered,
/// classifying each into its relocation form. Succeeds exactly when
/// the decode walk covers the patch region; a malformed or truncated
/// stream is `RelocationError`, an encoder refusal carries its
/// message.
pub fn decode_stream(source: &Vec<u8>, source_ip: u64, patch_size: usize) -> (r: Result<
    (Vec<DecodedInst>, usize),
    AssemblyError,
>)
    ensures
        r is Ok <==> spec_stream_outcome(source@, source_ip, patch_size as int, 0)
            == StreamOutcome::Covered,
        r == Err::<(Vec<DecodedInst>, usize), AssemblyError>(AssemblyError::RelocationError)
            <==> spec_stream_outcome(source@, source_ip, patch_size as int, 0)
            == StreamOutcome::Undecodable,
        (r matches Err(e) && e matches AssemblyError::AssemblyError(_)) <==> spec_stream_outcome(
            source@,
            source_ip,
            patch_size as int,
            0,
        ) == StreamOutcome::Unencodable,
        r matches Ok(ok) ==> {
            &&& stream_wf(ok.0@, source@, source_ip, patch_size as int, ok.1 as int)
            &&& ok.1 as int == spec_consumed(source@, source_ip, patch_size as int, 0)
            &&& crate::assembler::encode::spec_stream_bytes(ok.0@) == spec_relocated_stream(
                source@,
                source_ip,
                patch_size as int,
                0,
            )
        },
{
    let mut insts: Vec<DecodedInst> = Vec::new();
    let mut consumed: usize = 0;
    while consumed < patch_size
        invariant
            consumed as int == spec_total_len(insts@),
            consumed <= source@.len(),
            insts@.len() == 0 ==> consumed == 0,
            insts@.len() > 0 ==> consumed - insts@.last().len < patch_size && consumed < patch_size
                + 15,
            spec_stream_outcome(source@, source_ip, patch_size as int, 0) == spec_stream_outcome(
                source@,
                source_ip,
                patch_size as int,
                consumed as int,
            ),
            spec_consumed(source@, source_ip, patch_size as int, 0) == consumed + spec_consumed(
                source@,
                source_ip,
                patch_size as int,
                consumed as int,
            ),
            spec_relocated_stream(source@, source_ip, patch_size as int, 0)
                == crate::assembler::encode::spec_stream_bytes(insts@) + spec_relocated_stream(
                source@,
                source_ip,
                patch_size as int,
                consumed as int,
            ),
            forall|j: int|
                0 <= j < insts@.len() ==> inst_matches_decode(
                    #[trigger] insts@[j],
                    source@,
                    source_ip,
                    spec_total_len(insts@.take(j)),
                ),
        decreases source@.len() - consumed,
    {
        let d: DecodeSummary = decode_one(source, source_ip, consumed);
        if !d.valid || d.len == 0 || d.len > source.len() - consumed {
            proof {
                assert(decode_fails_at(source@, source_ip, consumed as int));
            }
            return Err(AssemblyError::RelocationError);
        }
        let kind: RelocKind = if d.is_riprel {
            match encode_riprel_r10(source, source_ip, consumed) {
                Ok(patched) => RelocKind::RipRelMem { patched, target: d.riprel_target },
                Err(message) => {
                    proof {
                        assert(!decode_fails_at(source@, source_ip, consumed as int));
                    }
                    return Err(AssemblyError::AssemblyError(message));
                },
            }
        } else if d.is_call {
            RelocKind::NearCall { target: d.branch_target }
        } else if d.is_jmp {
            RelocKind::NearJmp { target: d.branch_target }
        } else if d.is_jcc {
            RelocKind::NearJcc { cond: d.cond, target: d.branch_target }
        } else {
            RelocKind::Plain { bytes: copy_range(source, consumed, d.len) }
        };
        let ghost prev = insts@;
        let inst = DecodedInst { len: d.len, kind };
        proof {
            assert(!decode_fails_at(source@, source_ip, consumed as int));
            assert(inst_matches_decode(inst, source@, source_ip, consumed as int));
            assert(spec_reloc_bytes(inst.kind) =~= spec_reloc_bytes_at(
                source@,
                source_ip,
                consumed as int,
            ));
            lemma_walk_step(source@, source_ip, patch_size as int, consumed as int);
        }
        insts.push(inst);
        proof {
            lemma_total_len_snoc(prev, insts@[prev.len() as int]);
            crate::assembler::encode::lemma_stream_snoc(prev, insts@[prev.len() as int]);
            assert forall|j: int| 0 <= j < prev.len() implies insts@.take(j) =~= prev.take(j) by {}
            assert(insts@.take(prev.len() as int) =~= prev);
        }
        consumed += d.len;
    }
    proof {
        assert(spec_stream_outcome(source@, source_ip, patch_size as int, consumed as int)
            == StreamOutcome::Covered);
        assert(spec_consumed(source@, source_ip, patch_size as int, consumed as int) == 0);
        assert(spec_relocated_stream(source@, source_ip, patch_size as int, consumed as int)
            =~= Seq::<u8>::empty());
    }
    Ok((insts, consumed))
}

} // verus!
