//! Introspection of the sibling signature-verification instruction.
//!
//! The runtime's native signature-verification program performs the actual
//! elliptic-curve check; it leaves no return value behind. The redemption
//! instruction therefore re-derives every field and byte-compares the
//! pubkey, signature and message embedded in the sibling instruction's
//! payload against its own expected values, so that the signature it trusts
//! is the one over its own voucher and not an unrelated valid signature
//! placed in the same transaction.

use vstd::prelude::*;
use crate::bytes::{u16_le, read_u16_le, bytes_match};

verus! {

/// Failure taxonomy of voucher verification. Every error aborts the whole
/// atomic transaction; none is silently recovered.
#[derive(Clone, Copy, PartialEq, Eq, Structural, Debug)]
pub enum ErrorCode {
    /// The redemption instruction is the first in its transaction, so no
    /// sibling signature-verification instruction precedes it.
    NoEd25519Ix,
    /// The preceding instruction targets a program other than the native
    /// signature-verification program.
    InvalidEd25519Program,
    /// The preceding instruction's payload is shorter than the fixed header
    /// or does not carry exactly one verification entry.
    InvalidEd25519Data,
    /// An offset in the payload header points past the payload's end.
    InvalidEd25519Offsets,
    /// The embedded public key differs from the trusted server key.
    WrongPubkey,
    /// The embedded signature differs from the voucher's signature.
    WrongSignature,
    /// The embedded message differs from the voucher's canonical encoding.
    WrongMessage,
}

/// One instruction of the enclosing transaction, as the redemption
/// instruction reads it back from the transaction's instruction list:
/// the 32-byte address of the targeted program, and the raw payload.
pub struct InstructionRecord {
    pub program_id: Vec<u8>,
    pub data: Vec<u8>,
}

/// The 32-byte address of the runtime's native signature-verification
/// program, `Ed25519SigVerify111111111111111111111111111`.
pub open spec fn ed25519_program_id() -> Seq<u8> {
    seq![
        3u8, 125u8, 70u8, 214u8, 124u8, 147u8, 251u8, 190u8,
        18u8, 249u8, 66u8, 143u8, 131u8, 141u8, 64u8, 255u8,
        5u8, 112u8, 116u8, 73u8, 39u8, 244u8, 138u8, 100u8,
        252u8, 202u8, 112u8, 68u8, 128u8, 0u8, 0u8, 0u8,
    ]
}

/// The same address as executable bytes.
pub fn ed25519_program_id_bytes() -> (r: Vec<u8>)
    ensures
        r@ == ed25519_program_id(),
{
    let mut v: Vec<u8> = Vec::new();
    v.push(3);
    v.push(125);
    v.push(70);
    v.push(214);
    v.push(124);
    v.push(147);
    v.push(251);
    v.push(190);
    v.push(18);
    v.push(249);
    v.push(66);
    v.push(143);
    v.push(131);
    v.push(141);
    v.push(64);
    v.push(255);
    v.push(5);
    v.push(112);
    v.push(116);
    v.push(73);
    v.push(39);
    v.push(244);
    v.push(138);
    v.push(100);
    v.push(252);
    v.push(202);
    v.push(112);
    v.push(68);
    v.push(128);
    v.push(0);
    v.push(0);
    v.push(0);
    assert(v@ =~= ed25519_program_id());
    v
}

/// What checking one sibling instruction returns, as a function of the
/// sibling's program address and payload bytes and of the expected pubkey,
/// message and signature. The payload layout is the sibling wire format:
/// byte 0 is the verification-entry count, bytes 2-3, 4-5 and 6-7 are
/// little-endian offsets of the pubkey, signature and message, and bytes
/// 8-9 are the little-endian message length.
pub open spec fn check_sibling_spec(
    program_id: Seq<u8>,
    d: Seq<u8>,
    expected_pubkey: Seq<u8>,
    message: Seq<u8>,
    signature: Seq<u8>,
) -> Result<(), ErrorCode> {
    if program_id != ed25519_program_id() {
        Err(ErrorCode::InvalidEd25519Program)
    } else if d.len() < 16 || d[0] != 1 {
        Err(ErrorCode::InvalidEd25519Data)
    } else if u16_le(d[2], d[3]) + 32 > d.len() || u16_le(d[4], d[5]) + 64 > d.len()
        || u16_le(d[6], d[7]) + u16_le(d[8], d[9]) > d.len() {
        Err(ErrorCode::InvalidEd25519Offsets)
    } else if d.subrange(u16_le(d[2], d[3]), u16_le(d[2], d[3]) + 32) != expected_pubkey {
        Err(ErrorCode::WrongPubkey)
    } else if d.subrange(u16_le(d[4], d[5]), u16_le(d[4], d[5]) + 64) != signature {
        Err(ErrorCode::WrongSignature)
    } else if d.subrange(u16_le(d[6], d[7]), u16_le(d[6], d[7]) + u16_le(d[8], d[9]))
        != message {
        Err(ErrorCode::WrongMessage)
    } else {
        Ok(())
    }
}

/// What verification returns, as a function of the transaction's instruction
/// list, the redemption instruction's own position in it, and the expected
/// pubkey, message and signature: the instruction immediately preceding the
/// current one is checked as the sibling, and a first instruction has none.
pub open spec fn verify_spec(
    instructions: Seq<InstructionRecord>,
    current_index: int,
    expected_pubkey: Seq<u8>,
    message: Seq<u8>,
    signature: Seq<u8>,
) -> Result<(), ErrorCode>
    recommends
        0 <= current_index < instructions.len(),
{
    if current_index == 0 {
        Err(ErrorCode::NoEd25519Ix)
    } else {
        check_sibling_spec(
            instructions[current_index - 1].program_id@,
            instructions[current_index - 1].data@,
            expected_pubkey,
            message,
            signature,
        )
    }
}

/// Locates the instruction immediately preceding the current one, checks
/// that it targets the native signature-verification program, parses its
/// payload, and byte-compares the embedded pubkey, signature and message
/// against the expected values, failing with the first mismatch in that
/// field order.
pub fn verify_ed25519_signature(
    instructions: &Vec<InstructionRecord>,
    current_index: usize,
    expected_pubkey: &[u8],
    message: &[u8],
    signature: &[u8],
) -> (r: Result<(), ErrorCode>)
    requires
        current_index < instructions@.len(),
        expected_pubkey@.len() == 32,
        signature@.len() == 64,
    ensures
        r == verify_spec(
            instructions@,
            current_index as int,
            expected_pubkey@,
            message@,
            signature@,
        ),
{
    if current_index == 0 {
        return Err(ErrorCode::NoEd25519Ix);
    }
    let ix = &instructions[current_index - 1];
    let expected_program = ed25519_program_id_bytes();
    if ix.program_id.len() != 32
        || !bytes_match(ix.program_id.as_slice(), 0, expected_program.as_slice()) {
        assert(ix.program_id@.len() == 32
            ==> ix.program_id@.subrange(0, 32) =~= ix.program_id@);
        return Err(ErrorCode::InvalidEd25519Program);
    }
    assert(ix.program_id@.subrange(0, 32) =~= ix.program_id@);
    let data = ix.data.as_slice();
    let dlen = data.len();
    if dlen < 16 || data[0] != 1 {
        return Err(ErrorCode::InvalidEd25519Data);
    }
    let pubkey_offset = read_u16_le(data, 2) as usize;
    let sig_offset = read_u16_le(data, 4) as usize;
    let msg_offset = read_u16_le(data, 6) as usize;
    let msg_len = read_u16_le(data, 8) as usize;
    if pubkey_offset + 32 > dlen || sig_offset + 64 > dlen || msg_offset + msg_len > dlen {
        return Err(ErrorCode::InvalidEd25519Offsets);
    }
    if !bytes_match(data, pubkey_offset, expected_pubkey) {
        return Err(ErrorCode::WrongPubkey);
    }
    if !bytes_match(data, sig_offset, signature) {
        return Err(ErrorCode::WrongSignature);
    }
    if msg_len != message.len() {
        assert(ix.data@.subrange(msg_offset as int, msg_offset + msg_len).len() != message@.len());
        return Err(ErrorCode::WrongMessage);
    }
    if !bytes_match(data, msg_offset, message) {
        return Err(ErrorCode::WrongMessage);
    }
    Ok(())
}

/// A payload that correctly embeds `pk`, `sig` and `msg` under the sibling
/// wire format: one verification entry, offsets in bounds, and the three
/// byte ranges equal to the given values.
pub open spec fn payload_embeds(d: Seq<u8>, pk: Seq<u8>, sig: Seq<u8>, msg: Seq<u8>) -> bool {
    &&& d.len() >= 16
    &&& d[0] == 1
    &&& u16_le(d[2], d[3]) + 32 <= d.len()
    &&& u16_le(d[4], d[5]) + 64 <= d.len()
    &&& u16_le(d[6], d[7]) + u16_le(d[8], d[9]) <= d.len()
    &&& u16_le(d[8], d[9]) == msg.len()
    &&& d.subrange(u16_le(d[2], d[3]), u16_le(d[2], d[3]) + 32) == pk
    &&& d.subrange(u16_le(d[4], d[5]), u16_le(d[4], d[5]) + 64) == sig
    &&& d.subrange(u16_le(d[6], d[7]), u16_le(d[6], d[7]) + msg.len()) == msg
}

/// For any voucher data and matching signature placed correctly as the
/// prior sibling instruction, verification succeeds.
pub proof fn lemma_matching_sibling_verifies(
    instructions: Seq<InstructionRecord>,
    current_index: int,
    pk: Seq<u8>,
    msg: Seq<u8>,
    sig: Seq<u8>,
)
    requires
        0 < current_index < instructions.len(),
        instructions[current_index - 1].program_id@ == ed25519_program_id(),
        payload_embeds(instructions[current_index - 1].data@, pk, sig, msg),
    ensures
        verify_spec(instructions, current_index, pk, msg, sig) == Ok::<(), ErrorCode>(()),
{
}

/// If the redemption instruction is the first instruction in its
/// transaction, verification fails with the missing-sibling error.
pub proof fn lemma_first_instruction_fails(
    instructions: Seq<InstructionRecord>,
    pk: Seq<u8>,
    msg: Seq<u8>,
    sig: Seq<u8>,
)
    ensures
        verify_spec(instructions, 0, pk, msg, sig)
            == Err::<(), ErrorCode>(ErrorCode::NoEd25519Ix),
{
}

/// If the prior instruction targets any program other than the native
/// signature-verification program, verification fails with the
/// wrong-program error.
pub proof fn lemma_wrong_program_fails(
    instructions: Seq<InstructionRecord>,
    current_index: int,
    pk: Seq<u8>,
    msg: Seq<u8>,
    sig: Seq<u8>,
)
    requires
        0 < current_index < instructions.len(),
        instructions[current_index - 1].program_id@ != ed25519_program_id(),
    ensures
        verify_spec(instructions, current_index, pk, msg, sig)
            == Err::<(), ErrorCode>(ErrorCode::InvalidEd25519Program),
{
}

/// Offsets that would read past the payload's bounds fail with the
/// out-of-bounds error; no byte range is ever compared.
pub proof fn lemma_out_of_bounds_offsets_fail(
    instructions: Seq<InstructionRecord>,
    current_index: int,
    pk: Seq<u8>,
    msg: Seq<u8>,
    sig: Seq<u8>,
)
    requires
        0 < current_index < instructions.len(),
        instructions[current_index - 1].program_id@ == ed25519_program_id(),
        instructions[current_index - 1].data@.len() >= 16,
        instructions[current_index - 1].data@[0] == 1,
        ({
            let d = instructions[current_index - 1].data@;
            u16_le(d[2], d[3]) + 32 > d.len() || u16_le(d[4], d[5]) + 64 > d.len()
                || u16_le(d[6], d[7]) + u16_le(d[8], d[9]) > d.len()
        }),
    ensures
        verify_spec(instructions, current_index, pk, msg, sig)
            == Err::<(), ErrorCode>(ErrorCode::InvalidEd25519Offsets),
{
}

/// Mutating any single byte of the embedded public key while the signature
/// and message still match causes exactly the pubkey-mismatch error.
pub proof fn lemma_mutated_pubkey_detected(
    instructions: Seq<InstructionRecord>,
    current_index: int,
    pk: Seq<u8>,
    msg: Seq<u8>,
    sig: Seq<u8>,
    j: int,
    b: u8,
)
    requires
        0 < current_index < instructions.len(),
        instructions[current_index - 1].program_id@ == ed25519_program_id(),
        pk.len() == 32,
        0 <= j < 32,
        b != pk[j],
        payload_embeds(instructions[current_index - 1].data@, pk.update(j, b), sig, msg),
    ensures
        verify_spec(instructions, current_index, pk, msg, sig)
            == Err::<(), ErrorCode>(ErrorCode::WrongPubkey),
{
    assert(pk.update(j, b)[j] == b);
    assert(pk.update(j, b) != pk);
}

/// Mutating any single byte of the embedded signature while the public key
/// and message still match causes exactly the signature-mismatch error.
pub proof fn lemma_mutated_signature_detected(
    instructions: Seq<InstructionRecord>,
    current_index: int,
    pk: Seq<u8>,
    msg: Seq<u8>,
    sig: Seq<u8>,
    j: int,
    b: u8,
)
    requires
        0 < current_index < instructions.len(),
        instructions[current_index - 1].program_id@ == ed25519_program_id(),
        sig.len() == 64,
        0 <= j < 64,
        b != sig[j],
        payload_embeds(instructions[current_index - 1].data@, pk, sig.update(j, b), msg),
    ensures
        verify_spec(instructions, current_index, pk, msg, sig)
            == Err::<(), ErrorCode>(ErrorCode::WrongSignature),
{
    assert(sig.update(j, b)[j] == b);
    assert(sig.update(j, b) != sig);
}

/// Mutating any single byte of the embedded message while the public key
/// and signature still match causes exactly the message-mismatch error.
pub proof fn lemma_mutated_message_detected(
    instructions: Seq<InstructionRecord>,
    current_index: int,
    pk: Seq<u8>,
    msg: Seq<u8>,
    sig: Seq<u8>,
    j: int,
    b: u8,
)
    requires
        0 < current_index < instructions.len(),
        instructions[current_index - 1].program_id@ == ed25519_program_id(),
        0 <= j < msg.len(),
        b != msg[j],
        payload_embeds(instructions[current_index - 1].data@, pk, sig, msg.update(j, b)),
    ensures
        verify_spec(instructions, current_index, pk, msg, sig)
            == Err::<(), ErrorCode>(ErrorCode::WrongMessage),
{
    assert(msg.update(j, b)[j] == b);
    assert(msg.update(j, b) != msg);
    assert(msg.update(j, b).len() == msg.len());
}

} // verus!
