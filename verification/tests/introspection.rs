use fizzcaps_onchain::introspection::{
    ed25519_program_id_bytes, verify_ed25519_signature, ErrorCode, InstructionRecord,
};

const PK_OFFSET: usize = 16;
const SIG_OFFSET: usize = 48;
const MSG_OFFSET: usize = 112;

/// Builds a well-formed signature-verification payload embedding the given
/// pubkey, signature and message at fixed offsets.
fn payload(pk: &[u8; 32], sig: &[u8; 64], msg: &[u8]) -> Vec<u8> {
    let mut d = vec![0u8; MSG_OFFSET + msg.len()];
    d[0] = 1;
    d[2..4].copy_from_slice(&(PK_OFFSET as u16).to_le_bytes());
    d[4..6].copy_from_slice(&(SIG_OFFSET as u16).to_le_bytes());
    d[6..8].copy_from_slice(&(MSG_OFFSET as u16).to_le_bytes());
    d[8..10].copy_from_slice(&(msg.len() as u16).to_le_bytes());
    d[PK_OFFSET..PK_OFFSET + 32].copy_from_slice(pk);
    d[SIG_OFFSET..SIG_OFFSET + 64].copy_from_slice(sig);
    d[MSG_OFFSET..].copy_from_slice(msg);
    d
}

fn transaction_with(data: Vec<u8>) -> Vec<InstructionRecord> {
    vec![
        InstructionRecord { program_id: ed25519_program_id_bytes(), data },
        InstructionRecord { program_id: vec![9u8; 32], data: vec![] },
    ]
}

#[test]
fn matching_sibling_verifies() {
    let pk = [3u8; 32];
    let sig = [5u8; 64];
    let msg = b"canonical voucher bytes";
    let instructions = transaction_with(payload(&pk, &sig, msg));
    assert_eq!(verify_ed25519_signature(&instructions, 1, &pk, msg, &sig), Ok(()));
}

#[test]
fn first_instruction_fails() {
    let pk = [3u8; 32];
    let sig = [5u8; 64];
    let instructions = transaction_with(payload(&pk, &sig, b"m"));
    assert_eq!(
        verify_ed25519_signature(&instructions, 0, &pk, b"m", &sig),
        Err(ErrorCode::NoEd25519Ix)
    );
}

#[test]
fn wrong_verifier_program_fails() {
    let pk = [3u8; 32];
    let sig = [5u8; 64];
    let mut instructions = transaction_with(payload(&pk, &sig, b"m"));
    instructions[0].program_id = vec![8u8; 32];
    assert_eq!(
        verify_ed25519_signature(&instructions, 1, &pk, b"m", &sig),
        Err(ErrorCode::InvalidEd25519Program)
    );
}

#[test]
fn short_payload_fails() {
    let pk = [3u8; 32];
    let sig = [5u8; 64];
    let instructions = transaction_with(vec![1u8; 15]);
    assert_eq!(
        verify_ed25519_signature(&instructions, 1, &pk, b"m", &sig),
        Err(ErrorCode::InvalidEd25519Data)
    );
}

#[test]
fn batched_payload_fails() {
    let pk = [3u8; 32];
    let sig = [5u8; 64];
    let mut data = payload(&pk, &sig, b"m");
    data[0] = 2;
    let instructions = transaction_with(data);
    assert_eq!(
        verify_ed25519_signature(&instructions, 1, &pk, b"m", &sig),
        Err(ErrorCode::InvalidEd25519Data)
    );
}

#[test]
fn pubkey_offset_out_of_bounds_fails() {
    let pk = [3u8; 32];
    let sig = [5u8; 64];
    let mut data = payload(&pk, &sig, b"m");
    let bad = (data.len() - 31) as u16;
    data[2..4].copy_from_slice(&bad.to_le_bytes());
    let instructions = transaction_with(data);
    assert_eq!(
        verify_ed25519_signature(&instructions, 1, &pk, b"m", &sig),
        Err(ErrorCode::InvalidEd25519Offsets)
    );
}

#[test]
fn signature_offset_out_of_bounds_fails() {
    let pk = [3u8; 32];
    let sig = [5u8; 64];
    let mut data = payload(&pk, &sig, b"m");
    let bad = (data.len() - 63) as u16;
    data[4..6].copy_from_slice(&bad.to_le_bytes());
    let instructions = transaction_with(data);
    assert_eq!(
        verify_ed25519_signature(&instructions, 1, &pk, b"m", &sig),
        Err(ErrorCode::InvalidEd25519Offsets)
    );
}

#[test]
fn message_range_out_of_bounds_fails() {
    let pk = [3u8; 32];
    let sig = [5u8; 64];
    let msg = b"longer message body";
    let mut data = payload(&pk, &sig, msg);
    let declared = (msg.len() + 1) as u16;
    data[8..10].copy_from_slice(&declared.to_le_bytes());
    let instructions = transaction_with(data);
    assert_eq!(
        verify_ed25519_signature(&instructions, 1, &pk, msg, &sig),
        Err(ErrorCode::InvalidEd25519Offsets)
    );
}

#[test]
fn mutated_pubkey_byte_gives_pubkey_mismatch() {
    let pk = [3u8; 32];
    let sig = [5u8; 64];
    let msg = b"canonical voucher bytes";
    for j in [0usize, 13, 31] {
        let mut embedded = pk;
        embedded[j] ^= 0x40;
        let instructions = transaction_with(payload(&embedded, &sig, msg));
        assert_eq!(
            verify_ed25519_signature(&instructions, 1, &pk, msg, &sig),
            Err(ErrorCode::WrongPubkey)
        );
    }
}

#[test]
fn mutated_signature_byte_gives_signature_mismatch() {
    let pk = [3u8; 32];
    let sig = [5u8; 64];
    let msg = b"canonical voucher bytes";
    for j in [0usize, 30, 63] {
        let mut embedded = sig;
        embedded[j] ^= 0x40;
        let instructions = transaction_with(payload(&pk, &embedded, msg));
        assert_eq!(
            verify_ed25519_signature(&instructions, 1, &pk, msg, &sig),
            Err(ErrorCode::WrongSignature)
        );
    }
}

#[test]
fn mutated_message_byte_gives_message_mismatch() {
    let pk = [3u8; 32];
    let sig = [5u8; 64];
    let msg = b"canonical voucher bytes";
    for j in [0usize, 7, msg.len() - 1] {
        let mut embedded = msg.to_vec();
        embedded[j] ^= 0x40;
        let instructions = transaction_with(payload(&pk, &sig, &embedded));
        assert_eq!(
            verify_ed25519_signature(&instructions, 1, &pk, msg, &sig),
            Err(ErrorCode::WrongMessage)
        );
    }
}

#[test]
fn message_length_mismatch_gives_message_mismatch() {
    let pk = [3u8; 32];
    let sig = [5u8; 64];
    let instructions = transaction_with(payload(&pk, &sig, b"abc"));
    assert_eq!(
        verify_ed25519_signature(&instructions, 1, &pk, b"abcd", &sig),
        Err(ErrorCode::WrongMessage)
    );
}

#[test]
fn ed25519_id_matches_runtime_id() {
    assert_eq!(
        ed25519_program_id_bytes(),
        solana_program::ed25519_program::ID.to_bytes().to_vec()
    );
}
