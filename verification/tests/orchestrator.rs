use fizzcaps_onchain::codec::LootVoucher;
use fizzcaps_onchain::introspection::{ed25519_program_id_bytes, ErrorCode, InstructionRecord};
use fizzcaps_onchain::orchestrator::{
    claim_step, ClaimContext, MetadataParams, RedemptionAction, RedemptionEvent, RedemptionStage,
    CLAIM_FEE_BASE_UNITS, LOOT_MINT_AMOUNT,
};

const PK_OFFSET: usize = 16;
const SIG_OFFSET: usize = 48;
const MSG_OFFSET: usize = 112;

fn payload(pk: &[u8; 32], sig: &[u8], msg: &[u8]) -> Vec<u8> {
    let mut d = vec![0u8; MSG_OFFSET + msg.len()];
    d[0] = 1;
    d[2..4].copy_from_slice(&(PK_OFFSET as u16).to_le_bytes());
    d[4..6].copy_from_slice(&(SIG_OFFSET as u16).to_le_bytes());
    d[6..8].copy_from_slice(&(MSG_OFFSET as u16).to_le_bytes());
    d[8..10].copy_from_slice(&(msg.len() as u16).to_le_bytes());
    d[PK_OFFSET..PK_OFFSET + 32].copy_from_slice(pk);
    d[SIG_OFFSET..SIG_OFFSET + 64].copy_from_slice(sig);
    d[MSG_OFFSET..].copy_from_slice(msg);
    d
}

/// A context whose sibling instruction correctly embeds the server key, the
/// voucher's canonical encoding, and the voucher's signature.
fn valid_context() -> ClaimContext {
    let voucher = LootVoucher {
        loot_id: 42,
        latitude_bits: 37.7749f64.to_bits(),
        longitude_bits: (-122.4194f64).to_bits(),
        timestamp: 1_700_000_000,
        location_hint: b"under the bench".to_vec(),
        server_signature: vec![5u8; 64],
    };
    let server_pubkey = vec![3u8; 32];
    let message = voucher.serialize();
    let mut pk = [0u8; 32];
    pk.copy_from_slice(&server_pubkey);
    let instructions = vec![
        InstructionRecord {
            program_id: ed25519_program_id_bytes(),
            data: payload(&pk, &voucher.server_signature, &message),
        },
        InstructionRecord { program_id: vec![9u8; 32], data: vec![] },
    ];
    ClaimContext {
        voucher,
        server_pubkey,
        instructions,
        current_index: 1,
        lat_text: format!("{:.4}", 37.7749f64).into_bytes(),
        lon_text: format!("{:.4}", -122.4194f64).into_bytes(),
    }
}

fn run_to_completion(ctx: &ClaimContext) -> MetadataParams {
    let (stage, action) = claim_step(ctx, RedemptionStage::BurnFee, RedemptionEvent::Begin);
    assert_eq!(stage, RedemptionStage::VerifyVoucher);
    match action {
        RedemptionAction::BurnCapsFee { amount } => assert_eq!(amount, CLAIM_FEE_BASE_UNITS),
        _ => panic!("expected the fee burn"),
    }

    let (stage, action) = claim_step(ctx, stage, RedemptionEvent::BurnSucceeded);
    assert_eq!(stage, RedemptionStage::MintAsset);
    match action {
        RedemptionAction::MintLoot { amount } => assert_eq!(amount, LOOT_MINT_AMOUNT),
        _ => panic!("expected the loot mint"),
    }

    let (stage, action) = claim_step(ctx, stage, RedemptionEvent::MintSucceeded);
    assert_eq!(stage, RedemptionStage::AttachMetadata);
    let params = match action {
        RedemptionAction::CreateLootMetadata { params } => params,
        _ => panic!("expected the metadata creation"),
    };

    let (stage, action) = claim_step(ctx, stage, RedemptionEvent::MetadataSucceeded);
    assert_eq!(stage, RedemptionStage::Done);
    assert!(matches!(action, RedemptionAction::Complete));
    params
}

#[test]
fn end_to_end_redemption() {
    let ctx = valid_context();
    let params = run_to_completion(&ctx);
    assert_eq!(
        params.name,
        b"Fizz Cache #42 @ (37.7749,-122.4194) under the bench".to_vec()
    );
    assert_eq!(params.symbol, b"FIZZLOOT".to_vec());
    assert_eq!(params.uri, b"https://atomicfizzcaps.xyz/loot/42.json".to_vec());
    assert!(params.uri.ends_with(b"42.json"));
    assert_eq!(params.seller_fee_basis_points, 0);
    assert!(!params.is_mutable);
    assert!(params.primary_sale_happened);
    assert!(params.non_fungible);
    assert!(!params.has_creators);
    assert!(!params.collection_verified);
    assert_eq!(params.collection_key, vec![0u8; 32]);
    // 100 whole units at nine fractional decimal places.
    assert_eq!(CLAIM_FEE_BASE_UNITS, 100 * 10u64.pow(9));
}

#[test]
fn resubmitting_the_same_voucher_succeeds_again() {
    // No consumed-voucher record exists: the identical context redeems twice.
    let ctx = valid_context();
    let first = run_to_completion(&ctx);
    let second = run_to_completion(&ctx);
    assert_eq!(first.name, second.name);
    assert_eq!(first.uri, second.uri);
}

#[test]
fn verification_failure_aborts_with_its_error() {
    let mut ctx = valid_context();
    ctx.voucher.server_signature[17] ^= 0x01;
    let (stage, _) = claim_step(&ctx, RedemptionStage::BurnFee, RedemptionEvent::Begin);
    let (stage, action) = claim_step(&ctx, stage, RedemptionEvent::BurnSucceeded);
    assert_eq!(stage, RedemptionStage::Aborted);
    match action {
        RedemptionAction::Abort { error } => assert_eq!(error, Some(ErrorCode::WrongSignature)),
        _ => panic!("expected an abort"),
    }
}

#[test]
fn missing_sibling_aborts_with_no_sibling_error() {
    let mut ctx = valid_context();
    ctx.current_index = 0;
    let (stage, _) = claim_step(&ctx, RedemptionStage::BurnFee, RedemptionEvent::Begin);
    let (stage, action) = claim_step(&ctx, stage, RedemptionEvent::BurnSucceeded);
    assert_eq!(stage, RedemptionStage::Aborted);
    match action {
        RedemptionAction::Abort { error } => assert_eq!(error, Some(ErrorCode::NoEd25519Ix)),
        _ => panic!("expected an abort"),
    }
}

#[test]
fn burn_failure_aborts_and_bubbles_the_subsystem_error() {
    let ctx = valid_context();
    let (stage, _) = claim_step(&ctx, RedemptionStage::BurnFee, RedemptionEvent::Begin);
    let (stage, action) = claim_step(&ctx, stage, RedemptionEvent::BurnFailed);
    assert_eq!(stage, RedemptionStage::Aborted);
    match action {
        RedemptionAction::Abort { error } => assert_eq!(error, None),
        _ => panic!("expected an abort"),
    }
}

#[test]
fn mint_and_metadata_failures_abort() {
    let ctx = valid_context();
    let (stage, action) = claim_step(&ctx, RedemptionStage::MintAsset, RedemptionEvent::MintFailed);
    assert_eq!(stage, RedemptionStage::Aborted);
    assert!(matches!(action, RedemptionAction::Abort { error: None }));
    let (stage, action) =
        claim_step(&ctx, RedemptionStage::AttachMetadata, RedemptionEvent::MetadataFailed);
    assert_eq!(stage, RedemptionStage::Aborted);
    assert!(matches!(action, RedemptionAction::Abort { error: None }));
}
