use fizzcaps_onchain::authority::{
    caps_mint_seed_bytes, derive_caps_mint, derive_loot_mint_authority, derive_treasury,
    loot_mint_authority_seed_bytes, treasury_seed_bytes,
};
use solana_program::pubkey::Pubkey;

const PROGRAM_ID: [u8; 32] = [7u8; 32];

#[test]
fn seed_labels_are_the_fixed_strings() {
    assert_eq!(caps_mint_seed_bytes(), b"caps-mint".to_vec());
    assert_eq!(treasury_seed_bytes(), b"treasury".to_vec());
    assert_eq!(loot_mint_authority_seed_bytes(), b"loot-mint-auth".to_vec());
}

#[test]
fn loot_mint_authority_matches_runtime_derivation() {
    let pid = PROGRAM_ID.to_vec();
    let (address, bump) = derive_loot_mint_authority(&pid).unwrap();
    let (expected, expected_bump) =
        Pubkey::try_find_program_address(&[b"loot-mint-auth"], &Pubkey::new_from_array(PROGRAM_ID))
            .unwrap();
    assert_eq!(address, expected.to_bytes().to_vec());
    assert_eq!(bump, expected_bump);
}

#[test]
fn caps_mint_matches_runtime_derivation() {
    let pid = PROGRAM_ID.to_vec();
    let (address, bump) = derive_caps_mint(&pid).unwrap();
    let (expected, expected_bump) =
        Pubkey::try_find_program_address(&[b"caps-mint"], &Pubkey::new_from_array(PROGRAM_ID))
            .unwrap();
    assert_eq!(address, expected.to_bytes().to_vec());
    assert_eq!(bump, expected_bump);
}

#[test]
fn treasury_matches_runtime_derivation() {
    let pid = PROGRAM_ID.to_vec();
    let (address, bump) = derive_treasury(&pid).unwrap();
    let (expected, expected_bump) =
        Pubkey::try_find_program_address(&[b"treasury"], &Pubkey::new_from_array(PROGRAM_ID))
            .unwrap();
    assert_eq!(address, expected.to_bytes().to_vec());
    assert_eq!(bump, expected_bump);
}

#[test]
fn distinct_roles_get_distinct_addresses() {
    let pid = PROGRAM_ID.to_vec();
    let (mint_auth, _) = derive_loot_mint_authority(&pid).unwrap();
    let (caps, _) = derive_caps_mint(&pid).unwrap();
    let (treasury, _) = derive_treasury(&pid).unwrap();
    assert_ne!(mint_auth, caps);
    assert_ne!(mint_auth, treasury);
    assert_ne!(caps, treasury);
}
