//! Derivation of the program's keyless authority addresses.
//!
//! Each role — the loot mint authority, the fee-asset mint and the treasury
//! — lives at a deterministic, program-controlled address derived from a
//! fixed seed label and the deployed program's identity. No private key
//! exists for these addresses; authority is proven by re-deriving the
//! address from its seed together with the returned bump.

use vstd::prelude::*;

verus! {

/// What the runtime's derivation assigns to the given seed under the given
/// program id: the 32-byte address with its bump seed, or nothing when the
/// bump search finds no viable address or a seed breaks its limits. The
/// whole search, its failure included, is a pure hash computation over the
/// two arguments, so it is a function of them alone.
pub uninterp spec fn pda_of(seed: Seq<u8>, program_id: Seq<u8>) -> Option<(Seq<u8>, u8)>;

/// Relies on solana_program::pubkey::Pubkey::try_find_program_address: a
/// deterministic search over bump seeds built on a fixed hash of the seeds
/// and the program id; when it finds a bump it returns the 32-byte derived
/// address with that bump, and in the statistically improbable event that no
/// bump works, or when a precondition of the search is violated, it returns
/// `None` rather than panicking.
#[verifier::external_body]
fn find_program_address(seed: &Vec<u8>, program_id: &Vec<u8>) -> (r: Option<(Vec<u8>, u8)>)
    requires
        program_id@.len() == 32,
    ensures
        r.is_some() == pda_of(seed@, program_id@).is_some(),
        r matches Some(p) ==> ({
            &&& p.0@ == pda_of(seed@, program_id@).unwrap().0
            &&& p.1 == pda_of(seed@, program_id@).unwrap().1
            &&& p.0@.len() == 32
        }),
{
    let mut pid = [0u8; 32];
    pid.copy_from_slice(program_id.as_slice());
    let program = solana_program::pubkey::Pubkey::new_from_array(pid);
    let (address, bump) =
        solana_program::pubkey::Pubkey::try_find_program_address(&[seed.as_slice()], &program)?;
    Some((address.to_bytes().to_vec(), bump))
}

/// Seed label of the program-controlled fee-asset mint: `caps-mint`.
pub open spec fn caps_mint_seed() -> Seq<u8> {
    seq![99u8, 97u8, 112u8, 115u8, 45u8, 109u8, 105u8, 110u8, 116u8]
}

/// Seed label of the treasury: `treasury`.
pub open spec fn treasury_seed() -> Seq<u8> {
    seq![116u8, 114u8, 101u8, 97u8, 115u8, 117u8, 114u8, 121u8]
}

/// Seed label of the authority over every loot mint: `loot-mint-auth`.
pub open spec fn loot_mint_authority_seed() -> Seq<u8> {
    seq![108u8, 111u8, 111u8, 116u8, 45u8, 109u8, 105u8, 110u8, 116u8, 45u8, 97u8, 117u8, 116u8, 104u8]
}

/// The `caps-mint` seed label as executable bytes.
pub fn caps_mint_seed_bytes() -> (r: Vec<u8>)
    ensures
        r@ == caps_mint_seed(),
{
    let mut v: Vec<u8> = Vec::new();
    v.push(99u8);
    v.push(97u8);
    v.push(112u8);
    v.push(115u8);
    v.push(45u8);
    v.push(109u8);
    v.push(105u8);
    v.push(110u8);
    v.push(116u8);
    assert(v@ =~= caps_mint_seed());
    v
}

/// The `treasury` seed label as executable bytes.
pub fn treasury_seed_bytes() -> (r: Vec<u8>)
    ensures
        r@ == treasury_seed(),
{
    let mut v: Vec<u8> = Vec::new();
    v.push(116u8);
    v.push(114u8);
    v.push(101u8);
    v.push(97u8);
    v.push(115u8);
    v.push(117u8);
    v.push(114u8);
    v.push(121u8);
    assert(v@ =~= treasury_seed());
    v
}

/// The `loot-mint-auth` seed label as executable bytes.
pub fn loot_mint_authority_seed_bytes() -> (r: Vec<u8>)
    ensures
        r@ == loot_mint_authority_seed(),
{
    let mut v: Vec<u8> = Vec::new();
    v.push(108u8);
    v.push(111u8);
    v.push(111u8);
    v.push(116u8);
    v.push(45u8);
    v.push(109u8);
    v.push(105u8);
    v.push(110u8);
    v.push(116u8);
    v.push(45u8);
    v.push(97u8);
    v.push(117u8);
    v.push(116u8);
    v.push(104u8);
    assert(v@ =~= loot_mint_authority_seed());
    v
}

/// Derives the loot mint authority for the given deployed program identity:
/// exactly the address and bump that the runtime's derivation assigns to the
/// `loot-mint-auth` seed, and `None` exactly when that derivation finds no
/// viable bump for it.
pub fn derive_loot_mint_authority(program_id: &Vec<u8>) -> (r: Option<(Vec<u8>, u8)>)
    requires
        program_id@.len() == 32,
    ensures
        r.is_some() == pda_of(loot_mint_authority_seed(), program_id@).is_some(),
        r matches Some(p) ==> ({
            &&& p.0@ == pda_of(loot_mint_authority_seed(), program_id@).unwrap().0
            &&& p.1 == pda_of(loot_mint_authority_seed(), program_id@).unwrap().1
            &&& p.0@.len() == 32
        }),
{
    let seed = loot_mint_authority_seed_bytes();
    find_program_address(&seed, program_id)
}

/// Derives the fee-asset mint address for the given program identity:
/// exactly what the runtime's derivation assigns to the `caps-mint` seed,
/// and `None` exactly when it finds no viable bump for it.
pub fn derive_caps_mint(program_id: &Vec<u8>) -> (r: Option<(Vec<u8>, u8)>)
    requires
        program_id@.len() == 32,
    ensures
        r.is_some() == pda_of(caps_mint_seed(), program_id@).is_some(),
        r matches Some(p) ==> ({
            &&& p.0@ == pda_of(caps_mint_seed(), program_id@).unwrap().0
            &&& p.1 == pda_of(caps_mint_seed(), program_id@).unwrap().1
            &&& p.0@.len() == 32
        }),
{
    let seed = caps_mint_seed_bytes();
    find_program_address(&seed, program_id)
}

/// Derives the treasury address for the given program identity: exactly
/// what the runtime's derivation assigns to the `treasury` seed, and `None`
/// exactly when it finds no viable bump for it.
pub fn derive_treasury(program_id: &Vec<u8>) -> (r: Option<(Vec<u8>, u8)>)
    requires
        program_id@.len() == 32,
    ensures
        r.is_some() == pda_of(treasury_seed(), program_id@).is_some(),
        r matches Some(p) ==> ({
            &&& p.0@ == pda_of(treasury_seed(), program_id@).unwrap().0
            &&& p.1 == pda_of(treasury_seed(), program_id@).unwrap().1
            &&& p.0@.len() == 32
        }),
{
    let seed = treasury_seed_bytes();
    find_program_address(&seed, program_id)
}

} // verus!
