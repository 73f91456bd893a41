//! The redemption orchestrator.
//!
//! A redemption runs four sequential stages inside one atomic transaction:
//! burn the fee, verify the voucher against the sibling signature
//! instruction, mint the loot token, and attach its immutable metadata. The
//! decisions are a pure step function from the claim context, the current
//! stage and the outcome of the last ledger action to the next stage and the
//! next action; the caller performs each action against the ledger and feeds
//! the outcome back. Any failure aborts the whole sequence, and the
//! enclosing transaction rolls every side effect back, so a fee burn that
//! precedes a failed verification never takes effect.

use vstd::prelude::*;
use crate::codec::LootVoucher;
use crate::introspection::{
    check_sibling_spec, ErrorCode, InstructionRecord, verify_spec, verify_ed25519_signature,
};
use crate::naming::{loot_name, loot_name_spec, loot_uri, loot_uri_spec, symbol_bytes, symbol_spec};

verus! {

/// The fee burned on every redemption: 100 whole units of the fee asset,
/// which carries nine fractional decimal places.
pub const CLAIM_FEE_BASE_UNITS: u64 = 100 * 1_000_000_000;

/// Exactly one unit of the freshly created zero-decimal loot mint.
pub const LOOT_MINT_AMOUNT: u64 = 1;

/// Everything the redemption decision logic reads: the voucher, the trusted
/// server key, the transaction's instruction list with the redemption
/// instruction's own position in it, and the caller-rendered coordinate
/// texts for the metadata name (they come from floating-point values the
/// library does not hold).
pub struct ClaimContext {
    pub voucher: LootVoucher,
    pub server_pubkey: Vec<u8>,
    pub instructions: Vec<InstructionRecord>,
    pub current_index: usize,
    pub lat_text: Vec<u8>,
    pub lon_text: Vec<u8>,
}

impl ClaimContext {
    pub open spec fn wf(self) -> bool {
        &&& self.server_pubkey@.len() == 32
        &&& self.current_index < self.instructions@.len()
        &&& self.voucher.wf()
    }

    /// What voucher verification returns for this context: the sibling
    /// instruction is checked against the server key, the voucher's
    /// canonical encoding, and the voucher's signature.
    pub open spec fn verdict(self) -> Result<(), ErrorCode> {
        verify_spec(
            self.instructions@,
            self.current_index as int,
            self.server_pubkey@,
            LootVoucher::encode_spec(self.voucher@),
            self.voucher@.server_signature,
        )
    }
}

/// The stage the orchestrator stands at. Each stage after `BurnFee` is
/// entered when the previous stage's ledger action is issued and receives
/// that action's outcome as its event.
#[derive(Clone, Copy, PartialEq, Eq, Structural, Debug)]
pub enum RedemptionStage {
    BurnFee,
    VerifyVoucher,
    MintAsset,
    AttachMetadata,
    Done,
    Aborted,
}

/// What the caller reports to the step function: the start of a redemption,
/// or the outcome of the ledger action the machine last issued.
#[derive(Clone, Copy, PartialEq, Eq, Structural, Debug)]
pub enum RedemptionEvent {
    Begin,
    BurnSucceeded,
    BurnFailed,
    MintSucceeded,
    MintFailed,
    MetadataSucceeded,
    MetadataFailed,
}

/// The immutable metadata record attached to the freshly minted loot token.
/// The record follows the plain non-fungible standard and carries no
/// creators list; both facts travel here so that the step function's
/// contract fixes them rather than the caller.
pub struct MetadataParams {
    pub name: Vec<u8>,
    pub symbol: Vec<u8>,
    pub uri: Vec<u8>,
    pub seller_fee_basis_points: u16,
    pub is_mutable: bool,
    pub primary_sale_happened: bool,
    pub non_fungible: bool,
    pub has_creators: bool,
    pub collection_verified: bool,
    pub collection_key: Vec<u8>,
}

/// The ledger action the caller must perform next, or the final outcome.
pub enum RedemptionAction {
    /// Burn this many base units of the fee asset from the player's holding
    /// account, authorized by the player's own signature.
    BurnCapsFee { amount: u64 },
    /// Mint this many units of the new loot mint to the player's holding
    /// account, authorized by the derived mint authority.
    MintLoot { amount: u64 },
    /// Create the immutable metadata record bound to the new mint.
    CreateLootMetadata { params: MetadataParams },
    /// The redemption finished; nothing is left to do.
    Complete,
    /// Abort the whole transaction. A verification failure carries its
    /// error; a failure of a ledger action bubbles the subsystem's own
    /// error unmodified, so none is carried here.
    Abort { error: Option<ErrorCode> },
}

/// Which event may be delivered in which stage. `Done` and `Aborted` are
/// terminal and expect nothing.
pub open spec fn stage_expects(stage: RedemptionStage, event: RedemptionEvent) -> bool {
    match (stage, event) {
        (RedemptionStage::BurnFee, RedemptionEvent::Begin) => true,
        (RedemptionStage::VerifyVoucher, RedemptionEvent::BurnSucceeded) => true,
        (RedemptionStage::VerifyVoucher, RedemptionEvent::BurnFailed) => true,
        (RedemptionStage::MintAsset, RedemptionEvent::MintSucceeded) => true,
        (RedemptionStage::MintAsset, RedemptionEvent::MintFailed) => true,
        (RedemptionStage::AttachMetadata, RedemptionEvent::MetadataSucceeded) => true,
        (RedemptionStage::AttachMetadata, RedemptionEvent::MetadataFailed) => true,
        _ => false,
    }
}

/// The 32 zero bytes of the default collection key; the collection stays
/// unverified.
pub open spec fn zero_key() -> Seq<u8> {
    Seq::new(32, |i: int| 0u8)
}

/// The default collection key as executable bytes.
pub fn zero_key_bytes() -> (r: Vec<u8>)
    ensures
        r@ == zero_key(),
{
    let mut v: Vec<u8> = Vec::new();
    let mut k: usize = 0;
    while k < 32
        invariant
            k <= 32,
            v@.len() == k,
            forall|i: int| 0 <= i < k ==> v@[i] == 0u8,
        decreases 32 - k,
    {
        v.push(0u8);
        k += 1;
    }
    assert(v@ =~= zero_key());
    v
}

/// One transition of the redemption state machine.
///
/// The transition table, exhaustively: starting burns the fee; a successful
/// burn triggers voucher verification, whose verdict either issues the mint
/// or aborts with the verification error; a successful mint issues the
/// metadata record with the synthesized name and URI, zero royalties,
/// immutable and with primary sale marked; a successful metadata creation
/// completes the redemption; and every failed ledger action aborts, its
/// error left to bubble unmodified.
pub fn claim_step(ctx: &ClaimContext, stage: RedemptionStage, event: RedemptionEvent) -> (r: (
    RedemptionStage,
    RedemptionAction,
))
    requires
        ctx.wf(),
        stage_expects(stage, event),
    ensures
        stage == RedemptionStage::BurnFee ==> r.0 == RedemptionStage::VerifyVoucher
            && (r.1 matches RedemptionAction::BurnCapsFee { amount }
            && amount == CLAIM_FEE_BASE_UNITS),
        stage == RedemptionStage::VerifyVoucher && event == RedemptionEvent::BurnSucceeded
            && ctx.verdict() == Ok::<(), ErrorCode>(()) ==> r.0 == RedemptionStage::MintAsset
            && (r.1 matches RedemptionAction::MintLoot { amount } && amount == LOOT_MINT_AMOUNT),
        stage == RedemptionStage::VerifyVoucher && event == RedemptionEvent::BurnSucceeded
            ==> (ctx.verdict() matches Err(e) ==> r.0 == RedemptionStage::Aborted
            && (r.1 matches RedemptionAction::Abort { error } && error == Some(e))),
        stage == RedemptionStage::VerifyVoucher && event == RedemptionEvent::BurnFailed
            ==> r.0 == RedemptionStage::Aborted
            && (r.1 matches RedemptionAction::Abort { error } && error == None::<ErrorCode>),
        stage == RedemptionStage::MintAsset && event == RedemptionEvent::MintSucceeded
            ==> r.0 == RedemptionStage::AttachMetadata
            && (r.1 matches RedemptionAction::CreateLootMetadata { params } && {
            &&& params.name@ == loot_name_spec(
                ctx.voucher.loot_id,
                ctx.lat_text@,
                ctx.lon_text@,
                ctx.voucher.location_hint@,
            )
            &&& params.symbol@ == symbol_spec()
            &&& params.uri@ == loot_uri_spec(ctx.voucher.loot_id)
            &&& params.seller_fee_basis_points == 0
            &&& !params.is_mutable
            &&& params.primary_sale_happened
            &&& params.non_fungible
            &&& !params.has_creators
            &&& !params.collection_verified
            &&& params.collection_key@ == zero_key()
        }),
        stage == RedemptionStage::MintAsset && event == RedemptionEvent::MintFailed
            ==> r.0 == RedemptionStage::Aborted
            && (r.1 matches RedemptionAction::Abort { error } && error == None::<ErrorCode>),
        stage == RedemptionStage::AttachMetadata && event == RedemptionEvent::MetadataSucceeded
            ==> r.0 == RedemptionStage::Done && r.1 matches RedemptionAction::Complete,
        stage == RedemptionStage::AttachMetadata && event == RedemptionEvent::MetadataFailed
            ==> r.0 == RedemptionStage::Aborted
            && (r.1 matches RedemptionAction::Abort { error } && error == None::<ErrorCode>),
{
    match (stage, event) {
        (RedemptionStage::BurnFee, RedemptionEvent::Begin) => (
            RedemptionStage::VerifyVoucher,
            RedemptionAction::BurnCapsFee { amount: CLAIM_FEE_BASE_UNITS },
        ),
        (RedemptionStage::VerifyVoucher, RedemptionEvent::BurnSucceeded) => {
            let message = ctx.voucher.serialize();
            let outcome = verify_ed25519_signature(
                &ctx.instructions,
                ctx.current_index,
                ctx.server_pubkey.as_slice(),
                message.as_slice(),
                ctx.voucher.server_signature.as_slice(),
            );
            match outcome {
                Ok(()) => (
                    RedemptionStage::MintAsset,
                    RedemptionAction::MintLoot { amount: LOOT_MINT_AMOUNT },
                ),
                Err(e) => (
                    RedemptionStage::Aborted,
                    RedemptionAction::Abort { error: Some(e) },
                ),
            }
        },
        (RedemptionStage::VerifyVoucher, RedemptionEvent::BurnFailed) => (
            RedemptionStage::Aborted,
            RedemptionAction::Abort { error: None },
        ),
        (RedemptionStage::MintAsset, RedemptionEvent::MintSucceeded) => {
            let params = MetadataParams {
                name: loot_name(
                    ctx.voucher.loot_id,
                    ctx.lat_text.as_slice(),
                    ctx.lon_text.as_slice(),
                    ctx.voucher.location_hint.as_slice(),
                ),
                symbol: symbol_bytes(),
                uri: loot_uri(ctx.voucher.loot_id),
                seller_fee_basis_points: 0,
                is_mutable: false,
                primary_sale_happened: true,
                non_fungible: true,
                has_creators: false,
                collection_verified: false,
                collection_key: zero_key_bytes(),
            };
            (RedemptionStage::AttachMetadata, RedemptionAction::CreateLootMetadata { params })
        },
        (RedemptionStage::MintAsset, RedemptionEvent::MintFailed) => (
            RedemptionStage::Aborted,
            RedemptionAction::Abort { error: None },
        ),
        (RedemptionStage::AttachMetadata, RedemptionEvent::MetadataSucceeded) => (
            RedemptionStage::Done,
            RedemptionAction::Complete,
        ),
        (RedemptionStage::AttachMetadata, RedemptionEvent::MetadataFailed) => (
            RedemptionStage::Aborted,
            RedemptionAction::Abort { error: None },
        ),
        _ => vstd::pervasive::unreached(),
    }
}

/// No consumed-voucher record exists: the verification verdict depends only
/// on the bytes of the submitted transaction, so resubmitting a
/// byte-identical voucher and sibling instruction a second time yields the
/// identical verdict, and a voucher that redeemed once redeems again.
#[verifier::rlimit(60)]
pub proof fn lemma_no_replay_protection(c1: ClaimContext, c2: ClaimContext)
    requires
        c1.wf(),
        c2.wf(),
        c1.voucher@ == c2.voucher@,
        c1.server_pubkey@ == c2.server_pubkey@,
        c1.current_index == c2.current_index,
        c1.instructions@.len() == c2.instructions@.len(),
        forall|i: int|
            0 <= i < c1.instructions@.len() ==> c1.instructions@[i].program_id@
                == c2.instructions@[i].program_id@ && c1.instructions@[i].data@
                == c2.instructions@[i].data@,
    ensures
        c1.verdict() == c2.verdict(),
{
    let idx = c1.current_index as int;
    if idx > 0 {
        let j = idx - 1;
        assert(c1.instructions@[j].program_id@ == c2.instructions@[j].program_id@);
        assert(c1.instructions@[j].data@ == c2.instructions@[j].data@);
        assert(c1.verdict() == check_sibling_spec(
            c1.instructions@[j].program_id@,
            c1.instructions@[j].data@,
            c1.server_pubkey@,
            LootVoucher::encode_spec(c1.voucher@),
            c1.voucher@.server_signature,
        ));
        assert(c2.verdict() == check_sibling_spec(
            c1.instructions@[j].program_id@,
            c1.instructions@[j].data@,
            c1.server_pubkey@,
            LootVoucher::encode_spec(c1.voucher@),
            c1.voucher@.server_signature,
        ));
    }
}

} // verus!
