//! Canonical byte codec for loot vouchers.
//!
//! The off-chain signing service signs exactly the bytes that
//! [`LootVoucher::serialize`] produces; the on-ledger verifier re-derives
//! them from the voucher fields. The layout is a protocol contract: all
//! integers are fixed-width little-endian, the coordinates travel as the
//! 64-bit patterns of their floating-point values, and the location hint is
//! prefixed by its 32-bit byte length.

use vstd::prelude::*;
use crate::bytes::{
    u64_le_bytes, u32_le_bytes, u64_from_le, u32_from_le, i64_as_u64, u64_as_i64,
    push_u64_le, push_u32_le, read_u64_le, read_u32_le, i64_to_u64, u64_to_i64,
    lemma_u64_le_round_trip, lemma_u32_le_round_trip, lemma_i64_round_trip,
};
use vstd::slice::{slice_subrange, slice_to_vec};

verus! {

/// A server-issued, signed description of a redeemable reward.
///
/// The coordinates are carried as the bit patterns of 64-bit IEEE 754
/// values; callers that work with floating-point numbers convert at the
/// boundary. The signature is a 64-byte signature over the canonical
/// encoding of the other five fields.
#[derive(Clone)]
pub struct LootVoucher {
    pub loot_id: u64,
    pub latitude_bits: u64,
    pub longitude_bits: u64,
    pub timestamp: i64,
    pub location_hint: Vec<u8>,
    pub server_signature: Vec<u8>,
}

/// The mathematical image of a voucher.
#[verifier::ext_equal]
pub ghost struct VoucherModel {
    pub loot_id: u64,
    pub latitude_bits: u64,
    pub longitude_bits: u64,
    pub timestamp: i64,
    pub location_hint: Seq<u8>,
    pub server_signature: Seq<u8>,
}

impl View for LootVoucher {
    type V = VoucherModel;

    open spec fn view(&self) -> VoucherModel {
        VoucherModel {
            loot_id: self.loot_id,
            latitude_bits: self.latitude_bits,
            longitude_bits: self.longitude_bits,
            timestamp: self.timestamp,
            location_hint: self.location_hint@,
            server_signature: self.server_signature@,
        }
    }
}

impl VoucherModel {
    /// A voucher is well formed when its hint length fits the 32-bit length
    /// prefix and its signature has the fixed 64-byte width.
    pub open spec fn wf(self) -> bool {
        &&& self.location_hint.len() <= 0xffff_ffff
        &&& self.server_signature.len() == 64
    }
}

impl LootVoucher {
    pub open spec fn wf(self) -> bool {
        self@.wf()
    }

    /// The canonical message bytes of a voucher: the five signed fields in
    /// order, with no signature included.
    pub open spec fn encode_spec(v: VoucherModel) -> Seq<u8>
        recommends
            v.wf(),
    {
        u64_le_bytes(v.loot_id) + u64_le_bytes(v.latitude_bits) + u64_le_bytes(v.longitude_bits)
            + u64_le_bytes(i64_as_u64(v.timestamp) as u64)
            + u32_le_bytes(v.location_hint.len() as u32) + v.location_hint
    }

    /// The inverse of [`LootVoucher::encode_spec`]: a message parses exactly
    /// when it has the 36-byte header and precisely the declared hint length
    /// behind it.
    pub open spec fn decode_spec(m: Seq<u8>, sig: Seq<u8>) -> Option<VoucherModel> {
        if m.len() < 36 {
            None
        } else if m.len() != 36 + u32_from_le(m.subrange(32, 36)) {
            None
        } else {
            Some(VoucherModel {
                loot_id: u64_from_le(m.subrange(0, 8)) as u64,
                latitude_bits: u64_from_le(m.subrange(8, 16)) as u64,
                longitude_bits: u64_from_le(m.subrange(16, 24)) as u64,
                timestamp: u64_as_i64(u64_from_le(m.subrange(24, 32))),
                location_hint: m.subrange(36, m.len() as int),
                server_signature: sig,
            })
        }
    }

    /// Produces the canonical message bytes that the server signed.
    pub fn serialize(&self) -> (r: Vec<u8>)
        requires
            self@.location_hint.len() <= 0xffff_ffff,
        ensures
            r@ == Self::encode_spec(self@),
    {
        let mut out: Vec<u8> = Vec::new();
        push_u64_le(&mut out, self.loot_id);
        push_u64_le(&mut out, self.latitude_bits);
        push_u64_le(&mut out, self.longitude_bits);
        push_u64_le(&mut out, i64_to_u64(self.timestamp));
        push_u32_le(&mut out, self.location_hint.len() as u32);
        let hint_len = self.location_hint.len();
        let mut k: usize = 0;
        while k < hint_len
            invariant
                hint_len == self.location_hint@.len(),
                k <= hint_len,
                out@ == Self::encode_spec(self@).subrange(0, 36 + k),
            decreases hint_len - k,
        {
            out.push(self.location_hint[k]);
            assert(out@ =~= Self::encode_spec(self@).subrange(0, 36 + k + 1));
            k += 1;
        }
        assert(out@ =~= Self::encode_spec(self@));
        out
    }

    /// Parses canonical message bytes back into a voucher carrying the given
    /// signature. Returns `None` exactly when the message is shorter than
    /// the fixed header or its length disagrees with the hint length prefix.
    pub fn decode(message: &[u8], server_signature: &[u8]) -> (r: Option<LootVoucher>)
        requires
            server_signature@.len() == 64,
        ensures
            r.is_some() == Self::decode_spec(message@, server_signature@).is_some(),
            r.is_some() ==> r.unwrap()@ == Self::decode_spec(message@, server_signature@).unwrap(),
            r.is_some() ==> r.unwrap().wf(),
    {
        let len = message.len();
        if len < 36 {
            return None;
        }
        let hint_len = read_u32_le(message, 32);
        if hint_len as usize != len - 36 {
            return None;
        }
        let v = LootVoucher {
            loot_id: read_u64_le(message, 0),
            latitude_bits: read_u64_le(message, 8),
            longitude_bits: read_u64_le(message, 16),
            timestamp: u64_to_i64(read_u64_le(message, 24)),
            location_hint: slice_to_vec(slice_subrange(message, 36, len)),
            server_signature: slice_to_vec(server_signature),
        };
        assert(v@ =~= Self::decode_spec(message@, server_signature@).unwrap());
        Some(v)
    }
}

/// Round trip: every well-formed voucher decodes back from its own canonical
/// encoding, signature included, unchanged.
pub proof fn lemma_voucher_round_trip(v: VoucherModel)
    requires
        v.wf(),
    ensures
        LootVoucher::decode_spec(LootVoucher::encode_spec(v), v.server_signature) == Some(v),
{
    let m = LootVoucher::encode_spec(v);
    assert(m.len() == 36 + v.location_hint.len());
    assert(m.subrange(0, 8) =~= u64_le_bytes(v.loot_id));
    assert(m.subrange(8, 16) =~= u64_le_bytes(v.latitude_bits));
    assert(m.subrange(16, 24) =~= u64_le_bytes(v.longitude_bits));
    assert(m.subrange(24, 32) =~= u64_le_bytes(i64_as_u64(v.timestamp) as u64));
    assert(m.subrange(32, 36) =~= u32_le_bytes(v.location_hint.len() as u32));
    assert(m.subrange(36, m.len() as int) =~= v.location_hint);
    lemma_u64_le_round_trip(v.loot_id);
    lemma_u64_le_round_trip(v.latitude_bits);
    lemma_u64_le_round_trip(v.longitude_bits);
    lemma_u64_le_round_trip(i64_as_u64(v.timestamp) as u64);
    lemma_u32_le_round_trip(v.location_hint.len() as u32);
    lemma_i64_round_trip(v.timestamp);
    assert(LootVoucher::decode_spec(m, v.server_signature).unwrap() =~= v);
}

} // verus!
