//! On-ledger redemption engine for location-bound loot vouchers.
//!
//! A server issues a signed voucher describing a reward. A claim transaction
//! carries two instructions: a native signature-verification instruction
//! followed by the redemption instruction. The library provides the canonical
//! voucher byte codec, the introspection logic that validates the sibling
//! signature-verification instruction, the derivation of the program's
//! keyless authority addresses, and the orchestration of the atomic
//! burn / verify / mint / attach-metadata sequence.

pub mod bytes;
pub mod codec;
pub mod introspection;
pub mod authority;
pub mod naming;
pub mod orchestrator;
