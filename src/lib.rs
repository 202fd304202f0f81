//! Deterministic child-key derivation and signing-request handling for
//! chain signatures: a root secp256k1 key held by a remote threshold signer,
//! per-(account, path) child keys and foreign-chain addresses, the signing
//! request sent to the signer, and the foreign transaction that carries the
//! returned signature.

use vstd::prelude::*;

pub mod curve;
pub mod kdf;
pub mod types;
pub mod amount;
pub mod evm;
pub mod rpc;
pub mod cache;

verus! {

/// The state of the on-chain contract that forwards `sign` and
/// `public_key` calls to the signer contract. It holds nothing.
#[derive(Debug, Clone, Copy, PartialEq, Eq, Structural)]
pub struct CrossContractCaller {}

impl CrossContractCaller {
    /// The state the contract starts with.
    pub fn init() -> (r: CrossContractCaller)
        ensures
            r == (CrossContractCaller {}),
    {
        CrossContractCaller {}
    }

    /// The state after an upgrade: nothing is carried over.
    pub fn migrate() -> (r: CrossContractCaller)
        ensures
            r == (CrossContractCaller {}),
    {
        CrossContractCaller {}
    }
}

} // verus!
