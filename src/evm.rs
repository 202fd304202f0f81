//! The foreign-chain side: fees, nonce and gas attached to a transaction,
//! the hash that the signer signs, the signer's reply turned into an
//! `(r, s, v)` signature, and the signed transaction's bytes.

use vstd::prelude::*;

use ethers_core::types::transaction::eip2718::TypedTransaction;
use ethers_core::types::{H160, U256};

use crate::amount::{two_pow_256, Amount};
use crate::curve::{keccak256, keccak256_digest};
use crate::types::{SignRequest, SignatureResponse};

verus! {

/// The fixed tip offered to block producers, in wei per gas (1 gwei).
pub const MAX_PRIORITY_FEE_PER_GAS: u128 = 1_000_000_000;

/// The key version that signing requests name.
pub const KEY_VERSION: u32 = 0;

/// Why a foreign transaction could not be prepared or finished.
#[derive(Debug, Clone, Copy, PartialEq, Eq, Structural)]
pub enum PipelineError {
    /// The latest block, and so the base fee, could not be read.
    FeeQuoteUnavailable,
    /// The base fee plus the tip does not fit in 256 bits.
    FeeOverflow,
    /// The sender's transaction count could not be read.
    NonceUnavailable,
    /// The gas estimate could not be read.
    GasEstimationFailed,
    /// The chain id could not be read.
    ChainIdUnavailable,
    /// The signer's reply does not make a signature for this chain.
    MalformedSignature,
}

/// A transfer or call as the caller states it.
#[derive(Debug, Clone)]
pub struct EVMTransaction {
    pub to: [u8; 20],
    pub value: Amount,
    pub data: Vec<u8>,
    pub from: Option<[u8; 20]>,
}

/// What was read from the foreign chain for one transaction; `None` where
/// the read failed. A latest block without a base fee counts as base fee 0.
#[derive(Debug, Clone, Copy, PartialEq, Eq)]
pub struct ChainReads {
    pub base_fee: Option<Amount>,
    pub nonce: Option<Amount>,
    pub gas_estimate: Option<Amount>,
    pub chain_id: Option<u64>,
}

/// The two fee fields of a dynamic-fee transaction.
#[derive(Debug, Clone, Copy, PartialEq, Eq)]
pub struct FeeQuote {
    pub max_fee_per_gas: Amount,
    pub max_priority_fee_per_gas: Amount,
}

/// A dynamic-fee transaction with every field set but the signature.
#[derive(Debug, Clone)]
pub struct FilledTransaction {
    pub from: [u8; 20],
    pub to: [u8; 20],
    pub value: Amount,
    pub data: Vec<u8>,
    pub nonce: Amount,
    pub gas: Amount,
    pub max_priority_fee_per_gas: Amount,
    pub max_fee_per_gas: Amount,
    pub chain_id: u64,
}

/// A signature as the foreign chain takes it: `r`, `s` and the Y parity `v`.
#[derive(Debug, Clone, Copy, PartialEq, Eq)]
pub struct EcdsaSignature {
    pub r: [u8; 32],
    pub s: [u8; 32],
    pub v: u8,
}

/// What ethers-core encodes for the unsigned transaction: the type byte 2
/// and the RLP list of its fields.
pub uninterp spec fn eip1559_unsigned_encoding(tx: FilledTransaction) -> Seq<u8>;

/// What ethers-core encodes for the transaction with its signature.
pub uninterp spec fn eip1559_signed_encoding(tx: FilledTransaction, sig: EcdsaSignature) -> Seq<u8>;

/// Relies on ethers-core's `TypedTransaction::rlp` for an EIP-1559 request
/// with an empty access list.
#[verifier::external_body]
fn unsigned_encoding(tx: &FilledTransaction) -> (r: Vec<u8>)
    ensures
        r@ == eip1559_unsigned_encoding(*tx),
{
    let req = ethers_core::types::Eip1559TransactionRequest::new().from(H160(tx.from)).to(
        H160(tx.to),
    ).value(U256(tx.value.limbs)).data(tx.data.clone()).nonce(U256(tx.nonce.limbs)).gas(
        U256(tx.gas.limbs),
    ).max_priority_fee_per_gas(U256(tx.max_priority_fee_per_gas.limbs)).max_fee_per_gas(
        U256(tx.max_fee_per_gas.limbs),
    ).chain_id(tx.chain_id);
    TypedTransaction::Eip1559(req).rlp().to_vec()
}

/// Relies on ethers-core's `TypedTransaction::rlp_signed` for the same
/// request, with `r` and `s` read big-endian. `v` is a Y parity (0 or 1),
/// which ethers-core takes as it is.
#[verifier::external_body]
fn signed_encoding(tx: &FilledTransaction, sig: &EcdsaSignature) -> (r: Vec<u8>)
    requires
        sig.v <= 1,
    ensures
        r@ == eip1559_signed_encoding(*tx, *sig),
{
    let req = ethers_core::types::Eip1559TransactionRequest::new().from(H160(tx.from)).to(
        H160(tx.to),
    ).value(U256(tx.value.limbs)).data(tx.data.clone()).nonce(U256(tx.nonce.limbs)).gas(
        U256(tx.gas.limbs),
    ).max_priority_fee_per_gas(U256(tx.max_priority_fee_per_gas.limbs)).max_fee_per_gas(
        U256(tx.max_fee_per_gas.limbs),
    ).chain_id(tx.chain_id);
    let signature = ethers_core::types::Signature {
        r: U256::from_big_endian(&sig.r),
        s: U256::from_big_endian(&sig.s),
        v: sig.v as u64,
    };
    TypedTransaction::Eip1559(req).rlp_signed(&signature).to_vec()
}

/// The fee fields for a block of base fee `base_fee` fit in 256 bits.
pub open spec fn fees_fit(base_fee: Amount) -> bool {
    base_fee@ + MAX_PRIORITY_FEE_PER_GAS < two_pow_256()
}

/// `q` is the quote for base fee `base_fee`: the fixed tip, and a cap of
/// base fee plus tip.
pub open spec fn is_fee_quote(q: FeeQuote, base_fee: Amount) -> bool {
    &&& q.max_priority_fee_per_gas@ == MAX_PRIORITY_FEE_PER_GAS
    &&& q.max_fee_per_gas@ == base_fee@ + MAX_PRIORITY_FEE_PER_GAS
}

/// The fee fields for the latest base fee, if it could be read.
pub fn quote_fees(base_fee: Option<Amount>) -> (r: Result<FeeQuote, PipelineError>)
    ensures
        match base_fee {
            None => r == Err::<FeeQuote, PipelineError>(PipelineError::FeeQuoteUnavailable),
            Some(b) => if fees_fit(b) {
                r matches Ok(q) && is_fee_quote(q, b)
            } else {
                r == Err::<FeeQuote, PipelineError>(PipelineError::FeeOverflow)
            },
        },
{
    match base_fee {
        None => Err(PipelineError::FeeQuoteUnavailable),
        Some(b) => {
            let tip = Amount::from_u128(MAX_PRIORITY_FEE_PER_GAS);
            match b.checked_add(&tip) {
                Some(max_fee) => Ok(
                    FeeQuote { max_fee_per_gas: max_fee, max_priority_fee_per_gas: tip },
                ),
                None => Err(PipelineError::FeeOverflow),
            }
        },
    }
}

/// The first read that failed, in the order fee, nonce, gas, chain id;
/// `None` where all succeeded and the fees fit.
pub open spec fn fill_error(reads: ChainReads) -> Option<PipelineError> {
    match reads.base_fee {
        None => Some(PipelineError::FeeQuoteUnavailable),
        Some(b) => if !fees_fit(b) {
            Some(PipelineError::FeeOverflow)
        } else if reads.nonce is None {
            Some(PipelineError::NonceUnavailable)
        } else if reads.gas_estimate is None {
            Some(PipelineError::GasEstimationFailed)
        } else if reads.chain_id is None {
            Some(PipelineError::ChainIdUnavailable)
        } else {
            None
        },
    }
}

/// `filled` is `tx` sent from `from`, with the nonce, gas and chain id read
/// and the fees quoted for the base fee read.
pub open spec fn is_filled(
    tx: EVMTransaction,
    from: [u8; 20],
    reads: ChainReads,
    filled: FilledTransaction,
) -> bool {
    &&& filled.from == from
    &&& filled.to == tx.to
    &&& filled.value == tx.value
    &&& filled.data@ == tx.data@
    &&& reads.nonce == Some(filled.nonce)
    &&& reads.gas_estimate == Some(filled.gas)
    &&& reads.chain_id == Some(filled.chain_id)
    &&& reads.base_fee matches Some(b) && is_fee_quote(
        FeeQuote {
            max_fee_per_gas: filled.max_fee_per_gas,
            max_priority_fee_per_gas: filled.max_priority_fee_per_gas,
        },
        b,
    )
}

/// Fills in what the foreign chain decides: fees, nonce, gas and chain id.
/// The recipient, value and data are the caller's.
pub fn attach_gas_and_nonce(tx: &EVMTransaction, from: [u8; 20], reads: &ChainReads) -> (r: Result<
    FilledTransaction,
    PipelineError,
>)
    ensures
        match fill_error(*reads) {
            Some(e) => r == Err::<FilledTransaction, PipelineError>(e),
            None => r matches Ok(filled) && is_filled(*tx, from, *reads, filled),
        },
{
    let fees = quote_fees(reads.base_fee)?;
    let nonce = match reads.nonce {
        Some(n) => n,
        None => return Err(PipelineError::NonceUnavailable),
    };
    let gas = match reads.gas_estimate {
        Some(g) => g,
        None => return Err(PipelineError::GasEstimationFailed),
    };
    let chain_id = match reads.chain_id {
        Some(c) => c,
        None => return Err(PipelineError::ChainIdUnavailable),
    };
    Ok(
        FilledTransaction {
            from,
            to: tx.to,
            value: tx.value,
            data: tx.data.clone(),
            nonce,
            gas,
            max_priority_fee_per_gas: fees.max_priority_fee_per_gas,
            max_fee_per_gas: fees.max_fee_per_gas,
            chain_id,
        },
    )
}

/// The hash that the signer signs: Keccak-256 of the unsigned encoding.
pub fn signable_hash(tx: &FilledTransaction) -> (r: [u8; 32])
    ensures
        r@ == keccak256(eip1559_unsigned_encoding(*tx)),
{
    let encoded = unsigned_encoding(tx);
    keccak256_digest(encoded.as_slice())
}

/// The signature that a reply makes: `r` is the X coordinate of `R`, `s`
/// is the reply's scalar, and `v` is the recovery id.
pub open spec fn assembled(response: SignatureResponse) -> EcdsaSignature {
    EcdsaSignature {
        r: response.big_r.affine_point.x,
        s: response.s.scalar.bytes,
        v: response.recovery_id,
    }
}

/// The signer's reply as a signature for this chain: `r` is the X
/// coordinate of `R`, `s` is taken as it is, and `v` is the recovery id,
/// which must be a Y parity (0 or 1).
pub fn assemble(response: &SignatureResponse) -> (r: Result<EcdsaSignature, PipelineError>)
    ensures
        response.recovery_id <= 1 ==> r == Ok::<EcdsaSignature, PipelineError>(
            assembled(*response),
        ),
        response.recovery_id > 1 ==> r == Err::<EcdsaSignature, PipelineError>(
            PipelineError::MalformedSignature,
        ),
{
    if response.recovery_id > 1 {
        return Err(PipelineError::MalformedSignature);
    }
    Ok(
        EcdsaSignature {
            r: response.big_r.affine_point.x,
            s: response.s.scalar.bytes,
            v: response.recovery_id,
        },
    )
}

/// Fills the transaction, hashes it, and names the hash and path in a
/// signing request.
pub fn prepare_signing(tx: &EVMTransaction, from: [u8; 20], reads: &ChainReads, path: String) -> (r:
    Result<(FilledTransaction, SignRequest), PipelineError>)
    ensures
        match fill_error(*reads) {
            Some(e) => r == Err::<(FilledTransaction, SignRequest), PipelineError>(e),
            None => r matches Ok((filled, req)) && is_filled(*tx, from, *reads, filled)
                && req.payload@ == keccak256(eip1559_unsigned_encoding(filled)) && req.path@
                == path@ && req.key_version == KEY_VERSION,
        },
{
    let filled = attach_gas_and_nonce(tx, from, reads)?;
    let payload = signable_hash(&filled);
    Ok((filled, SignRequest { payload, path, key_version: KEY_VERSION }))
}

/// The signed transaction's bytes, ready to broadcast: the signer's reply
/// assembled and attached to the filled transaction.
pub fn finalize_transaction(tx: &FilledTransaction, response: &SignatureResponse) -> (r: Result<
    Vec<u8>,
    PipelineError,
>)
    ensures
        response.recovery_id > 1 ==> r == Err::<Vec<u8>, PipelineError>(
            PipelineError::MalformedSignature,
        ),
        response.recovery_id <= 1 ==> (r matches Ok(bytes) && bytes@ == eip1559_signed_encoding(
            *tx,
            assembled(*response),
        )),
{
    let signature = assemble(response)?;
    Ok(signed_encoding(tx, &signature))
}

} // verus!
