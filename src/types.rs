//! The values exchanged with the signer and the home chain.

use vstd::prelude::*;
use vstd::slice::slice_subrange;

use crate::curve::{
    opt_bytes, parse_sec1, point_from_bytes, sec1_tag_uncompressed, sec1_uncompressed, AffinePoint,
    Scalar,
};

verus! {

/// What the signer is asked to sign: a 32-byte hash, the derivation path of
/// the child key to sign with, and the version of the root key.
#[derive(Debug, Clone)]
pub struct SignRequest {
    pub payload: [u8; 32],
    pub path: String,
    pub key_version: u32,
}

/// A scalar as the signer's reply carries it.
#[derive(Debug, Clone, Copy, PartialEq, Eq)]
pub struct SerializableScalar {
    pub scalar: Scalar,
}

/// A point as the signer's reply carries it.
#[derive(Debug, Clone, Copy, PartialEq, Eq)]
pub struct SerializableAffinePoint {
    pub affine_point: AffinePoint,
}

/// The signer's reply: the point `R`, the scalar `s` and the recovery id.
#[derive(Debug, Clone, Copy, PartialEq, Eq)]
pub struct SignatureResponse {
    pub big_r: SerializableAffinePoint,
    pub s: SerializableScalar,
    pub recovery_id: u8,
}

impl View for SignatureResponse {
    /// `X || Y` of `R`, the bytes of `s`, the recovery id.
    type V = (Seq<u8>, Seq<u8>, u8);

    open spec fn view(&self) -> (Seq<u8>, Seq<u8>, u8) {
        (self.big_r.affine_point@, self.s.scalar.bytes@, self.recovery_id)
    }
}

/// The SEC1 tag of a compressed point whose Y is odd (`true`) or even.
pub open spec fn sec1_tag_compressed(y_is_odd: bool) -> u8 {
    if y_is_odd {
        3
    } else {
        2
    }
}

/// The reply whose `R` is the point of X coordinate `r` and the Y parity
/// that the recovery id gives, or nothing where the recovery id is above 3
/// or no such point exists.
pub open spec fn response_of(r: Seq<u8>, s: Seq<u8>, recovery_id: u8) -> Option<
    (Seq<u8>, Seq<u8>, u8),
> {
    if recovery_id > 3 {
        None
    } else {
        match sec1_uncompressed(seq![sec1_tag_compressed(recovery_id % 2 == 1)] + r) {
            Some(u) => Some((u.drop_first(), s, recovery_id)),
            None => None,
        }
    }
}

/// The reply whose `R` has the SEC1 encoding `big_r` (compressed or not),
/// or nothing where that is no point of the curve or `s` is not 32 bytes.
pub open spec fn response_from_wire(big_r: Seq<u8>, s: Seq<u8>, recovery_id: u8) -> Option<
    (Seq<u8>, Seq<u8>, u8),
> {
    if s.len() != 32 {
        None
    } else {
        match sec1_uncompressed(big_r) {
            Some(u) => Some((u.drop_first(), s, recovery_id)),
            None => None,
        }
    }
}

pub open spec fn opt_response(o: Option<SignatureResponse>) -> Option<(Seq<u8>, Seq<u8>, u8)> {
    match o {
        Some(resp) => Some(resp@),
        None => None,
    }
}

/// The reply for the point SEC1-encoded by `encoded`, once it parsed.
fn response_from_uncompressed(encoded: &Vec<u8>, s: &[u8], recovery_id: u8) -> (r:
    SignatureResponse)
    requires
        encoded@.len() == 65,
        s@.len() == 32,
    ensures
        r@ == (encoded@.drop_first(), s@, recovery_id),
{
    let point = point_from_bytes(slice_subrange(encoded.as_slice(), 1, 65));
    assert(point@ =~= encoded@.drop_first());
    let mut bytes = [0u8; 32];
    let mut i: usize = 0;
    while i < 32
        invariant
            s@.len() == 32,
            i <= 32,
            forall|j: int| 0 <= j < i ==> bytes@[j] == s@[j],
        decreases 32 - i,
    {
        bytes[i] = s[i];
        i = i + 1;
    }
    assert(bytes@ =~= s@);
    SignatureResponse {
        big_r: SerializableAffinePoint { affine_point: point },
        s: SerializableScalar { scalar: Scalar { bytes } },
        recovery_id,
    }
}

impl SignatureResponse {
    /// The reply for a signature `(r, s)` and its recovery id: `R` is the
    /// point with X coordinate `r` and the Y parity of the recovery id.
    pub fn new(r: [u8; 32], s: [u8; 32], recovery_id: u8) -> (res: Option<SignatureResponse>)
        ensures
            opt_response(res) == response_of(r@, s@, recovery_id),
            res matches Some(resp) ==> resp.big_r.affine_point.x@ == r@,
    {
        if recovery_id > 3 {
            return None;
        }
        let tag: u8 = if recovery_id % 2 == 1 {
            3
        } else {
            2
        };
        let mut compressed: Vec<u8> = Vec::new();
        compressed.push(tag);
        compressed.extend_from_slice(r.as_slice());
        assert(compressed@ =~= seq![sec1_tag_compressed(recovery_id % 2 == 1)] + r@);
        match parse_sec1(compressed.as_slice()) {
            Some(encoded) => {
                let resp = response_from_uncompressed(&encoded, s.as_slice(), recovery_id);
                assert(encoded@.subrange(1, 33) =~= resp.big_r.affine_point.x@);
                assert(compressed@.subrange(1, 33) =~= r@);
                Some(resp)
            },
            None => None,
        }
    }

    /// The reply for a compact signature `r || s` and its recovery id.
    pub fn from_ecdsa_signature(signature: &[u8; 64], recovery_id: u8) -> (res: Option<
        SignatureResponse,
    >)
        ensures
            opt_response(res) == response_of(
                signature@.subrange(0, 32),
                signature@.subrange(32, 64),
                recovery_id,
            ),
            res matches Some(resp) ==> resp.big_r.affine_point.x@ == signature@.subrange(0, 32),
    {
        let mut r = [0u8; 32];
        let mut s = [0u8; 32];
        let mut i: usize = 0;
        while i < 32
            invariant
                i <= 32,
                forall|j: int| 0 <= j < i ==> r@[j] == signature@[j] && s@[j] == signature@[32 + j],
            decreases 32 - i,
        {
            r[i] = signature[i];
            s[i] = signature[32 + i];
            i = i + 1;
        }
        assert(r@ =~= signature@.subrange(0, 32));
        assert(s@ =~= signature@.subrange(32, 64));
        SignatureResponse::new(r, s, recovery_id)
    }

    /// The reply as the signer's JSON carries it, once its hex fields are
    /// decoded: `R` as a SEC1 encoding, `s` as bytes, the recovery id.
    pub fn from_wire(big_r: &[u8], s: &[u8], recovery_id: u8) -> (res: Option<SignatureResponse>)
        ensures
            opt_response(res) == response_from_wire(big_r@, s@, recovery_id),
    {
        if s.len() != 32 {
            return None;
        }
        match parse_sec1(big_r) {
            Some(encoded) => Some(response_from_uncompressed(&encoded, s, recovery_id)),
            None => None,
        }
    }
}

/// The home chain's networks.
#[derive(Debug, Clone, Copy, PartialEq, Eq, Structural)]
pub enum NearNetwork {
    Mainnet,
    Testnet,
}

impl NearNetwork {
    /// The address of the public RPC endpoint of the network.
    pub fn rpc_url(&self) -> (r: String)
        ensures
            *self == NearNetwork::Mainnet ==> r@ == "https://rpc.mainnet.near.org"@,
            *self == NearNetwork::Testnet ==> r@ == "https://rpc.testnet.near.org"@,
    {
        match self {
            NearNetwork::Mainnet => "https://rpc.mainnet.near.org".to_string(),
            NearNetwork::Testnet => "https://rpc.testnet.near.org".to_string(),
        }
    }
}

} // verus!
