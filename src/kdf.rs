//! Key derivation: the root key read from its text form, the epsilon of a
//! (requester, path) pair, the child key `root + epsilon * G`, and the
//! foreign-chain address of a key.

use vstd::prelude::*;
use vstd::slice::slice_subrange;
use vstd::utf8::encode_utf8;

use crate::curve::{
    base58_decode, base58_decoded, be_bytes, be_value, bytes_equal, group_order, hex_encode,
    hex_lower, is_curve_point, keccak256, keccak256_digest, point_from_bytes, scalar_from_hash,
    sec1_tag_uncompressed, sha3_256, sha3_256_digest, add_generator_multiple, offset_point,
    AffinePoint, KdfError, Scalar, VerifyingKey,
};

verus! {

/// `secp256k1:`, the prefix of a root key's text form.
pub open spec fn key_prefix() -> Seq<u8> {
    seq![115u8, 101, 99, 112, 50, 53, 54, 107, 49, 58]
}

/// `near-mpc-recovery v0.1.0 epsilon derivation:`, the domain tag of the
/// epsilon hash. Changing it changes every derived key.
pub open spec fn epsilon_tag() -> Seq<u8> {
    seq![
        110u8, 101, 97, 114, 45, 109, 112, 99, 45, 114, 101, 99, 111, 118, 101, 114, 121, 32,
        118, 48, 46, 49, 46, 48, 32, 101, 112, 115, 105, 108, 111, 110, 32, 100, 101, 114, 105,
        118, 97, 116, 105, 111, 110, 58,
    ]
}

/// The key that a root key's text spells: `secp256k1:` then the base58 form
/// of `X || Y`, which must be a point of the curve.
pub open spec fn decoded_root_key(text: Seq<u8>) -> Option<Seq<u8>> {
    if text.len() >= 10 && text.subrange(0, 10) == key_prefix() {
        match base58_decoded(text.subrange(10, text.len() as int)) {
            Some(body) => if is_curve_point(body) {
                Some(body)
            } else {
                None
            },
            None => None,
        }
    } else {
        None
    }
}

/// The bytes hashed for the epsilon: tag, requester, a comma, path.
pub open spec fn epsilon_input(requester: Seq<char>, path: Seq<char>) -> Seq<u8> {
    epsilon_tag() + encode_utf8(requester) + seq![44u8] + encode_utf8(path)
}

/// The epsilon of a (requester, path) pair, as 32 big-endian bytes: the
/// SHA3-256 digest of its input, read big-endian, modulo the group order.
pub open spec fn epsilon_of(requester: Seq<char>, path: Seq<char>) -> Seq<u8> {
    be_bytes(be_value(sha3_256(epsilon_input(requester, path))) % group_order(), 32)
}

/// The child key `root + epsilon * G` as `X || Y`, or nothing where the sum
/// is the point at infinity.
pub open spec fn child_key_of(root: Seq<u8>, requester: Seq<char>, path: Seq<char>) -> Option<
    Seq<u8>,
> {
    match offset_point(seq![sec1_tag_uncompressed()] + root, epsilon_of(requester, path)) {
        Some(encoded) => Some(encoded.drop_first()),
        None => None,
    }
}

/// The foreign-chain address of a key: the low 20 bytes of the Keccak-256
/// digest of `X || Y`.
pub open spec fn address_of(key: Seq<u8>) -> Seq<u8> {
    keccak256(key).subrange(12, 32)
}

/// The address of a key as text: `0x` and 40 lowercase hexadecimal digits.
pub open spec fn address_text(key: Seq<u8>) -> Seq<char> {
    seq!['0', 'x'] + hex_lower(address_of(key))
}

/// `r` is what deriving the child key of (requester, path) from `root` gives.
pub open spec fn is_child_key_outcome(
    root: Seq<u8>,
    requester: Seq<char>,
    path: Seq<char>,
    r: Result<VerifyingKey, KdfError>,
) -> bool {
    match child_key_of(root, requester, path) {
        Some(c) => r matches Ok(k) && k@ == c,
        None => r == Err::<VerifyingKey, KdfError>(KdfError::InvalidDerivedKey),
    }
}

/// `r` is what deriving the address of (requester, path) from `root` gives.
pub open spec fn is_address_outcome(
    root: Seq<u8>,
    requester: Seq<char>,
    path: Seq<char>,
    r: Result<[u8; 20], KdfError>,
) -> bool {
    match child_key_of(root, requester, path) {
        Some(c) => r matches Ok(a) && a@ == address_of(c),
        None => r == Err::<[u8; 20], KdfError>(KdfError::InvalidDerivedKey),
    }
}

/// Reads a root key from its text form, `secp256k1:<base58 of X || Y>`.
pub fn naj_pk_to_verifying_key(root_pk: &str) -> (r: Result<VerifyingKey, KdfError>)
    ensures
        match r {
            Ok(k) => decoded_root_key(encode_utf8(root_pk@)) == Some(k@),
            Err(e) => decoded_root_key(encode_utf8(root_pk@)) is None && e
                == KdfError::InvalidKeyEncoding,
        },
{
    let text = root_pk.as_bytes();
    let prefix: Vec<u8> = vec![115u8, 101, 99, 112, 50, 53, 54, 107, 49, 58];
    if text.len() < 10 || !bytes_equal(slice_subrange(text, 0, 10), prefix.as_slice()) {
        return Err(KdfError::InvalidKeyEncoding);
    }
    let body = slice_subrange(text, 10, text.len());
    match base58_decode(body) {
        Some(xy) => {
            if xy.len() != 64 {
                return Err(KdfError::InvalidKeyEncoding);
            }
            VerifyingKey::from_affine(point_from_bytes(xy.as_slice()))
        },
        None => Err(KdfError::InvalidKeyEncoding),
    }
}

/// The epsilon of a (requester, path) pair.
pub fn derive_epsilon(predecessor: String, path: String) -> (r: Scalar)
    ensures
        r.bytes@ == epsilon_of(predecessor@, path@),
{
    let mut input: Vec<u8> = vec![
        110u8, 101, 97, 114, 45, 109, 112, 99, 45, 114, 101, 99, 111, 118, 101, 114, 121, 32,
        118, 48, 46, 49, 46, 48, 32, 101, 112, 115, 105, 108, 111, 110, 32, 100, 101, 114, 105,
        118, 97, 116, 105, 111, 110, 58,
    ];
    input.extend_from_slice(predecessor.as_str().as_bytes());
    input.push(44u8);
    input.extend_from_slice(path.as_str().as_bytes());
    assert(input@ =~= epsilon_input(predecessor@, path@));
    let hash = sha3_256_digest(input.as_slice());
    scalar_from_hash(&hash)
}

/// The child key `public_key + epsilon * G` of a (requester, path) pair.
pub fn derive_child_public_key(public_key: &VerifyingKey, predecessor: String, path: String) -> (r:
    Result<VerifyingKey, KdfError>)
    ensures
        is_child_key_outcome(public_key@, predecessor@, path@, r),
{
    let epsilon = derive_epsilon(predecessor, path);
    let root = public_key.to_uncompressed();
    match add_generator_multiple(root.as_slice(), &epsilon.bytes) {
        Some(encoded) => {
            let xy = slice_subrange(encoded.as_slice(), 1, 65);
            let point = point_from_bytes(xy);
            assert(encoded@ =~= seq![sec1_tag_uncompressed()] + point@);
            assert(encoded@.drop_first() =~= point@);
            VerifyingKey::from_affine(point)
        },
        None => Err(KdfError::InvalidDerivedKey),
    }
}

/// The foreign-chain address of a key, as 20 bytes.
pub fn eth_address(public_key: &VerifyingKey) -> (r: [u8; 20])
    ensures
        r@ == address_of(public_key@),
{
    let point = public_key.as_affine();
    let mut xy: Vec<u8> = Vec::new();
    xy.extend_from_slice(point.x.as_slice());
    xy.extend_from_slice(point.y.as_slice());
    assert(xy@ =~= public_key@);
    let digest = keccak256_digest(xy.as_slice());
    let mut out = [0u8; 20];
    let mut i: usize = 0;
    while i < 20
        invariant
            digest@.len() == 32,
            i <= 20,
            forall|j: int| 0 <= j < i ==> out@[j] == digest@[12 + j],
        decreases 20 - i,
    {
        out[i] = digest[12 + i];
        i = i + 1;
    }
    assert(out@ =~= digest@.subrange(12, 32));
    out
}

/// The foreign-chain address of a key as text, `0x` and lowercase hex.
pub fn derive_eth_address(public_key: &VerifyingKey) -> (r: String)
    ensures
        r@ == address_text(public_key@),
{
    let address = eth_address(public_key);
    let digits = hex_encode(address.as_slice());
    let mut text = "0x".to_string();
    proof {
        reveal_strlit("0x");
    }
    text.append(digits.as_str());
    assert(text@ =~= address_text(public_key@));
    text
}

/// The foreign-chain address of the child key of a (requester, path) pair.
/// It needs no call to the signer: anyone who knows the root key can
/// compute it.
pub fn derive_foreign_address(root: &VerifyingKey, requester_id: String, path: String) -> (r:
    Result<[u8; 20], KdfError>)
    ensures
        is_address_outcome(root@, requester_id@, path@, r),
{
    let child = derive_child_public_key(root, requester_id, path)?;
    Ok(eth_address(&child))
}

/// The address text of the child key of a (requester, path) pair, starting
/// from the root key's text form.
pub fn derive_address_from_root_text(root_pk: &str, requester_id: String, path: String) -> (r:
    Result<String, KdfError>)
    ensures
        match decoded_root_key(encode_utf8(root_pk@)) {
            None => r == Err::<String, KdfError>(KdfError::InvalidKeyEncoding),
            Some(root) => match child_key_of(root, requester_id@, path@) {
                Some(c) => r matches Ok(t) && t@ == address_text(c),
                None => r == Err::<String, KdfError>(KdfError::InvalidDerivedKey),
            },
        },
{
    let root = naj_pk_to_verifying_key(root_pk)?;
    let child = derive_child_public_key(&root, requester_id, path)?;
    Ok(derive_eth_address(&child))
}

/// The text that serde_json reads from `bytes` as a JSON string, or nothing
/// where `bytes` is not one.
pub uninterp spec fn json_decoded_string(bytes: Seq<u8>) -> Option<Seq<char>>;

/// Relies on `serde_json::from_slice::<String>`.
#[verifier::external_body]
fn decode_json_string(bytes: &[u8]) -> (r: Option<String>)
    ensures
        match r {
            Some(t) => json_decoded_string(bytes@) == Some(t@),
            None => json_decoded_string(bytes@) is None,
        },
{
    serde_json::from_slice::<String>(bytes).ok()
}

/// The root key from what the signer contract's `public_key` view returns:
/// a JSON string holding the key's text form.
pub fn root_key_from_view_result(result: &[u8]) -> (r: Result<VerifyingKey, KdfError>)
    ensures
        match json_decoded_string(result@) {
            None => r == Err::<VerifyingKey, KdfError>(KdfError::InvalidKeyEncoding),
            Some(text) => match decoded_root_key(encode_utf8(text)) {
                Some(k) => r matches Ok(key) && key@ == k,
                None => r == Err::<VerifyingKey, KdfError>(KdfError::InvalidKeyEncoding),
            },
        },
{
    match decode_json_string(result) {
        Some(text) => naj_pk_to_verifying_key(text.as_str()),
        None => Err(KdfError::InvalidKeyEncoding),
    }
}

/// Child-key derivation is deterministic: two derivations from the same
/// root key, requester and path give the same key, or fail alike.
pub proof fn lemma_child_key_deterministic(
    root: VerifyingKey,
    requester: Seq<char>,
    path: Seq<char>,
    first: Result<VerifyingKey, KdfError>,
    second: Result<VerifyingKey, KdfError>,
)
    requires
        is_child_key_outcome(root@, requester, path, first),
        is_child_key_outcome(root@, requester, path, second),
    ensures
        first is Ok <==> second is Ok,
        first matches Ok(k1) ==> (second matches Ok(k2) && k1@ == k2@),
        first matches Err(e1) ==> (second matches Err(e2) && e1 == e2),
{
}

/// For one requester, two different paths hash different inputs: the
/// epsilon input is injective in the path. (That the digests, and so the
/// child keys, differ as well rests on the hash being collision resistant,
/// which nothing here can prove.)
pub proof fn lemma_epsilon_input_injective_in_path(
    requester: Seq<char>,
    path1: Seq<char>,
    path2: Seq<char>,
)
    requires
        path1 != path2,
    ensures
        epsilon_input(requester, path1) != epsilon_input(requester, path2),
{
    let head = epsilon_tag() + encode_utf8(requester) + seq![44u8];
    assert(epsilon_input(requester, path1) == head + encode_utf8(path1));
    assert(epsilon_input(requester, path2) == head + encode_utf8(path2));
    if epsilon_input(requester, path1) == epsilon_input(requester, path2) {
        assert(encode_utf8(path1) =~= epsilon_input(requester, path1).subrange(
            head.len() as int,
            epsilon_input(requester, path1).len() as int,
        ));
        assert(encode_utf8(path2) =~= epsilon_input(requester, path2).subrange(
            head.len() as int,
            epsilon_input(requester, path2).len() as int,
        ));
        vstd::utf8::encode_utf8_decode_utf8(path1);
        vstd::utf8::encode_utf8_decode_utf8(path2);
    }
}

/// Deriving an address agrees with encoding the derived child key: where
/// the child key derivation gives `k`, the address derivation gives the
/// address of `k`, and where one fails, so does the other.
pub proof fn lemma_address_round_trip(
    root: VerifyingKey,
    requester: Seq<char>,
    path: Seq<char>,
    child: Result<VerifyingKey, KdfError>,
    address: Result<[u8; 20], KdfError>,
)
    requires
        is_child_key_outcome(root@, requester, path, child),
        is_address_outcome(root@, requester, path, address),
    ensures
        child is Ok <==> address is Ok,
        child matches Ok(k) ==> (address matches Ok(a) && a@ == address_of(k@)),
        child matches Err(e1) ==> (address matches Err(e2) && e1 == e2),
{
}

/// Address derivation is a pure function of its inputs: deriving twice
/// from the same root key, requester and path gives the same bytes.
pub proof fn lemma_address_idempotent(
    root: VerifyingKey,
    requester: Seq<char>,
    path: Seq<char>,
    first: Result<[u8; 20], KdfError>,
    second: Result<[u8; 20], KdfError>,
)
    requires
        is_address_outcome(root@, requester, path, first),
        is_address_outcome(root@, requester, path, second),
    ensures
        first is Ok <==> second is Ok,
        first matches Ok(a1) ==> (second matches Ok(a2) && a1@ == a2@),
        first matches Err(e1) ==> (second matches Err(e2) && e1 == e2),
{
}

} // verus!
