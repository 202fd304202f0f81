use k256::ecdsa::signature::hazmat::PrehashVerifier;
use k256::elliptic_curve::ops::Reduce;
use k256::elliptic_curve::sec1::ToEncodedPoint;
use k256::elliptic_curve::PrimeField;

use multichain_tools::amount::Amount;
use multichain_tools::evm::{
    assemble, attach_gas_and_nonce, signable_hash, ChainReads, EVMTransaction, EcdsaSignature,
    PipelineError,
};
use multichain_tools::kdf::{derive_child_public_key, derive_epsilon};
use multichain_tools::types::SignatureResponse;

fn root_secret() -> k256::Scalar {
    let mut bytes = [0u8; 32];
    bytes[31] = 0x2a;
    bytes[0] = 0x11;
    k256::Scalar::from_repr(bytes.into()).unwrap()
}

fn root_key() -> multichain_tools::curve::VerifyingKey {
    let public = (k256::ProjectivePoint::GENERATOR * root_secret()).to_affine();
    let text = format!(
        "secp256k1:{}",
        bs58::encode(&public.to_encoded_point(false).as_bytes()[1..]).into_string()
    );
    multichain_tools::kdf::naj_pk_to_verifying_key(&text).unwrap()
}

fn sign_with(secret: k256::Scalar, hash: &[u8; 32]) -> ([u8; 64], u8) {
    let key = k256::ecdsa::SigningKey::from_bytes(&secret.to_bytes()).unwrap();
    let (sig, recid) = key.sign_prehash_recoverable(hash).unwrap();
    (sig.to_bytes().into(), recid.to_byte())
}

fn k256_signature(sig: &EcdsaSignature) -> k256::ecdsa::Signature {
    k256::ecdsa::Signature::from_scalars(sig.r, sig.s).unwrap()
}

#[test]
fn assembled_signature_verifies_against_child_key() {
    let request =
        EVMTransaction { to: [0x41; 20], value: Amount::from_u128(1_000), data: vec![], from: None };
    let reads = ChainReads {
        base_fee: Some(Amount::from_u128(3_000_000_000)),
        nonce: Some(Amount::from_u128(0)),
        gas_estimate: Some(Amount::from_u128(21000)),
        chain_id: Some(11155111),
    };
    let filled = attach_gas_and_nonce(&request, [0x22; 20], &reads).unwrap();
    let hash = signable_hash(&filled);
    let eps_bytes = derive_epsilon("alice.test".to_string(), "eth".to_string()).bytes;
    let eps = <k256::Scalar as Reduce<k256::U256>>::reduce_bytes(&eps_bytes.into());
    let child_secret = root_secret() + eps;
    let (compact, recid) = sign_with(child_secret, &hash);

    let response = SignatureResponse::from_ecdsa_signature(&compact, recid).unwrap();
    let signature = assemble(&response).unwrap();
    assert_eq!(signature.r.to_vec(), compact[..32].to_vec());
    assert_eq!(signature.s.to_vec(), compact[32..].to_vec());
    assert_eq!(signature.v, recid);

    let child = derive_child_public_key(&root_key(), "alice.test".to_string(), "eth".to_string())
        .unwrap();
    let child_k256 = k256::ecdsa::VerifyingKey::from_sec1_bytes(&child.to_uncompressed()).unwrap();
    assert!(child_k256.verify_prehash(&hash, &k256_signature(&signature)).is_ok());
    let mut other = hash;
    other[0] ^= 1;
    assert!(child_k256.verify_prehash(&other, &k256_signature(&signature)).is_err());
}

#[test]
fn response_point_has_parity_of_recovery_id() {
    let hash = [7u8; 32];
    let (compact, recid) = sign_with(root_secret(), &hash);
    let mut r = [0u8; 32];
    r.copy_from_slice(&compact[..32]);
    let mut s = [0u8; 32];
    s.copy_from_slice(&compact[32..]);
    let even = SignatureResponse::new(r, s, 0).unwrap();
    let odd = SignatureResponse::new(r, s, 1).unwrap();
    assert_eq!(even.big_r.affine_point.x, r);
    assert_eq!(odd.big_r.affine_point.x, r);
    assert_eq!(even.big_r.affine_point.y[31] % 2, 0);
    assert_eq!(odd.big_r.affine_point.y[31] % 2, 1);
    assert_eq!(even.s.scalar.bytes, s);
    let matching = if recid % 2 == 0 { even } else { odd };
    assert_eq!(SignatureResponse::from_ecdsa_signature(&compact, recid), Some(matching));
}

#[test]
fn response_with_recovery_id_above_three_is_refused() {
    let (compact, _) = sign_with(root_secret(), &[9u8; 32]);
    let mut r = [0u8; 32];
    r.copy_from_slice(&compact[..32]);
    assert_eq!(SignatureResponse::new(r, [1u8; 32], 4), None);
}

#[test]
fn response_with_x_off_the_curve_is_refused() {
    assert_eq!(SignatureResponse::new([0u8; 32], [1u8; 32], 0), None);
}

#[test]
fn response_from_wire_reads_compressed_point() {
    let (compact, recid) = sign_with(root_secret(), &[3u8; 32]);
    let expected = SignatureResponse::from_ecdsa_signature(&compact, recid).unwrap();
    let mut encoded = vec![2 + (recid & 1)];
    encoded.extend_from_slice(&compact[..32]);
    let got = SignatureResponse::from_wire(&encoded, &compact[32..], recid);
    assert_eq!(got, Some(expected));
    assert_eq!(SignatureResponse::from_wire(&encoded, &compact[32..40], recid), None);
    assert_eq!(SignatureResponse::from_wire(&[5u8; 33], &compact[32..], recid), None);
}

#[test]
fn assemble_refuses_recovery_id_that_is_not_a_parity() {
    let (compact, recid) = sign_with(root_secret(), &[4u8; 32]);
    let mut response = SignatureResponse::from_ecdsa_signature(&compact, recid).unwrap();
    response.recovery_id = 2;
    assert_eq!(assemble(&response), Err(PipelineError::MalformedSignature));
}
