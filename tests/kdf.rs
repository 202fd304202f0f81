use k256::elliptic_curve::ops::Reduce;
use k256::elliptic_curve::sec1::ToEncodedPoint;
use sha3::Digest;

use multichain_tools::curve::{scalar_from_hash, KdfError, Scalar, ScalarExt};
use multichain_tools::kdf::{
    derive_address_from_root_text, derive_child_public_key, derive_epsilon, derive_eth_address,
    derive_foreign_address, eth_address, naj_pk_to_verifying_key, root_key_from_view_result,
};

const ROOT_KEY: &str = "secp256k1:54hU5wcCmVUPFWLDALXMh1fFToZsVXrx9BbTbHzSfQq1Kd1rJZi52iPa4QQxo6s5TgjWqgpY8HamYuUDzG6fAaUq";

fn root_k256() -> k256::ecdsa::VerifyingKey {
    let body = bs58::decode(&ROOT_KEY[10..]).into_vec().unwrap();
    let mut sec1 = vec![4u8];
    sec1.extend_from_slice(&body);
    k256::ecdsa::VerifyingKey::from_sec1_bytes(&sec1).unwrap()
}

fn epsilon_k256(requester: &str, path: &str) -> k256::Scalar {
    let text = format!("near-mpc-recovery v0.1.0 epsilon derivation:{},{}", requester, path);
    let hash: [u8; 32] = sha3::Sha3_256::digest(text.as_bytes()).into();
    <k256::Scalar as Reduce<k256::U256>>::reduce_bytes(&hash.into())
}

#[test]
fn test_naj_pk_to_uncompressed_hex_point() {
    let verifying_key = naj_pk_to_verifying_key(ROOT_KEY);
    assert!(verifying_key.is_ok());
    let verifying_key = verifying_key.unwrap();
    let child_pk =
        derive_child_public_key(&verifying_key, "alice.testnet".to_string(), "path".to_string());
    assert!(child_pk.is_ok());
}

#[test]
fn root_key_decodes_to_its_point() {
    let key = naj_pk_to_verifying_key(ROOT_KEY).unwrap();
    let expected = root_k256().to_encoded_point(false).as_bytes().to_vec();
    assert_eq!(key.to_uncompressed(), expected);
}

#[test]
fn derive_child_key_doc_example() {
    let key = naj_pk_to_verifying_key(ROOT_KEY).unwrap();
    let child = derive_child_public_key(&key, "account_id".to_string(), "path".to_string());
    assert!(child.is_ok());
}

#[test]
fn root_key_with_wrong_prefix_is_refused() {
    let text = ROOT_KEY.replacen("secp256k1", "ed25519", 1);
    assert_eq!(naj_pk_to_verifying_key(&text), Err(KdfError::InvalidKeyEncoding));
    assert_eq!(naj_pk_to_verifying_key(&ROOT_KEY[10..]), Err(KdfError::InvalidKeyEncoding));
    assert_eq!(naj_pk_to_verifying_key(""), Err(KdfError::InvalidKeyEncoding));
}

#[test]
fn root_key_outside_base58_alphabet_is_refused() {
    let text = format!("{}0", &ROOT_KEY[..ROOT_KEY.len() - 1]);
    assert_eq!(naj_pk_to_verifying_key(&text), Err(KdfError::InvalidKeyEncoding));
}

#[test]
fn root_key_of_wrong_length_is_refused() {
    let body = bs58::decode(&ROOT_KEY[10..]).into_vec().unwrap();
    let short = format!("secp256k1:{}", bs58::encode(&body[..63]).into_string());
    assert_eq!(naj_pk_to_verifying_key(&short), Err(KdfError::InvalidKeyEncoding));
}

#[test]
fn root_key_off_the_curve_is_refused() {
    let text = format!("secp256k1:{}", bs58::encode(&[0u8; 64]).into_string());
    assert_eq!(naj_pk_to_verifying_key(&text), Err(KdfError::InvalidKeyEncoding));
}

#[test]
fn epsilon_matches_hash_reduced_big_endian() {
    let eps = derive_epsilon("alice.test".to_string(), "eth".to_string());
    let expected: [u8; 32] = epsilon_k256("alice.test", "eth").to_bytes().into();
    assert_eq!(eps.bytes, expected);
}

#[test]
fn scalar_from_hash_reduces_modulo_order() {
    let order: [u8; 32] = [
        0xFF, 0xFF, 0xFF, 0xFF, 0xFF, 0xFF, 0xFF, 0xFF, 0xFF, 0xFF, 0xFF, 0xFF, 0xFF, 0xFF, 0xFF,
        0xFE, 0xBA, 0xAE, 0xDC, 0xE6, 0xAF, 0x48, 0xA0, 0x3B, 0xBF, 0xD2, 0x5E, 0x8C, 0xD0, 0x36,
        0x41, 0x41,
    ];
    assert_eq!(scalar_from_hash(&order).bytes, [0u8; 32]);
    let mut above = order;
    above[31] = 0x43;
    let mut two = [0u8; 32];
    two[31] = 2;
    assert_eq!(scalar_from_hash(&above).bytes, two);
    let mut small = [0u8; 32];
    small[0] = 0x12;
    small[31] = 0x34;
    assert_eq!(scalar_from_hash(&small).bytes, small);
    let mut wrapped = [0u8; 32];
    wrapped[15..].copy_from_slice(&[
        0x01, 0x45, 0x51, 0x23, 0x19, 0x50, 0xB7, 0x5F, 0xC4, 0x40, 0x2D, 0xA1, 0x73, 0x2F, 0xC9,
        0xBE, 0xBE,
    ]);
    assert_eq!(scalar_from_hash(&[0xFF; 32]).bytes, wrapped);
}

#[test]
fn scalar_from_bytes_reduces_modulo_order() {
    let bytes: Vec<u8> = (0u8..32).collect();
    let s = Scalar::from_bytes(&bytes);
    assert_eq!(s.bytes.to_vec(), bytes);
    let all_ones = Scalar::from_bytes(&[0xFF; 32]);
    assert_eq!(all_ones, scalar_from_hash(&[0xFF; 32]));
    assert_ne!(all_ones.bytes, [0xFF; 32]);
    let order = k256::Scalar::ZERO - k256::Scalar::ONE;
    let top: [u8; 32] = order.to_bytes().into();
    assert_eq!(Scalar::from_bytes(&top).bytes, top);
}

#[test]
fn child_key_is_root_plus_epsilon_times_generator() {
    let key = naj_pk_to_verifying_key(ROOT_KEY).unwrap();
    let child = derive_child_public_key(&key, "alice.test".to_string(), "eth".to_string()).unwrap();
    let eps = epsilon_k256("alice.test", "eth");
    let expected = (k256::ProjectivePoint::GENERATOR * eps + root_k256().as_affine()).to_affine();
    assert_eq!(child.to_uncompressed(), expected.to_encoded_point(false).as_bytes().to_vec());
}

#[test]
fn child_key_derivation_is_deterministic() {
    let key = naj_pk_to_verifying_key(ROOT_KEY).unwrap();
    let a = derive_child_public_key(&key, "alice.test".to_string(), "eth".to_string()).unwrap();
    let b = derive_child_public_key(&key, "alice.test".to_string(), "eth".to_string()).unwrap();
    assert_eq!(a, b);
}

#[test]
fn distinct_paths_give_distinct_child_keys() {
    let key = naj_pk_to_verifying_key(ROOT_KEY).unwrap();
    let paths = ["eth", "eth,1", ""];
    let keys: Vec<_> = paths
        .iter()
        .map(|p| derive_child_public_key(&key, "alice.test".to_string(), p.to_string()).unwrap())
        .collect();
    assert_ne!(keys[0], keys[1]);
    assert_ne!(keys[0], keys[2]);
    assert_ne!(keys[1], keys[2]);
}

#[test]
fn address_of_child_key_matches_derived_address() {
    let key = naj_pk_to_verifying_key(ROOT_KEY).unwrap();
    let child = derive_child_public_key(&key, "alice.test".to_string(), "eth".to_string()).unwrap();
    let address = derive_foreign_address(&key, "alice.test".to_string(), "eth".to_string()).unwrap();
    assert_eq!(eth_address(&child), address);
}

#[test]
fn address_is_low_twenty_bytes_of_keccak() {
    let key = naj_pk_to_verifying_key(ROOT_KEY).unwrap();
    let encoded = key.to_uncompressed();
    let digest = ethers_core::utils::keccak256(&encoded[1..]);
    assert_eq!(eth_address(&key).to_vec(), digest[12..].to_vec());
}

#[test]
fn derived_address_golden_value() {
    let key = naj_pk_to_verifying_key(ROOT_KEY).unwrap();
    let address = derive_foreign_address(&key, "alice.test".to_string(), "eth".to_string()).unwrap();
    assert_eq!(ethers_core::utils::hex::encode(address), "16c33fda3ed3dd4a09663d11fee109b56ec0b8c8");
}

#[test]
fn derived_address_is_idempotent() {
    let key = naj_pk_to_verifying_key(ROOT_KEY).unwrap();
    let a = derive_foreign_address(&key, "alice.test".to_string(), "eth".to_string());
    let b = derive_foreign_address(&key, "alice.test".to_string(), "eth".to_string());
    assert_eq!(a, b);
}

#[test]
fn address_text_is_prefixed_lowercase_hex() {
    let key = naj_pk_to_verifying_key(ROOT_KEY).unwrap();
    let text = derive_eth_address(&key);
    assert_eq!(text, format!("0x{}", ethers_core::utils::hex::encode(eth_address(&key))));
    assert_eq!(text.len(), 42);
    assert!(text[2..].chars().all(|c| c.is_ascii_digit() || ('a'..='f').contains(&c)));
}

#[test]
fn address_from_root_text_composes_the_steps() {
    let key = naj_pk_to_verifying_key(ROOT_KEY).unwrap();
    let child = derive_child_public_key(&key, "alice.test".to_string(), "eth".to_string()).unwrap();
    let text =
        derive_address_from_root_text(ROOT_KEY, "alice.test".to_string(), "eth".to_string());
    assert_eq!(text, Ok(derive_eth_address(&child)));
    let bad = derive_address_from_root_text("secp256k1:", "a".to_string(), "b".to_string());
    assert_eq!(bad, Err(KdfError::InvalidKeyEncoding));
}

#[test]
fn root_key_from_view_result_reads_the_json_string() {
    let result = format!("\"{}\"", ROOT_KEY);
    assert_eq!(root_key_from_view_result(result.as_bytes()), naj_pk_to_verifying_key(ROOT_KEY));
    assert!(root_key_from_view_result(result.as_bytes()).is_ok());
    assert_eq!(
        root_key_from_view_result(ROOT_KEY.as_bytes()),
        Err(KdfError::InvalidKeyEncoding)
    );
    assert_eq!(root_key_from_view_result(b"\"ed25519:abc\""), Err(KdfError::InvalidKeyEncoding));
}
