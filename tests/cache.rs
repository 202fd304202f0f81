use multichain_tools::cache::RootKeyCache;
use multichain_tools::kdf::{derive_child_public_key, naj_pk_to_verifying_key};

const ROOT_KEY: &str = "secp256k1:54hU5wcCmVUPFWLDALXMh1fFToZsVXrx9BbTbHzSfQq1Kd1rJZi52iPa4QQxo6s5TgjWqgpY8HamYuUDzG6fAaUq";

#[test]
fn cache_keeps_keys_per_contract() {
    let root = naj_pk_to_verifying_key(ROOT_KEY).unwrap();
    let other = derive_child_public_key(&root, "a".to_string(), "b".to_string()).unwrap();
    let mut cache = RootKeyCache::new();
    assert_eq!(cache.get("v1.signer"), None);
    cache.insert("v1.signer".to_string(), root);
    cache.insert("v2.signer".to_string(), other);
    assert_eq!(cache.get("v1.signer"), Some(root));
    assert_eq!(cache.get("v2.signer"), Some(other));
    assert_eq!(cache.get("v1.signe"), None);
}

#[test]
fn cache_insert_replaces_and_invalidate_drops() {
    let root = naj_pk_to_verifying_key(ROOT_KEY).unwrap();
    let other = derive_child_public_key(&root, "a".to_string(), "b".to_string()).unwrap();
    let mut cache = RootKeyCache::new();
    cache.insert("v1.signer".to_string(), root);
    cache.insert("v2.signer".to_string(), root);
    cache.insert("v1.signer".to_string(), other);
    assert_eq!(cache.get("v1.signer"), Some(other));
    cache.invalidate("v1.signer");
    assert_eq!(cache.get("v1.signer"), None);
    assert_eq!(cache.get("v2.signer"), Some(root));
    cache.invalidate("absent");
    assert_eq!(cache.get("v2.signer"), Some(root));
}
