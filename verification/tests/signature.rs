use ed25519_dalek::Signer as _;
use secp256k1::hashes::Hash as _;
use wallet_core::errors::WalletError;
use wallet_core::key_type::KeyType;
use wallet_core::signature::{
    clear_signatures, clear_signatures_for_wallet, list_signatures, sign, sign_message,
    verify_signature,
};
use wallet_core::store::{SignatureStore, WalletStore};
use wallet_core::wallet::create_wallet;

fn insert_test_wallet(store: &mut WalletStore) -> wallet_core::models::Wallet {
    create_wallet(store, KeyType::Ecdsa, 0)
}

#[test]
fn test_sign_message_inserts_signature() {
    let mut wstore = WalletStore::new();
    let mut sstore = SignatureStore::new();

    let wallet = insert_test_wallet(&mut wstore);

    let sig_hex =
        sign_message(&wstore, &mut sstore, wallet.id.unwrap(), "hello world", 0).unwrap();

    let sigs = list_signatures(&sstore, wallet.id.unwrap());
    assert_eq!(sigs.len(), 1);
    assert_eq!(sigs[0].message, "hello world");

    assert!(!sig_hex.is_empty());
    assert_eq!(sigs[0].signature, sig_hex);
}

#[test]
fn test_list_signatures_prints_entries() {
    let mut wstore = WalletStore::new();
    let mut sstore = SignatureStore::new();
    let wallet = insert_test_wallet(&mut wstore);

    sign_message(&wstore, &mut sstore, wallet.id.unwrap(), "msg1", 0).unwrap();
    sign_message(&wstore, &mut sstore, wallet.id.unwrap(), "msg2", 0).unwrap();

    let listed = list_signatures(&sstore, wallet.id.unwrap());
    let messages: Vec<&str> = listed.iter().map(|s| s.message.as_str()).collect();
    assert_eq!(listed.len(), 2);
    assert!(messages.contains(&"msg1"));
    assert!(messages.contains(&"msg2"));
}

#[test]
fn test_clear_signatures_removes_all() {
    let mut wstore = WalletStore::new();
    let mut sstore = SignatureStore::new();
    let wallet = insert_test_wallet(&mut wstore);

    sign_message(&wstore, &mut sstore, wallet.id.unwrap(), "msg", 0).unwrap();
    clear_signatures(&mut sstore);

    let sigs = list_signatures(&sstore, wallet.id.unwrap());
    assert!(sigs.is_empty());
}

#[test]
fn test_clear_signatures_for_wallet() {
    let mut wstore = WalletStore::new();
    let mut sstore = SignatureStore::new();
    let wallet1 = insert_test_wallet(&mut wstore);
    let wallet2 = insert_test_wallet(&mut wstore);

    sign_message(&wstore, &mut sstore, wallet1.id.unwrap(), "msg1", 0).unwrap();
    sign_message(&wstore, &mut sstore, wallet2.id.unwrap(), "msg2", 0).unwrap();

    clear_signatures_for_wallet(&mut sstore, wallet1.id.unwrap());

    assert!(list_signatures(&sstore, wallet1.id.unwrap()).is_empty());
    let remaining = list_signatures(&sstore, wallet2.id.unwrap());
    assert_eq!(remaining.len(), 1);
    assert_eq!(remaining[0].wallet_id, wallet2.id.unwrap());
}

#[test]
fn test_clear_for_wallet_leaves_other_wallets_sigs_intact() {
    // Wallets A and B with 2 signatures each; clearing A's leaves
    // exactly B's 2.
    let mut wstore = WalletStore::new();
    let mut sstore = SignatureStore::new();
    let a = insert_test_wallet(&mut wstore);
    let b = insert_test_wallet(&mut wstore);

    for msg in ["a1", "a2"] {
        sign_message(&wstore, &mut sstore, a.id.unwrap(), msg, 0).unwrap();
    }
    for msg in ["b1", "b2"] {
        sign_message(&wstore, &mut sstore, b.id.unwrap(), msg, 0).unwrap();
    }

    clear_signatures_for_wallet(&mut sstore, a.id.unwrap());

    assert!(list_signatures(&sstore, a.id.unwrap()).is_empty());
    let kept = list_signatures(&sstore, b.id.unwrap());
    assert_eq!(kept.len(), 2);
    assert_eq!(kept[0].message, "b1");
    assert_eq!(kept[1].message, "b2");
}

#[test]
fn test_sign_matches_reference_ecdsa() {
    // The scheme is fixed: an Ecdsa key goes through DER-serialized
    // ECDSA over the SHA-256 digest, exactly as secp256k1 computes it.
    let sk_hex = "0101010101010101010101010101010101010101010101010101010101010101";
    let sig_hex = sign(KeyType::Ecdsa, sk_hex, "hello world").unwrap();

    let secret = secp256k1::SecretKey::from_byte_array([1u8; 32]).unwrap();
    let secp = secp256k1::Secp256k1::new();
    let digest = secp256k1::hashes::sha256::Hash::hash(b"hello world");
    let msg = secp256k1::Message::from_digest(digest.to_byte_array());
    let expected = hex::encode(secp.sign_ecdsa(msg, &secret).serialize_der());

    assert_eq!(sig_hex, expected);
}

#[test]
fn test_sign_matches_reference_eddsa() {
    // RFC 8032 test vector: seed and expected signature over the
    // empty message.
    let seed_hex = "9d61b19deffd5a60ba844af492ec2cc44449c5697b326919703bac031cae7f60";
    let sig_hex = sign(KeyType::Eddsa, seed_hex, "").unwrap();
    let expected = "e5564300c360ac729086e2cc806e828a84877f1eb8e5d974d873e06522490155\
                    5fb8821590a33bacc61e39701cf9b46bd25bf5f0595bbe24655141438e7a100b";
    assert_eq!(sig_hex, expected);
    // And the same value as ed25519-dalek computes directly.
    let seed: [u8; 32] = hex::decode(seed_hex).unwrap().try_into().unwrap();
    let key = ed25519_dalek::SigningKey::from_bytes(&seed);
    assert_eq!(sig_hex, hex::encode(key.sign(b"").to_bytes()));
}

#[test]
fn test_sign_is_deterministic() {
    let sk_hex = "0101010101010101010101010101010101010101010101010101010101010101";
    assert_eq!(
        sign(KeyType::Ecdsa, sk_hex, "msg").unwrap(),
        sign(KeyType::Ecdsa, sk_hex, "msg").unwrap()
    );
    assert_eq!(
        sign(KeyType::Eddsa, sk_hex, "msg").unwrap(),
        sign(KeyType::Eddsa, sk_hex, "msg").unwrap()
    );
}

#[test]
fn test_sign_rejects_malformed_hex() {
    // Odd length, non-hex characters, wrong length: all are key
    // encoding errors.
    assert_eq!(
        sign(KeyType::Ecdsa, "abc", "msg"),
        Err(WalletError::InvalidKeyEncoding)
    );
    assert_eq!(
        sign(KeyType::Ecdsa, "zz", "msg"),
        Err(WalletError::InvalidKeyEncoding)
    );
    assert_eq!(
        sign(KeyType::Ecdsa, "abab", "msg"),
        Err(WalletError::InvalidKeyEncoding)
    );
    assert_eq!(
        sign(KeyType::Eddsa, "", "msg"),
        Err(WalletError::InvalidKeyEncoding)
    );
}

#[test]
fn test_sign_rejects_invalid_scalar() {
    // 32 zero bytes are not a valid secp256k1 secret scalar.
    let zero_hex = "0000000000000000000000000000000000000000000000000000000000000000";
    assert_eq!(
        sign(KeyType::Ecdsa, zero_hex, "msg"),
        Err(WalletError::InvalidKeyMaterial)
    );
    // Every 32-byte string is a valid Ed25519 seed.
    assert!(sign(KeyType::Eddsa, zero_hex, "msg").is_ok());
}

#[test]
fn test_sign_message_unknown_wallet() {
    let wstore = WalletStore::new();
    let mut sstore = SignatureStore::new();
    assert_eq!(
        sign_message(&wstore, &mut sstore, 42, "msg", 0),
        Err(WalletError::WalletNotFound)
    );
    assert!(list_signatures(&sstore, 42).is_empty());
}

#[test]
fn test_round_trip_verify() {
    // A signature produced for (wallet, message) verifies against the
    // wallet's derived public key, for both schemes.
    let mut wstore = WalletStore::new();
    let mut sstore = SignatureStore::new();
    for kt in [KeyType::Ecdsa, KeyType::Eddsa] {
        let wallet = create_wallet(&mut wstore, kt, 0);
        let sig_hex = sign_message(&wstore, &mut sstore, wallet.id.unwrap(), "round trip", 0)
            .unwrap();
        assert_eq!(verify_signature(&wallet, "round trip", &sig_hex), Ok(true));
        assert_eq!(verify_signature(&wallet, "another msg", &sig_hex), Ok(false));
        assert_eq!(verify_signature(&wallet, "round trip", "abcd"), Ok(false));
    }
}

#[test]
fn test_signature_is_well_formed_der() {
    // An Ecdsa signature decodes from hex to well-formed DER.
    let mut wstore = WalletStore::new();
    let mut sstore = SignatureStore::new();
    let wallet = create_wallet(&mut wstore, KeyType::Ecdsa, 0);
    let sig_hex = sign_message(&wstore, &mut sstore, wallet.id.unwrap(), "msg", 0).unwrap();
    let der = hex::decode(&sig_hex).unwrap();
    assert!(secp256k1::ecdsa::Signature::from_der(&der).is_ok());
}

#[test]
fn test_eddsa_signature_is_64_bytes() {
    let mut wstore = WalletStore::new();
    let mut sstore = SignatureStore::new();
    let wallet = create_wallet(&mut wstore, KeyType::Eddsa, 0);
    let sig_hex = sign_message(&wstore, &mut sstore, wallet.id.unwrap(), "msg", 0).unwrap();
    assert_eq!(hex::decode(&sig_hex).unwrap().len(), 64);
}
