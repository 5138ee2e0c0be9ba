use wallet_core::key_type::KeyType;
use wallet_core::store::WalletStore;
use wallet_core::wallet::{clear_wallets, create_wallet, generate, list_wallets};

#[test]
fn test_create_wallet() {
    let mut store = WalletStore::new();

    for key_type_val in &[KeyType::Ecdsa, KeyType::Eddsa] {
        let wallet = create_wallet(&mut store, *key_type_val, 0);

        // Validate that address and private key are populated
        assert!(!wallet.address.is_empty());
        assert!(!wallet.private_key.is_empty());

        // The stored record is the returned one
        let stored = list_wallets(&store, 10).pop().unwrap();
        assert_eq!(stored.address, wallet.address);
        assert_eq!(stored.private_key, wallet.private_key);

        // Check that the key type is stored correctly
        assert_eq!(stored.key_type, *key_type_val);
    }
}

#[test]
fn test_list_wallets() {
    let mut store = WalletStore::new();

    // Insert multiple wallets
    create_wallet(&mut store, KeyType::Ecdsa, 0);
    create_wallet(&mut store, KeyType::Eddsa, 0);

    let listed = list_wallets(&store, 10);
    assert_eq!(listed.len(), 2);
    assert_eq!(listed[0].id, Some(1));
    assert_eq!(listed[1].id, Some(2));
}

#[test]
fn test_clear_wallets() {
    let mut store = WalletStore::new();

    create_wallet(&mut store, KeyType::Ecdsa, 0);
    create_wallet(&mut store, KeyType::Eddsa, 0);

    let results = list_wallets(&store, 10);
    assert_eq!(results.len(), 2);

    clear_wallets(&mut store);

    let results = list_wallets(&store, 10);
    assert_eq!(results.len(), 0);
}

#[test]
fn test_list_wallets_respects_limit() {
    let mut store = WalletStore::new();
    for _ in 0..5 {
        create_wallet(&mut store, KeyType::Ecdsa, 0);
    }
    assert_eq!(list_wallets(&store, 3).len(), 3);
    assert_eq!(list_wallets(&store, 0).len(), 0);
    assert_eq!(list_wallets(&store, 10).len(), 5);
}

#[test]
fn test_generated_ecdsa_key_is_valid_secret() {
    // The private key decodes to exactly 32 bytes that secp256k1
    // accepts as a secret scalar.
    let (_addr, privkey) = generate(KeyType::Ecdsa);
    let bytes = hex::decode(&privkey).unwrap();
    assert_eq!(bytes.len(), 32);
    let arr: [u8; 32] = bytes.as_slice().try_into().unwrap();
    assert!(secp256k1::SecretKey::from_byte_array(arr).is_ok());
}

#[test]
fn test_generated_eddsa_key_is_valid_seed() {
    let (_addr, privkey) = generate(KeyType::Eddsa);
    let bytes = hex::decode(&privkey).unwrap();
    assert_eq!(bytes.len(), 32);
}

#[test]
fn test_generated_ecdsa_address_matches_public_key() {
    // The address is the lowercase hex of the compressed public point
    // of the generated secret key.
    let (addr, privkey) = generate(KeyType::Ecdsa);
    let bytes = hex::decode(&privkey).unwrap();
    let arr: [u8; 32] = bytes.as_slice().try_into().unwrap();
    let secret = secp256k1::SecretKey::from_byte_array(arr).unwrap();
    let secp = secp256k1::Secp256k1::new();
    let public = secp256k1::PublicKey::from_secret_key(&secp, &secret);
    assert_eq!(addr, hex::encode(public.serialize()));
}

#[test]
fn test_generated_eddsa_address_matches_public_key() {
    // The address is the base-58 text of the Ed25519 verifying key
    // derived from the generated seed.
    let (addr, privkey) = generate(KeyType::Eddsa);
    let bytes = hex::decode(&privkey).unwrap();
    let arr: [u8; 32] = bytes.as_slice().try_into().unwrap();
    let signing_key = ed25519_dalek::SigningKey::from_bytes(&arr);
    let expected = bs58::encode(signing_key.verifying_key().as_bytes()).into_string();
    assert_eq!(addr, expected);
}

#[test]
fn test_generate_draws_fresh_entropy() {
    // Two calls never coincide.
    let (addr1, priv1) = generate(KeyType::Ecdsa);
    let (addr2, priv2) = generate(KeyType::Ecdsa);
    assert_ne!(addr1, addr2);
    assert_ne!(priv1, priv2);
}
