use vstd::prelude::*;

use crate::crypto::{
    ed25519_public_key, ed25519_public_of, fresh_seed32, secp_generate_keypair, secp_public_of,
    secp_secret_ok,
};
use crate::encoding::{
    base58_encode, base58_of, bytes_of_hex, hex_encode, hex_of, lemma_hex_round_trip, valid_hex,
};
use crate::key_type::KeyType;
use crate::models::{NewWallet, Wallet};
use crate::store::{spec_list_prefix, WalletStore};

verus! {

/// Whether bytes are a usable secret for a scheme: exactly 32 bytes,
/// and for the secp-family scheme a scalar in range (every 32-byte
/// string is a valid Edwards seed).
pub open spec fn key_ok_for(kt: KeyType, sk: Seq<u8>) -> bool {
    sk.len() == 32 && (kt == KeyType::Ecdsa ==> secp_secret_ok(sk))
}

/// The public key bytes a scheme derives from a secret: the compressed
/// curve point, or the Edwards verifying key.
pub open spec fn spec_public_of(kt: KeyType, sk: Seq<u8>) -> Seq<u8> {
    match kt {
        KeyType::Ecdsa => secp_public_of(sk),
        KeyType::Eddsa => ed25519_public_of(sk),
    }
}

/// The address text a scheme derives from a secret: lowercase hex of
/// the compressed public point for Ecdsa, base-58 of the verifying key
/// for Eddsa.
pub open spec fn spec_address_of(kt: KeyType, sk: Seq<u8>) -> Seq<char> {
    match kt {
        KeyType::Ecdsa => hex_of(secp_public_of(sk)),
        KeyType::Eddsa => base58_of(ed25519_public_of(sk)),
    }
}

/// What generation promises of an (address, private key) pair: the
/// private key is well-formed hex of 32 bytes valid for the scheme,
/// and the address is derived from the matching public key.
pub open spec fn generated_ok(kt: KeyType, address: Seq<char>, private_key: Seq<char>) -> bool {
    &&& valid_hex(private_key)
    &&& key_ok_for(kt, bytes_of_hex(private_key))
    &&& address == spec_address_of(kt, bytes_of_hex(private_key))
}

/// Law: a generated private key is well-formed hex that decodes to
/// exactly 32 bytes, a valid secret for its scheme.
pub proof fn lemma_generated_key_well_formed(kt: KeyType, address: Seq<char>, private_key: Seq<char>)
    requires
        generated_ok(kt, address, private_key),
    ensures
        valid_hex(private_key),
        bytes_of_hex(private_key).len() == 32,
        kt == KeyType::Ecdsa ==> secp_secret_ok(bytes_of_hex(private_key)),
{
}

/// A fresh secp-family key: hex address of the compressed public
/// point, lowercase-hex private key.
fn make_ecdsa_key() -> (r: (String, String))
    ensures
        generated_ok(KeyType::Ecdsa, r.0@, r.1@),
{
    let (sk, pk) = secp_generate_keypair();
    let addr = hex_encode(pk.as_slice());
    let privkey = hex_encode(sk.as_slice());
    proof {
        lemma_hex_round_trip(sk@);
    }
    (addr, privkey)
}

/// A fresh Edwards-curve key from 32 random seed bytes: base-58
/// address of the verifying key, lowercase-hex seed.
fn make_eddsa_key() -> (r: (String, String))
    ensures
        generated_ok(KeyType::Eddsa, r.0@, r.1@),
{
    let seed = fresh_seed32();
    let pk = ed25519_public_key(seed.as_slice());
    let addr = base58_encode(pk.as_slice());
    let privkey = hex_encode(seed.as_slice());
    proof {
        lemma_hex_round_trip(seed@);
    }
    (addr, privkey)
}

/// Draws a fresh keypair for the scheme and returns the derived
/// address and the lowercase-hex private key.
pub fn generate(key_type: KeyType) -> (r: (String, String))
    ensures
        generated_ok(key_type, r.0@, r.1@),
{
    match key_type {
        KeyType::Eddsa => make_eddsa_key(),
        KeyType::Ecdsa => make_ecdsa_key(),
    }
}

/// Creates a wallet of the scheme and persists it: a fresh keypair,
/// the scheme's address text, the private key as hex, under a fresh
/// identifier. Returns the stored record.
pub fn create_wallet(store: &mut WalletStore, key_type: KeyType, created_at: i64) -> (w: Wallet)
    requires
        old(store).wf(),
        old(store).fresh_id_ok(),
    ensures
        final(store).wf(),
        final(store).wallets@ == old(store).wallets@.push(w),
        final(store).next_id == old(store).next_id + 1,
        w.id == Some(old(store).next_id),
        w.key_type == key_type,
        w.created_at == created_at,
        generated_ok(key_type, w.address@, w.private_key@),
{
    let (addr, privkey) = generate(key_type);
    let new_wallet = NewWallet {
        address: addr.clone(),
        private_key: privkey.clone(),
        key_type: key_type,
    };
    let id = store.insert(new_wallet, created_at);
    let w = Wallet {
        id: Some(id),
        address: addr,
        private_key: privkey,
        created_at: created_at,
        key_type: key_type,
    };
    proof {
        assert(store.wallets@.last() == w);
    }
    w
}

/// Up to `limit` stored wallets, oldest first, as the repository
/// keeps them.
pub fn list_wallets(store: &WalletStore, limit: usize) -> (r: Vec<Wallet>)
    ensures
        r@ == spec_list_prefix(store.wallets@, limit as int),
{
    store.list(limit)
}

/// Deletes every wallet unconditionally. Stored signatures are not
/// cascaded; clearing them is a separate, explicit operation.
pub fn clear_wallets(store: &mut WalletStore)
    requires
        old(store).wf(),
    ensures
        final(store).wf(),
        final(store).wallets@.len() == 0,
        final(store).next_id == old(store).next_id,
{
    store.delete_all()
}

/// Law: once the wallet store is empty, a listing is empty whatever
/// the limit.
pub proof fn lemma_cleared_listing_empty(store: WalletStore, limit: usize)
    requires
        store.wallets@.len() == 0,
    ensures
        spec_list_prefix(store.wallets@, limit as int) == Seq::<Wallet>::empty(),
{
    assert(spec_list_prefix(store.wallets@, limit as int) =~= Seq::<Wallet>::empty());
}

} // verus!
