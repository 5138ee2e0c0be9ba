use vstd::prelude::*;

use ed25519_dalek::Signer as _;
use ed25519_dalek::Verifier as _;
use rand::TryRngCore as _;
use secp256k1::hashes::Hash as _;

verus! {

// ---------------------------------------------------------------------------
// The two curves' arithmetic lives in outside crates. Each call the
// library makes is wrapped once here; what a result is gets a name when
// stating it outright would mean writing the algorithm down.
// ---------------------------------------------------------------------------

/// Whether 32 bytes are a valid secp256k1 secret scalar (nonzero and
/// below the group order), as SecretKey::from_byte_array decides it.
pub uninterp spec fn secp_secret_ok(sk: Seq<u8>) -> bool;

/// The compressed 33-byte serialization of the public point derived
/// from a valid secp256k1 secret key.
pub uninterp spec fn secp_public_of(sk: Seq<u8>) -> Seq<u8>;

/// The 32-byte SHA-256 digest of a message's UTF-8 bytes.
pub uninterp spec fn sha256_of(m: Seq<char>) -> Seq<u8>;

/// The DER serialization of the RFC 6979 deterministic ECDSA signature
/// over a 32-byte digest under a valid secp256k1 secret key.
pub uninterp spec fn secp_der_sig_of(sk: Seq<u8>, digest: Seq<u8>) -> Seq<u8>;

/// Whether DER signature bytes verify over a digest under a compressed
/// public key, as secp256k1's parse-then-verify_ecdsa decides it.
pub uninterp spec fn secp_verify_ok(pk: Seq<u8>, digest: Seq<u8>, sig: Seq<u8>) -> bool;

/// The 32-byte Ed25519 verifying key derived from a 32-byte seed.
pub uninterp spec fn ed25519_public_of(seed: Seq<u8>) -> Seq<u8>;

/// The 64-byte deterministic Ed25519 signature over a message's UTF-8
/// bytes under a 32-byte seed.
pub uninterp spec fn ed25519_sig_of(seed: Seq<u8>, m: Seq<char>) -> Seq<u8>;

/// Whether signature bytes verify over a message under a 32-byte
/// verifying key, as ed25519-dalek's parse-then-verify decides it.
pub uninterp spec fn ed25519_verify_ok(pk: Seq<u8>, m: Seq<char>, sig: Seq<u8>) -> bool;

/// Relies on rand's OsRng (try_fill_bytes): 32 bytes of fresh operating
/// system entropy on every call; nothing can be promised of the values.
/// A failure to obtain entropy is fatal and aborts, per the unwrap.
#[verifier::external_body]
pub(crate) fn fresh_seed32() -> (r: Vec<u8>)
    ensures
        r@.len() == 32,
{
    let mut key = [0u8; 32];
    rand::rngs::OsRng.try_fill_bytes(&mut key).unwrap();
    key.to_vec()
}

/// Relies on secp256k1's Secp256k1::generate_keypair: a fresh uniformly
/// random secret scalar, redrawn internally until valid, and its public
/// key from base-point multiplication, serialized compressed.
#[verifier::external_body]
pub(crate) fn secp_generate_keypair() -> (r: (Vec<u8>, Vec<u8>))
    ensures
        r.0@.len() == 32,
        secp_secret_ok(r.0@),
        r.1@ == secp_public_of(r.0@),
        r.1@.len() == 33,
{
    let secp = secp256k1::Secp256k1::new();
    let (sk, pk) = secp.generate_keypair(&mut rand::rng());
    (sk.secret_bytes().to_vec(), pk.serialize().to_vec())
}

/// Relies on secp256k1's SecretKey::from_byte_array, which accepts
/// exactly the in-range scalars.
#[verifier::external_body]
pub(crate) fn secp_secret_is_valid(sk: &[u8]) -> (r: bool)
    requires
        sk@.len() == 32,
    ensures
        r == secp_secret_ok(sk@),
{
    let mut arr = [0u8; 32];
    arr.copy_from_slice(sk);
    secp256k1::SecretKey::from_byte_array(arr).is_ok()
}

/// Relies on secp256k1's PublicKey::from_secret_key and its compressed
/// serialize: the 33-byte public point of a valid secret key.
#[verifier::external_body]
pub(crate) fn secp_public_key(sk: &[u8]) -> (r: Vec<u8>)
    requires
        sk@.len() == 32,
        secp_secret_ok(sk@),
    ensures
        r@ == secp_public_of(sk@),
        r@.len() == 33,
{
    let mut arr = [0u8; 32];
    arr.copy_from_slice(sk);
    let secret = secp256k1::SecretKey::from_byte_array(arr).unwrap();
    let secp = secp256k1::Secp256k1::new();
    secp256k1::PublicKey::from_secret_key(&secp, &secret).serialize().to_vec()
}

/// Relies on secp256k1::hashes::sha256: the SHA-256 digest of the
/// message's UTF-8 bytes, a function of the text alone.
#[verifier::external_body]
pub(crate) fn sha256_digest(m: &str) -> (r: Vec<u8>)
    ensures
        r@ == sha256_of(m@),
        r@.len() == 32,
{
    secp256k1::hashes::sha256::Hash::hash(m.as_bytes()).to_byte_array().to_vec()
}

/// Relies on secp256k1's sign_ecdsa (RFC 6979, deterministic) and
/// serialize_der; verify_ecdsa accepts what sign_ecdsa produced under
/// the key's own public point.
#[verifier::external_body]
pub(crate) fn secp_sign_digest(sk: &[u8], digest: &[u8]) -> (r: Vec<u8>)
    requires
        sk@.len() == 32,
        secp_secret_ok(sk@),
        digest@.len() == 32,
    ensures
        r@ == secp_der_sig_of(sk@, digest@),
        secp_verify_ok(secp_public_of(sk@), digest@, r@),
{
    let mut skb = [0u8; 32];
    skb.copy_from_slice(sk);
    let mut dig = [0u8; 32];
    dig.copy_from_slice(digest);
    let secret = secp256k1::SecretKey::from_byte_array(skb).unwrap();
    let secp = secp256k1::Secp256k1::new();
    let msg = secp256k1::Message::from_digest(dig);
    secp.sign_ecdsa(msg, &secret).serialize_der().to_vec()
}

/// Relies on secp256k1's PublicKey::from_slice, Signature::from_der and
/// verify_ecdsa; any parse failure counts as a failed verification.
#[verifier::external_body]
pub(crate) fn secp_verify_sig(pk: &[u8], digest: &[u8], sig: &[u8]) -> (r: bool)
    requires
        digest@.len() == 32,
    ensures
        r == secp_verify_ok(pk@, digest@, sig@),
{
    let mut dig = [0u8; 32];
    dig.copy_from_slice(digest);
    let msg = secp256k1::Message::from_digest(dig);
    match (secp256k1::PublicKey::from_slice(pk), secp256k1::ecdsa::Signature::from_der(sig)) {
        (Ok(public), Ok(parsed)) => {
            secp256k1::Secp256k1::new().verify_ecdsa(msg, &parsed, &public).is_ok()
        },
        _ => false,
    }
}

/// Relies on ed25519-dalek's SigningKey::from_bytes and verifying_key:
/// the 32-byte verifying key a seed determines.
#[verifier::external_body]
pub(crate) fn ed25519_public_key(seed: &[u8]) -> (r: Vec<u8>)
    requires
        seed@.len() == 32,
    ensures
        r@ == ed25519_public_of(seed@),
        r@.len() == 32,
{
    let mut arr = [0u8; 32];
    arr.copy_from_slice(seed);
    let signing_key = ed25519_dalek::SigningKey::from_bytes(&arr);
    signing_key.verifying_key().to_bytes().to_vec()
}

/// Relies on ed25519-dalek's Signer::sign (RFC 8032, deterministic);
/// the result verifies under the seed's own verifying key.
#[verifier::external_body]
pub(crate) fn ed25519_sign(seed: &[u8], m: &str) -> (r: Vec<u8>)
    requires
        seed@.len() == 32,
    ensures
        r@ == ed25519_sig_of(seed@, m@),
        r@.len() == 64,
        ed25519_verify_ok(ed25519_public_of(seed@), m@, r@),
{
    let mut arr = [0u8; 32];
    arr.copy_from_slice(seed);
    let signing_key = ed25519_dalek::SigningKey::from_bytes(&arr);
    signing_key.sign(m.as_bytes()).to_bytes().to_vec()
}

/// Relies on ed25519-dalek's VerifyingKey::from_bytes, Signature::
/// from_slice and Verifier::verify; any parse failure counts as a
/// failed verification.
#[verifier::external_body]
pub(crate) fn ed25519_verify_sig(pk: &[u8], m: &str, sig: &[u8]) -> (r: bool)
    ensures
        r == ed25519_verify_ok(pk@, m@, sig@),
{
    match (<[u8; 32]>::try_from(pk), ed25519_dalek::Signature::from_slice(sig)) {
        (Ok(arr), Ok(parsed)) => match ed25519_dalek::VerifyingKey::from_bytes(&arr) {
            Ok(key) => key.verify(m.as_bytes(), &parsed).is_ok(),
            Err(_) => false,
        },
        _ => false,
    }
}

} // verus!
