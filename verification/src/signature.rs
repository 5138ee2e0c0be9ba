use vstd::prelude::*;

use crate::crypto::{
    ed25519_public_key, ed25519_sig_of, ed25519_sign, ed25519_verify_ok, ed25519_verify_sig,
    secp_der_sig_of,
    secp_public_key, secp_secret_is_valid, secp_secret_ok, secp_sign_digest, secp_verify_ok,
    secp_verify_sig, sha256_digest, sha256_of,
};
use crate::encoding::{bytes_of_hex, hex_decode, hex_encode, hex_of, valid_hex};
use crate::errors::WalletError;
use crate::key_type::KeyType;
use crate::models::{NewSignature, Signature, Wallet};
use crate::store::{
    not_for_wallet, spec_find_wallet, spec_sigs_of_wallet, SignatureStore, WalletStore,
};
use crate::wallet::{key_ok_for, spec_public_of};

verus! {

/// The signature bytes a scheme produces for a message: the DER ECDSA
/// signature over the SHA-256 digest, or the raw 64-byte Ed25519
/// signature over the message itself.
pub open spec fn spec_sig_bytes(kt: KeyType, sk: Seq<u8>, msg: Seq<char>) -> Seq<u8> {
    match kt {
        KeyType::Ecdsa => secp_der_sig_of(sk, sha256_of(msg)),
        KeyType::Eddsa => ed25519_sig_of(sk, msg),
    }
}

/// Whether signature bytes verify for a message under a scheme and a
/// public key.
pub open spec fn spec_verify_ok(kt: KeyType, pk: Seq<u8>, msg: Seq<char>, sig: Seq<u8>) -> bool {
    match kt {
        KeyType::Ecdsa => secp_verify_ok(pk, sha256_of(msg), sig),
        KeyType::Eddsa => ed25519_verify_ok(pk, msg, sig),
    }
}

/// Why signing with this key material fails, if it does: not 32 bytes
/// of hex, or bytes that are no valid secret for the scheme.
pub open spec fn spec_sign_error(kt: KeyType, key_hex: Seq<char>) -> Option<WalletError> {
    if !(valid_hex(key_hex) && bytes_of_hex(key_hex).len() == 32) {
        Some(WalletError::InvalidKeyEncoding)
    } else if !key_ok_for(kt, bytes_of_hex(key_hex)) {
        Some(WalletError::InvalidKeyMaterial)
    } else {
        None
    }
}

/// The DER ECDSA signature over the SHA-256 digest of the message,
/// hex-encoded; fails exactly on bytes that are no valid scalar.
fn make_ecdsa_signature(priv_key: &[u8], msg: &str) -> (r: Result<String, WalletError>)
    requires
        priv_key@.len() == 32,
    ensures
        r is Ok <==> secp_secret_ok(priv_key@),
        r matches Ok(s) ==> s@ == hex_of(spec_sig_bytes(KeyType::Ecdsa, priv_key@, msg@))
            && spec_verify_ok(
            KeyType::Ecdsa,
            spec_public_of(KeyType::Ecdsa, priv_key@),
            msg@,
            spec_sig_bytes(KeyType::Ecdsa, priv_key@, msg@),
        ),
        r matches Err(e) ==> e == WalletError::InvalidKeyMaterial,
{
    if !secp_secret_is_valid(priv_key) {
        return Err(WalletError::InvalidKeyMaterial);
    }
    let digest = sha256_digest(msg);
    let der = secp_sign_digest(priv_key, digest.as_slice());
    Ok(hex_encode(der.as_slice()))
}

/// The raw 64-byte Ed25519 signature over the message, hex-encoded;
/// every 32-byte seed is usable, so this cannot fail.
fn make_eddsa_signature(priv_key: &[u8], msg: &str) -> (r: Result<String, WalletError>)
    requires
        priv_key@.len() == 32,
    ensures
        r is Ok,
        r matches Ok(s) ==> s@ == hex_of(spec_sig_bytes(KeyType::Eddsa, priv_key@, msg@))
            && spec_verify_ok(
            KeyType::Eddsa,
            spec_public_of(KeyType::Eddsa, priv_key@),
            msg@,
            spec_sig_bytes(KeyType::Eddsa, priv_key@, msg@),
        ),
{
    let sig = ed25519_sign(priv_key, msg);
    Ok(hex_encode(sig.as_slice()))
}

/// Signs a message with hex key material under a scheme: decodes the
/// key, validates it for the scheme, dispatches — Ecdsa keys only
/// through ECDSA signing, Eddsa keys only through EdDSA signing, with
/// no fallback between them — and hex-encodes the signature. No side
/// effects; persistence is the caller's responsibility.
pub fn sign(key_type: KeyType, private_key_hex: &str, msg: &str) -> (r: Result<
    String,
    WalletError,
>)
    ensures
        r is Ok <==> spec_sign_error(key_type, private_key_hex@) is None,
        r matches Err(e) ==> Some(e) == spec_sign_error(key_type, private_key_hex@),
        r matches Ok(s) ==> {
            let sk = bytes_of_hex(private_key_hex@);
            &&& s@ == hex_of(spec_sig_bytes(key_type, sk, msg@))
            &&& spec_verify_ok(
                key_type,
                spec_public_of(key_type, sk),
                msg@,
                spec_sig_bytes(key_type, sk, msg@),
            )
        },
{
    let bytes = match hex_decode(private_key_hex) {
        Some(b) => b,
        None => {
            return Err(WalletError::InvalidKeyEncoding);
        },
    };
    if bytes.len() != 32 {
        return Err(WalletError::InvalidKeyEncoding);
    }
    match key_type {
        KeyType::Ecdsa => make_ecdsa_signature(bytes.as_slice(), msg),
        KeyType::Eddsa => make_eddsa_signature(bytes.as_slice(), msg),
    }
}

/// Signs a message on behalf of a stored wallet: fetches the record,
/// signs under the wallet's own scheme, persists the signature row,
/// and returns the hex signature. Either both happen — a stored row
/// and a returned value — or neither: on any failure the signature
/// store is untouched.
pub fn sign_message(
    wstore: &WalletStore,
    sstore: &mut SignatureStore,
    wallet_id: i64,
    msg: &str,
    created_at: i64,
) -> (r: Result<String, WalletError>)
    requires
        wstore.wf(),
        old(sstore).wf(),
        old(sstore).fresh_id_ok(),
    ensures
        final(sstore).wf(),
        r is Ok <==> (spec_find_wallet(wstore.wallets@, wallet_id) matches Some(w)
            && spec_sign_error(w.key_type, w.private_key@) is None),
        r matches Err(e) ==> *final(sstore) == *old(sstore) && (match spec_find_wallet(
            wstore.wallets@,
            wallet_id,
        ) {
            None => e == WalletError::WalletNotFound,
            Some(w) => Some(e) == spec_sign_error(w.key_type, w.private_key@),
        }),
        r matches Ok(s) ==> (spec_find_wallet(wstore.wallets@, wallet_id) matches Some(w) && {
            let sk = bytes_of_hex(w.private_key@);
            &&& s@ == hex_of(spec_sig_bytes(w.key_type, sk, msg@))
            &&& spec_verify_ok(
                w.key_type,
                spec_public_of(w.key_type, sk),
                msg@,
                spec_sig_bytes(w.key_type, sk, msg@),
            )
            &&& final(sstore).sigs@.len() == old(sstore).sigs@.len() + 1
            &&& final(sstore).sigs@.drop_last() == old(sstore).sigs@
            &&& final(sstore).sigs@.last().id == Some(old(sstore).next_id)
            &&& final(sstore).sigs@.last().wallet_id == wallet_id
            &&& final(sstore).sigs@.last().message@ == msg@
            &&& final(sstore).sigs@.last().signature@ == s@
            &&& final(sstore).sigs@.last().created_at == created_at
        }),
{
    let wallet = match wstore.find_by_id(wallet_id) {
        Some(w) => w,
        None => {
            return Err(WalletError::WalletNotFound);
        },
    };
    let sig_hex = match sign(wallet.key_type, wallet.private_key.as_str(), msg) {
        Ok(s) => s,
        Err(e) => {
            return Err(e);
        },
    };
    let new_sig = NewSignature {
        wallet_id: wallet_id,
        message: msg.to_owned(),
        signature: sig_hex.clone(),
    };
    sstore.insert(new_sig, created_at);
    proof {
        assert(sstore.sigs@.drop_last() =~= old(sstore).sigs@);
    }
    Ok(sig_hex)
}

/// Every stored signature of the wallet, in store order.
pub fn list_signatures(sstore: &SignatureStore, wallet_id: i64) -> (r: Vec<Signature>)
    ensures
        r@ == spec_sigs_of_wallet(sstore.sigs@, wallet_id),
{
    sstore.list_by_wallet(wallet_id)
}

/// Deletes every signature row unconditionally.
pub fn clear_signatures(sstore: &mut SignatureStore)
    requires
        old(sstore).wf(),
    ensures
        final(sstore).wf(),
        final(sstore).sigs@.len() == 0,
        final(sstore).next_id == old(sstore).next_id,
{
    sstore.delete_all()
}

/// Deletes exactly the signature rows whose `wallet_id` matches;
/// every other row stays, in its order.
pub fn clear_signatures_for_wallet(sstore: &mut SignatureStore, wallet_id: i64)
    requires
        old(sstore).wf(),
    ensures
        final(sstore).wf(),
        final(sstore).sigs@ == old(sstore).sigs@.filter(not_for_wallet(wallet_id)),
        final(sstore).next_id == old(sstore).next_id,
{
    sstore.delete_by_wallet(wallet_id)
}

/// Law: clearing one wallet's signatures removes exactly the rows
/// stored under it — none survives, and every other row is kept.
pub proof fn lemma_clear_for_wallet_exact(s: Seq<Signature>, w: i64)
    ensures
        forall|i: int|
            0 <= i < s.filter(not_for_wallet(w)).len() ==> (#[trigger] s.filter(not_for_wallet(w))[i]).wallet_id
                != w,
        forall|i: int|
            0 <= i < s.len() && s[i].wallet_id != w ==> s.filter(not_for_wallet(w)).contains(
                #[trigger] s[i],
            ),
{
    assert forall|i: int| 0 <= i < s.filter(not_for_wallet(w)).len() implies (#[trigger] s.filter(
        not_for_wallet(w),
    )[i]).wallet_id != w by {
        s.lemma_filter_pred(not_for_wallet(w), i);
    }
    assert forall|i: int| 0 <= i < s.len() && s[i].wallet_id != w implies s.filter(
        not_for_wallet(w),
    ).contains(#[trigger] s[i]) by {
        s.lemma_filter_contains(not_for_wallet(w), i);
    }
}

/// Law: clearing wallet `w`'s signatures leaves any other wallet's
/// listing exactly as it was.
pub proof fn lemma_clear_other_wallet_kept(s: Seq<Signature>, w: i64, v: i64)
    requires
        v != w,
    ensures
        spec_sigs_of_wallet(s.filter(not_for_wallet(w)), v) == spec_sigs_of_wallet(s, v),
    decreases s.len(),
{
    reveal_with_fuel(Seq::filter, 2);
    if s.len() == 0 {
    } else {
        let prefix = s.drop_last();
        lemma_clear_other_wallet_kept(prefix, w, v);
        let x = s.last();
        crate::store::lemma_filter_push(prefix, x, not_for_wallet(w));
        assert(prefix.push(x) =~= s);
        if x.wallet_id != w {
            assert(s.filter(not_for_wallet(w)) == prefix.filter(not_for_wallet(w)).push(x));
            crate::store::lemma_filter_push(
                prefix.filter(not_for_wallet(w)),
                x,
                crate::store::for_wallet(v),
            );
            crate::store::lemma_filter_push(prefix, x, crate::store::for_wallet(v));
        } else {
            assert(s.filter(not_for_wallet(w)) == prefix.filter(not_for_wallet(w)));
            crate::store::lemma_filter_push(prefix, x, crate::store::for_wallet(v));
            assert(crate::store::for_wallet(v)(x) == false);
        }
    }
}

/// Checks a hex signature for a message against the public key derived
/// from the wallet's own stored private key, under the wallet's
/// scheme: the executable side of the sign/verify round trip.
pub fn verify_signature(wallet: &Wallet, msg: &str, sig_hex: &str) -> (r: Result<
    bool,
    WalletError,
>)
    ensures
        r is Ok <==> spec_sign_error(wallet.key_type, wallet.private_key@) is None,
        r matches Err(e) ==> Some(e) == spec_sign_error(wallet.key_type, wallet.private_key@),
        r matches Ok(b) ==> b == (valid_hex(sig_hex@) && spec_verify_ok(
            wallet.key_type,
            spec_public_of(wallet.key_type, bytes_of_hex(wallet.private_key@)),
            msg@,
            bytes_of_hex(sig_hex@),
        )),
{
    let sk = match hex_decode(wallet.private_key.as_str()) {
        Some(b) => b,
        None => {
            return Err(WalletError::InvalidKeyEncoding);
        },
    };
    if sk.len() != 32 {
        return Err(WalletError::InvalidKeyEncoding);
    }
    let material_ok = match wallet.key_type {
        KeyType::Ecdsa => secp_secret_is_valid(sk.as_slice()),
        KeyType::Eddsa => true,
    };
    if !material_ok {
        return Err(WalletError::InvalidKeyMaterial);
    }
    let sig = match hex_decode(sig_hex) {
        Some(b) => b,
        None => {
            return Ok(false);
        },
    };
    match wallet.key_type {
        KeyType::Ecdsa => {
            let pk = secp_public_key(sk.as_slice());
            let digest = sha256_digest(msg);
            Ok(secp_verify_sig(pk.as_slice(), digest.as_slice(), sig.as_slice()))
        },
        KeyType::Eddsa => {
            let pk = ed25519_public_key(sk.as_slice());
            Ok(ed25519_verify_sig(pk.as_slice(), msg, sig.as_slice()))
        },
    }
}

} // verus!
