use vstd::prelude::*;

use crate::key_type::KeyType;

verus! {

/// A stored wallet: identity, scheme, address and private key, the key
/// as lowercase hex text, never raw bytes, so the store stays
/// text-safe. Never mutated after creation.
#[derive(Debug)]
pub struct Wallet {
    /// Identifier the repository assigned; `None` before persistence.
    pub id: Option<i64>,
    /// Public address text; its encoding follows `key_type`.
    pub address: String,
    /// Lowercase hex of the 32 secret bytes, stored verbatim.
    pub private_key: String,
    /// Creation time, set by the repository.
    pub created_at: i64,
    /// The signature scheme fixed at creation, never changed.
    pub key_type: KeyType,
}

impl Clone for Wallet {
    fn clone(&self) -> (r: Self)
        ensures
            r == self,
    {
        Wallet {
            id: self.id,
            address: self.address.clone(),
            private_key: self.private_key.clone(),
            created_at: self.created_at,
            key_type: self.key_type,
        }
    }
}

/// What a creation request hands the wallet repository; the repository
/// adds the identifier and the timestamp.
#[derive(Debug)]
pub struct NewWallet {
    pub address: String,
    pub private_key: String,
    pub key_type: KeyType,
}

/// A stored signature over one message, linked to its wallet by
/// `wallet_id`. Never mutated after creation.
#[derive(Debug)]
pub struct Signature {
    /// Identifier the repository assigned; `None` before persistence.
    pub id: Option<i64>,
    /// The owning wallet's identifier; deleting a wallet does not
    /// cascade here, clearing is explicit.
    pub wallet_id: i64,
    /// The signed plaintext, stored verbatim.
    pub message: String,
    /// Hex-encoded signature bytes; the format follows the wallet's
    /// scheme.
    pub signature: String,
    /// Creation time, set by the repository.
    pub created_at: i64,
}

impl Clone for Signature {
    fn clone(&self) -> (r: Self)
        ensures
            r == self,
    {
        Signature {
            id: self.id,
            wallet_id: self.wallet_id,
            message: self.message.clone(),
            signature: self.signature.clone(),
            created_at: self.created_at,
        }
    }
}

/// What a signing request hands the signature repository.
#[derive(Debug)]
pub struct NewSignature {
    pub wallet_id: i64,
    pub message: String,
    pub signature: String,
}

} // verus!
