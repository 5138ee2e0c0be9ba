use vstd::prelude::*;

verus! {

/// The failures the key-management and signing core can report.
///
/// Every fallible operation of the library returns one of these kinds;
/// nothing is retried or swallowed, the caller decides presentation.
#[derive(Clone, Copy, Debug, PartialEq, Eq, Structural)]
pub enum WalletError {
    /// The stored private key is not well-formed hex of exactly 32 bytes.
    InvalidKeyEncoding,
    /// The key bytes decode but are not a valid secret for the scheme.
    InvalidKeyMaterial,
    /// A scheme discriminant outside the known set was supplied.
    UnknownKeyType,
    /// A wallet identifier matched no stored wallet.
    WalletNotFound,
}

impl WalletError {
    /// A short description of the error kind.
    pub fn message(&self) -> (r: &'static str)
        ensures
            r@ == self.message_spec(),
    {
        match self {
            WalletError::InvalidKeyEncoding => "private key is not 32 bytes of hex",
            WalletError::InvalidKeyMaterial => "key bytes are not a valid secret for the scheme",
            WalletError::UnknownKeyType => "unknown key type",
            WalletError::WalletNotFound => "wallet not found",
        }
    }

    pub open spec fn message_spec(&self) -> Seq<char> {
        match self {
            WalletError::InvalidKeyEncoding => "private key is not 32 bytes of hex"@,
            WalletError::InvalidKeyMaterial => "key bytes are not a valid secret for the scheme"@,
            WalletError::UnknownKeyType => "unknown key type"@,
            WalletError::WalletNotFound => "wallet not found"@,
        }
    }
}

} // verus!
