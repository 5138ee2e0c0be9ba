use vstd::prelude::*;

use crate::key_type::KeyType;

verus! {

/// A parsed invocation: exactly one command per run.
#[derive(Debug)]
pub struct Cli {
    pub command: Commands,
}

/// The operations a caller can request, one per invocation. The
/// process layer parses arguments into this and dispatches; the
/// library defines what each operation does.
#[derive(Debug)]
pub enum Commands {
    /// Create a new wallet of the scheme.
    NewWallet { key_type: KeyType },
    /// List stored wallets.
    ListWallets,
    /// Sign a message with a stored wallet.
    Sign { wallet_id: i64, message: String },
    /// List the signatures of one wallet.
    ListSignatures { wallet_id: i64 },
    /// Delete every wallet.
    ClearWallets,
    /// Delete every signature.
    ClearSignatures,
    /// Delete one wallet's signatures.
    ClearSignaturesForWallet { wallet_id: i64 },
}

} // verus!
