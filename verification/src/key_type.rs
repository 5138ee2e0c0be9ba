use vstd::prelude::*;

use crate::errors::WalletError;

verus! {

/// The signature scheme family a wallet is bound to.
///
/// The discriminant fixes, for the wallet's whole life, how its private
/// key is decoded, how its address is derived, and how messages are
/// signed; the two arms are never mixed.
#[derive(Clone, Copy, Debug, PartialEq, Eq, Structural)]
pub enum KeyType {
    /// secp256k1-family ECDSA; hex addresses.
    Ecdsa,
    /// Edwards-curve EdDSA; base-58 addresses.
    Eddsa,
}

impl Default for KeyType {
    fn default() -> (r: Self)
        ensures
            r == KeyType::Ecdsa,
    {
        KeyType::Ecdsa
    }
}

/// `a` equals `b` once an ASCII upper-case `a` is folded to lower case
/// (`b` is expected to be lower case already).
pub open spec fn char_eq_folded(a: char, b: char) -> bool {
    a == b || ('A' <= a && a <= 'Z' && a as u32 + 32 == b as u32)
}

/// `s` spells `t` up to ASCII case folding of `s` (`t` lower case).
pub open spec fn eq_ignore_ascii_case(s: Seq<char>, t: Seq<char>) -> bool {
    s.len() == t.len() && forall|i: int| 0 <= i < s.len() ==> char_eq_folded(s[i], #[trigger] t[i])
}

impl KeyType {
    /// The canonical lowercase label under which the scheme is stored
    /// and displayed.
    pub open spec fn label(&self) -> Seq<char> {
        match self {
            KeyType::Ecdsa => "ecdsa"@,
            KeyType::Eddsa => "eddsa"@,
        }
    }

    /// The scheme's canonical lowercase label.
    pub fn as_str(&self) -> (r: &'static str)
        ensures
            r@ == self.label(),
    {
        match self {
            KeyType::Ecdsa => "ecdsa",
            KeyType::Eddsa => "eddsa",
        }
    }

    /// Parses a scheme label, ignoring ASCII case; any other string is
    /// an unknown discriminant.
    pub fn from_str(s: &str) -> (r: Result<KeyType, WalletError>)
        ensures
            r == Ok::<KeyType, WalletError>(KeyType::Ecdsa) <==> eq_ignore_ascii_case(s@, "ecdsa"@),
            r == Ok::<KeyType, WalletError>(KeyType::Eddsa) <==> eq_ignore_ascii_case(s@, "eddsa"@),
            r is Err ==> r == Err::<KeyType, WalletError>(WalletError::UnknownKeyType),
    {
        proof {
            reveal_strlit("ecdsa");
            reveal_strlit("eddsa");
        }
        if str_eq_ignore_ascii_case(s, "ecdsa") {
            proof {
                // The two labels differ at index 1, so no string folds to both.
                if eq_ignore_ascii_case(s@, "eddsa"@) {
                    assert(char_eq_folded(s@[1], "ecdsa"@[1]));
                    assert(char_eq_folded(s@[1], "eddsa"@[1]));
                    assert(false);
                }
            }
            Ok(KeyType::Ecdsa)
        } else if str_eq_ignore_ascii_case(s, "eddsa") {
            Ok(KeyType::Eddsa)
        } else {
            Err(WalletError::UnknownKeyType)
        }
    }
}

/// Compares `s` to a lowercase pattern `t`, folding ASCII upper case in `s`.
fn str_eq_ignore_ascii_case(s: &str, t: &str) -> (r: bool)
    ensures
        r == eq_ignore_ascii_case(s@, t@),
{
    let n = s.unicode_len();
    if n != t.unicode_len() {
        return false;
    }
    let mut i: usize = 0;
    while i < n
        invariant
            0 <= i <= n,
            n == s@.len(),
            n == t@.len(),
            forall|j: int| 0 <= j < i ==> char_eq_folded(s@[j], #[trigger] t@[j]),
        decreases n - i,
    {
        let a = s.get_char(i);
        let b = t.get_char(i);
        let au = a as u32;
        let bu = b as u32;
        let folded = au == bu || (au >= 65 && au <= 90 && au + 32 == bu);
        proof {
            assert(('A' <= a && a <= 'Z') <==> (65 <= au && au <= 90));
        }
        if !folded {
            return false;
        }
        i += 1;
    }
    true
}

} // verus!
