//! Passphrase caching in the operating system's credential store: the
//! account a key is stored under, and the two stores the server can use.
//! The store itself is reached by the caller.

use vstd::prelude::*;

use crate::state::SecretBytes;

verus! {

/// The service name entries are stored under.
pub const SERVICE_NAME: &'static str = "GnuPG";

/// The keygrip in a SETKEYINFO value: gpg-agent sends `n/<keygrip>`, and the
/// `n/` prefix is dropped; a value without it is taken whole.
pub open spec fn keygrip_spec(keyinfo: Seq<char>) -> Seq<char> {
    if keyinfo.len() >= 2 && keyinfo[0] == 'n' && keyinfo[1] == '/' {
        keyinfo.skip(2)
    } else {
        keyinfo
    }
}

/// Extract the keygrip from the SETKEYINFO value: the account name of the entry.
pub fn extract_keygrip(keyinfo: &str) -> (r: &str)
    ensures
        r@ == keygrip_spec(keyinfo@),
{
    let n = keyinfo.unicode_len();
    if n >= 2 && keyinfo.get_char(0) == 'n' && keyinfo.get_char(1) == '/' {
        keyinfo.substring_char(2, n)
    } else {
        keyinfo
    }
}

/// A value sent with the `n/` prefix gives back exactly what follows it.
pub proof fn lemma_keygrip_prefix(k: Seq<char>)
    ensures
        keygrip_spec(seq!['n', '/'] + k) == k,
{
    assert((seq!['n', '/'] + k).skip(2) =~= k);
}

/// The credential store of the operating system.
#[derive(Debug, Clone, Copy, PartialEq, Eq)]
pub struct KeyringKeychain;

impl KeyringKeychain {
    /// The system credential store.
    pub fn new() -> (k: Self)
        ensures
            k == KeyringKeychain,
    {
        KeyringKeychain
    }
}

/// A store that keeps nothing.
#[derive(Debug, Clone, Copy, PartialEq, Eq)]
pub struct NoopKeychain;

impl NoopKeychain {
    /// A store that keeps nothing.
    pub fn new() -> (k: Self)
        ensures
            k == NoopKeychain,
    {
        NoopKeychain
    }

    /// Nothing is ever found.
    pub fn lookup(&self, keygrip: &str) -> (r: Option<SecretBytes>)
        ensures
            r is None,
    {
        None
    }

    /// Saving succeeds and keeps nothing.
    pub fn save(&self, keygrip: &str, passphrase: &[u8]) -> (r: Result<(), String>)
        ensures
            r is Ok,
    {
        Ok(())
    }

    /// Nothing is ever removed.
    pub fn clear(&self, keygrip: &str) -> (r: Result<bool, String>)
        ensures
            r == Ok::<bool, String>(false),
    {
        Ok(false)
    }
}

} // verus!
