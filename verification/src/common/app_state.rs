use vstd::prelude::*;
use crate::common::env_config::EnvConfig;

verus! {

/// The signing and encryption key material that `cookie::Key::derive_from`
/// expands a master key into.
pub uninterp spec fn cookie_key_derivation(master: Seq<u8>) -> Seq<u8>;

/// Calls `cookie::Key::derive_from` and hands back the 64 bytes of the derived
/// key (`Key::master`). The derivation (HKDF-SHA256) is deterministic, so the
/// bytes are named as a function of the master key; the crate's source shows
/// the key is 64 bytes long. `derive_from` panics below 32 bytes of master
/// key, which `requires` leaves out.
#[verifier::external_body]
fn derive_cookie_key(master: &[u8]) -> (key: Vec<u8>)
    requires
        master@.len() >= 32,
    ensures
        key@ == cookie_key_derivation(master@),
        key@.len() == 64,
{
    cookie::Key::derive_from(master).master().to_vec()
}

/// State shared by the request handlers: the key that signs session cookies.
#[derive(Clone, Debug, PartialEq, Eq)]
pub struct AppState {
    cookie_key: Vec<u8>,
}

impl AppState {
    /// The bytes of the cookie key.
    pub closed spec fn key_bytes(&self) -> Seq<u8> {
        self.cookie_key@
    }

    /// Derives the cookie key from the configured secret (its UTF-8 bytes),
    /// which must be at least 32 bytes long.
    pub fn new(env_config: &EnvConfig) -> (r: AppState)
        requires
            vstd::utf8::encode_utf8(env_config.cookie_secret@).len() >= 32,
        ensures
            r.key_bytes() == cookie_key_derivation(vstd::utf8::encode_utf8(env_config.cookie_secret@)),
            r.key_bytes().len() == 64,
    {
        let secret: &[u8] = env_config.cookie_secret.as_str().as_bytes();
        AppState { cookie_key: derive_cookie_key(secret) }
    }

    /// The key material, for building the `cookie::Key` that signs the cookie jar.
    pub fn cookie_key(&self) -> (r: &[u8])
        ensures
            r@ == self.key_bytes(),
    {
        self.cookie_key.as_slice()
    }
}

} // verus!
