//! The session hash deriver: a secret-keyed fingerprint of the stored
//! password hash, compared per request to detect "password changed
//! since login" and force re-authentication.

use vstd::prelude::*;
use vstd::slice::slice_to_vec;

use crate::password::PasswordHash;

verus! {

/// The HMAC-SHA-512 of `message` under `key`. This names the outcome
/// of the outside MAC computation, a deterministic function of the key
/// bytes and the message text alone.
pub uninterp spec fn hmac_sha512(key: Seq<u8>, message: Seq<char>) -> Seq<u8>;

/// Relies on `hmac::Hmac<sha2::Sha512>` (`KeyInit::new_from_slice`,
/// `Mac::update`, `Mac::finalize`): one HMAC-SHA-512 computation over
/// the message bytes under the key. HMAC accepts a key of any length
/// (re-hashing long keys internally), so `new_from_slice` cannot fail,
/// and the SHA-512 output is 64 bytes wide.
#[verifier::external_body]
fn hmac_sha512_compute(key: &[u8], message: &str) -> (r: Vec<u8>)
    ensures
        r@ == hmac_sha512(key@, message@),
        r@.len() == 64,
{
    let mut mac = <hmac::Hmac<sha2::Sha512> as hmac::KeyInit>::new_from_slice(key).expect(
        "HMAC accepts keys of any length",
    );
    hmac::Mac::update(&mut mac, message.as_bytes());
    hmac::Mac::finalize(mac).into_bytes().to_vec()
}

/// The secret key that binds session hashes to this deployment.
/// Any length is accepted.
pub struct SecretKey {
    bytes: Vec<u8>,
}

impl View for SecretKey {
    type V = Seq<u8>;

    closed spec fn view(&self) -> Seq<u8> {
        self.bytes@
    }
}

impl SecretKey {
    /// Wrap the raw key bytes.
    pub fn new(key: &[u8]) -> (r: Self)
        ensures
            r@ == key@,
    {
        SecretKey { bytes: slice_to_vec(key) }
    }

    /// The raw key bytes.
    pub fn as_bytes(&self) -> (r: &[u8])
        ensures
            r@ == self@,
    {
        self.bytes.as_slice()
    }
}

/// A session-binding authentication hash: the keyed fingerprint of a
/// user's stored password hash at session start.
pub struct SessionAuthHash {
    bytes: Vec<u8>,
}

impl View for SessionAuthHash {
    type V = Seq<u8>;

    closed spec fn view(&self) -> Seq<u8> {
        self.bytes@
    }
}

impl SessionAuthHash {
    /// Wrap raw hash bytes, as captured at session start.
    pub fn new(bytes: &[u8]) -> (r: Self)
        ensures
            r@ == bytes@,
    {
        SessionAuthHash { bytes: slice_to_vec(bytes) }
    }

    /// The raw hash bytes, for comparison against a freshly derived
    /// value.
    pub fn as_bytes(&self) -> (r: &[u8])
        ensures
            r@ == self@,
    {
        self.bytes.as_slice()
    }
}

impl Clone for SessionAuthHash {
    fn clone(&self) -> (r: Self)
        ensures
            r@ == self@,
    {
        SessionAuthHash { bytes: self.bytes.clone() }
    }
}

/// Derive the session-binding authentication hash: the keyed MAC of
/// the stored password-hash string under `secret_key`, with a
/// 512-bit-class output. Never fails, for a key of any length.
pub fn derive_session_hash(secret_key: &SecretKey, password_hash: &PasswordHash) -> (r:
    SessionAuthHash)
    ensures
        r@ == hmac_sha512(secret_key@, password_hash@),
        r@.len() == 64,
{
    let bytes = hmac_sha512_compute(secret_key.as_bytes(), password_hash.as_str());
    SessionAuthHash { bytes }
}

/// Law: derivation is deterministic. Two session hashes derived from
/// the same key and the same stored password hash are identical.
pub proof fn lemma_session_hash_deterministic(
    key: Seq<u8>,
    hash: Seq<char>,
    r1: Seq<u8>,
    r2: Seq<u8>,
)
    requires
        r1 == hmac_sha512(key, hash),
        r2 == hmac_sha512(key, hash),
    ensures
        r1 == r2,
{
}

} // verus!
