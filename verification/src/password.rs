//! The password hash engine: hash creation, verification, and
//! obsolescence detection for one password against a stored hash.

use vstd::prelude::*;
use vstd::string::StringExecFns;

verus! {

/// The longest password, in characters, that the hash engine is known
/// to accept: a character encodes to at most four bytes, and the
/// hashing algorithm rejects a payload of 2^32 bytes or more, which
/// would turn hashing into a panic rather than a hash.
pub const MAX_PASSWORD_LENGTH: usize = 0x3fff_ffff;

/// Whether a password is short enough that the hash engine accepts
/// it, whatever characters it holds.
pub open spec fn password_hashable(password: Seq<char>) -> bool {
    password.len() <= MAX_PASSWORD_LENGTH
}

/// Whether the engine's verification accepts `password` against the
/// encoded hash `hash`. This names the outcome of the outside
/// verification routine, a deterministic function of the two strings;
/// it is false whenever `hash` is malformed.
pub uninterp spec fn password_matches(hash: Seq<char>, password: Seq<char>) -> bool;

/// What the engine's obsolescence check reports for the encoded hash
/// `hash`: `None` when the hash does not parse, otherwise whether the
/// algorithm or parameters embedded in it differ from the engine's
/// current defaults.
pub uninterp spec fn obsolete_check(hash: Seq<char>) -> Option<bool>;

/// An encoded hash freshly produced from `password`: it matches that
/// password and carries the engine's current default parameters.
pub open spec fn fresh_hash_for(hash: Seq<char>, password: Seq<char>) -> bool {
    &&& password_matches(hash, password)
    &&& obsolete_check(hash) == Some(false)
}

/// Relies on `password_auth::generate_hash`: it hashes the password
/// under the current default algorithm and parameters with a fresh
/// random salt, and encodes everything into one printable string. The
/// crate documents that such a hash verifies against the same password
/// (`verify_password`) and is not reported obsolete
/// (`is_hash_obsolete`); both clauses hold whatever salt was drawn.
/// The underlying algorithm rejects a password of 2^32 bytes or more
/// and the crate then panics, so the bound below — under which the
/// byte length stays within the limit for any characters — keeps that
/// input out.
#[verifier::external_body]
fn generate_hash_for(password: &str) -> (r: String)
    requires
        password_hashable(password@),
    ensures
        password_matches(r@, password@),
        obsolete_check(r@) == Some(false),
{
    password_auth::generate_hash(password)
}

/// Relies on `password_auth::verify_password`: deterministic in the
/// password and the hash, it returns `Ok` exactly when the hash parses
/// and the password matches its digest (compared in constant time).
/// When it returns `Ok` the hash parsed, and
/// `password_auth::is_hash_obsolete` parses the hash the same way, so
/// the obsolescence check on such a hash cannot fail.
#[verifier::external_body]
fn check_password(password: &str, hash: &str) -> (r: bool)
    ensures
        r == password_matches(hash@, password@),
        r ==> obsolete_check(hash@) is Some,
{
    password_auth::verify_password(password, hash).is_ok()
}

/// Relies on `password_auth::is_hash_obsolete`: deterministic in the
/// hash, it fails exactly when the hash does not parse, and otherwise
/// reports whether the hash's embedded algorithm or parameters differ
/// from the engine's current defaults.
#[verifier::external_body]
fn check_obsolete(hash: &str) -> (r: Option<bool>)
    ensures
        r == obsolete_check(hash@),
{
    password_auth::is_hash_obsolete(hash).ok()
}

/// A plain-text password. It is held only as long as a hash or verify
/// call needs it, is never persisted, and deliberately has no `Debug`
/// form, so raw password material cannot end up in logs. Every value
/// is short enough for the hash engine, so hashing never fails.
pub struct Password {
    value: String,
}

impl View for Password {
    type V = Seq<char>;

    closed spec fn view(&self) -> Seq<char> {
        self.value@
    }
}

impl Password {
    #[verifier::type_invariant]
    spec fn length_hashable(self) -> bool {
        password_hashable(self@)
    }

    /// Wrap a plain-text password. The length bound is the hash
    /// engine's own machine limit; `try_new` checks it at run time.
    pub fn new(password: &str) -> (r: Self)
        requires
            password_hashable(password@),
        ensures
            r@ == password@,
    {
        Password { value: String::from_str(password) }
    }

    /// Wrap a plain-text password, checking the hash engine's length
    /// bound: `None` exactly when the password is too long to hash.
    pub fn try_new(password: &str) -> (r: Option<Password>)
        ensures
            r is Some <==> password_hashable(password@),
            r matches Some(p) ==> p@ == password@,
    {
        let len = password.unicode_len();
        if len <= MAX_PASSWORD_LENGTH {
            Some(Password::new(password))
        } else {
            None
        }
    }

    /// The raw password text, for the single verification operation.
    pub fn as_str(&self) -> (r: &str)
        ensures
            r@ == self@,
    {
        self.value.as_str()
    }
}

impl Clone for Password {
    fn clone(&self) -> (r: Self)
        ensures
            r@ == self@,
    {
        proof {
            use_type_invariant(self);
        }
        Password { value: self.value.clone() }
    }
}

/// The outcome of verifying one password against one stored hash.
pub enum PasswordVerificationResult {
    /// The password matches and the hash carries the engine's current
    /// default parameters.
    Valid,
    /// The password matches, but the stored hash was produced under
    /// other parameters; the payload is a fresh hash of the same
    /// password under the current defaults, ready to be persisted.
    ValidButOutdated(PasswordHash),
    /// The password does not match, or the stored hash is malformed;
    /// the two are deliberately not distinguished.
    Invalid,
}

/// What `PasswordHash::verify` promises of its result.
pub open spec fn verify_post(
    hash: Seq<char>,
    password: Seq<char>,
    r: PasswordVerificationResult,
) -> bool {
    &&& (r is Valid <==> fresh_hash_for(hash, password))
    &&& (r is ValidButOutdated <==> password_matches(hash, password) && obsolete_check(hash)
        == Some(true))
    &&& (r is Invalid <==> !password_matches(hash, password))
    &&& (match r {
        PasswordVerificationResult::ValidButOutdated(new_hash) => fresh_hash_for(
            new_hash@,
            password,
        ),
        _ => true,
    })
}

/// An opaque encoded password hash: algorithm identifier, parameters,
/// salt and digest in one printable string. Never the raw password.
pub struct PasswordHash {
    value: String,
}

impl View for PasswordHash {
    type V = Seq<char>;

    closed spec fn view(&self) -> Seq<char> {
        self.value@
    }
}

impl PasswordHash {
    /// Hash a password under the engine's current default parameters.
    /// This never fails: every `Password` value fits the engine's
    /// length bound, and any characters are accepted.
    pub fn from_password(password: &Password) -> (r: Self)
        ensures
            fresh_hash_for(r@, password@),
    {
        proof {
            use_type_invariant(password);
        }
        PasswordHash { value: generate_hash_for(password.as_str()) }
    }

    /// Wrap an encoded hash loaded from storage. The string is kept as
    /// it is; a malformed one verifies as `Invalid`, never panics.
    pub fn new(hash: &str) -> (r: Self)
        ensures
            r@ == hash@,
    {
        PasswordHash { value: String::from_str(hash) }
    }

    /// The encoded form, as stored.
    pub fn as_str(&self) -> (r: &str)
        ensures
            r@ == self@,
    {
        self.value.as_str()
    }

    /// Verify a password against this stored hash: recompute and
    /// compare. `ValidButOutdated` triggers whenever the embedded
    /// parameters differ from the engine's current defaults, even
    /// though the digest is correct; `Invalid` covers wrong passwords
    /// and malformed hashes alike. The call itself is side-effect-free.
    pub fn verify(&self, password: &Password) -> (r: PasswordVerificationResult)
        ensures
            verify_post(self@, password@, r),
    {
        if check_password(password.as_str(), self.value.as_str()) {
            match check_obsolete(self.value.as_str()) {
                Some(true) => PasswordVerificationResult::ValidButOutdated(
                    Self::from_password(password),
                ),
                Some(false) => PasswordVerificationResult::Valid,
                None => {
                    // check_password promised the hash parses, so the
                    // obsolescence check cannot have failed.
                    assert(false);
                    PasswordVerificationResult::Invalid
                },
            }
        } else {
            PasswordVerificationResult::Invalid
        }
    }
}

impl Clone for PasswordHash {
    fn clone(&self) -> (r: Self)
        ensures
            r@ == self@,
    {
        PasswordHash { value: self.value.clone() }
    }
}

/// Law: a hash freshly produced from a password verifies as `Valid`
/// against that same password.
pub proof fn lemma_fresh_hash_verifies(
    hash: Seq<char>,
    password: Seq<char>,
    r: PasswordVerificationResult,
)
    requires
        fresh_hash_for(hash, password),
        verify_post(hash, password, r),
    ensures
        r is Valid,
{
}

/// Law: re-verification is idempotent. Verification takes the stored
/// hash and the password by shared reference, so it mutates nothing,
/// and any two outcomes for the same hash and password fall in the
/// same class.
pub proof fn lemma_reverify_same_class(
    hash: Seq<char>,
    password: Seq<char>,
    r1: PasswordVerificationResult,
    r2: PasswordVerificationResult,
)
    requires
        verify_post(hash, password, r1),
        verify_post(hash, password, r2),
    ensures
        r1 is Valid <==> r2 is Valid,
        r1 is ValidButOutdated <==> r2 is ValidButOutdated,
        r1 is Invalid <==> r2 is Invalid,
{
}

} // verus!
