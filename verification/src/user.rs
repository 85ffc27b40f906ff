//! The credential record: the identity entity persisted in the record
//! store and fetched by field lookup.

use vstd::prelude::*;
use vstd::string::StringExecFns;

use crate::errors::{AuthError, CreateUserError, StoreError};
use crate::password::{
    fresh_hash_for, obsolete_check, password_matches, Password, PasswordHash,
    PasswordVerificationResult,
};
use crate::session::{derive_session_hash, hmac_sha512, SecretKey, SessionAuthHash};
use crate::store::{
    has_id, has_username, user_with_id, user_with_username, username_index, UserStore,
};

verus! {

/// The maximum username length, in characters. The same bound applies
/// identically when validating for storage, for lookup, and for
/// authentication.
pub const MAX_USERNAME_LENGTH: u32 = 255;

/// Whether a username fits the bound that all three validation paths
/// share.
pub open spec fn username_ok(username: Seq<char>) -> bool {
    username.len() <= MAX_USERNAME_LENGTH
}

/// An integer identity in its explicit two-variant form: unassigned
/// before the store accepts the record, fixed afterwards and immutable
/// from then on.
#[derive(Clone, Copy, PartialEq, Eq, Structural, Debug)]
pub enum Auto {
    /// Not yet assigned by the store.
    Unassigned,
    /// Assigned by the store on insertion.
    Fixed(i64),
}

impl Auto {
    /// The unassigned state, for a record not yet inserted.
    pub fn unassigned() -> (r: Self)
        ensures
            r == Auto::Unassigned,
    {
        Auto::Unassigned
    }

    /// A known, store-assigned identity.
    pub fn fixed(id: i64) -> (r: Self)
        ensures
            r == Auto::Fixed(id),
    {
        Auto::Fixed(id)
    }
}

/// A text value whose length is bounded by `N` characters. The bound
/// is part of the type: every value of it satisfies the length limit.
pub struct LimitedString<const N: u32> {
    value: String,
}

impl<const N: u32> View for LimitedString<N> {
    type V = Seq<char>;

    closed spec fn view(&self) -> Seq<char> {
        self.value@
    }
}

impl<const N: u32> LimitedString<N> {
    #[verifier::type_invariant]
    spec fn length_bounded(self) -> bool {
        self@.len() <= N
    }

    /// Wrap a string, rejecting one longer than `N` characters; the
    /// error carries the actual length.
    pub fn new(value: &str) -> (r: Result<Self, usize>)
        ensures
            match r {
                Ok(s) => s@ == value@ && value@.len() <= N,
                Err(n) => value@.len() > N && n == value@.len(),
            },
    {
        let len = value.unicode_len();
        if len <= N as usize {
            Ok(LimitedString { value: String::from_str(value) })
        } else {
            Err(len)
        }
    }

    /// The text itself.
    pub fn as_str(&self) -> (r: &str)
        ensures
            r@ == self@,
            self@.len() <= N,
    {
        proof {
            use_type_invariant(self);
        }
        self.value.as_str()
    }

    /// Whether the text equals `other`, byte-exactly: no normalization
    /// and no case folding.
    pub fn equals(&self, other: &LimitedString<N>) -> (r: bool)
        ensures
            r == (self@ == other@),
    {
        self.value == other.value
    }
}

impl<const N: u32> Clone for LimitedString<N> {
    fn clone(&self) -> (r: Self)
        ensures
            r@ == self@,
    {
        proof {
            use_type_invariant(self);
        }
        LimitedString { value: self.value.clone() }
    }
}

/// The mathematical content of one credential record.
pub struct UserView {
    /// The identity, possibly still unassigned.
    pub id: Auto,
    /// The username, unique among all records.
    pub username: Seq<char>,
    /// The encoded password hash; never the raw password.
    pub password_hash: Seq<char>,
}

/// A user as persisted in the record store.
pub struct DatabaseUser {
    id: Auto,
    username: LimitedString<MAX_USERNAME_LENGTH>,
    password: PasswordHash,
}

impl View for DatabaseUser {
    type V = UserView;

    closed spec fn view(&self) -> UserView {
        UserView { id: self.id, username: self.username@, password_hash: self.password@ }
    }
}

impl DatabaseUser {
    /// Build a record, hashing the presented password immediately: the
    /// plain text never escapes this constructor.
    pub fn new(id: Auto, username: LimitedString<MAX_USERNAME_LENGTH>, password: &Password) -> (r:
        Self)
        ensures
            r@.id == id,
            r@.username == username@,
            fresh_hash_for(r@.password_hash, password@),
            username_ok(r@.username),
    {
        proof {
            use_type_invariant(&username);
        }
        DatabaseUser { id, username, password: PasswordHash::from_password(password) }
    }

    /// The id of the user. Reading an id that the store has not
    /// assigned yet is a programming error, excluded up front.
    pub fn id(&self) -> (r: i64)
        requires
            self@.id is Fixed,
        ensures
            self@.id == Auto::Fixed(r),
    {
        match self.id {
            Auto::Fixed(id) => id,
            Auto::Unassigned => {
                // excluded by the precondition
                assert(false);
                0
            },
        }
    }

    /// The username of the user.
    pub fn username(&self) -> (r: &str)
        ensures
            r@ == self@.username,
    {
        self.username.as_str()
    }

    /// Whether the account is active; every stored user is.
    pub fn is_active(&self) -> (r: bool)
        ensures
            r,
    {
        true
    }

    /// Whether the user is authenticated once resolved; always true
    /// for a concrete record.
    pub fn is_authenticated(&self) -> (r: bool)
        ensures
            r,
    {
        true
    }

    /// Derive the session-binding authentication hash for this user:
    /// the secret-keyed fingerprint of the stored password hash, with
    /// a 512-bit output. Succeeds for a key of any length.
    pub fn session_auth_hash(&self, secret_key: &SecretKey) -> (r: Option<SessionAuthHash>)
        ensures
            r matches Some(h) && h@ == hmac_sha512(secret_key@, self@.password_hash) && h@.len()
                == 64,
    {
        Some(derive_session_hash(secret_key, &self.password))
    }

    /// The stored password hash, as persisted.
    pub fn password_hash(&self) -> (r: &PasswordHash)
        ensures
            r@ == self@.password_hash,
    {
        &self.password
    }

    /// Whether this record's username equals `other`, byte-exactly.
    pub fn username_equals(&self, other: &LimitedString<MAX_USERNAME_LENGTH>) -> (r: bool)
        ensures
            r == (self@.username == other@),
    {
        self.username.equals(other)
    }

    /// The username in its length-bounded form, as the store keys it.
    pub fn username_limited(&self) -> (r: &LimitedString<MAX_USERNAME_LENGTH>)
        ensures
            r@ == self@.username,
    {
        &self.username
    }

    /// Whether the store has assigned this record its identity; only
    /// then may `id` be read.
    pub fn has_assigned_id(&self) -> (r: bool)
        ensures
            r == (self@.id is Fixed),
    {
        match self.id {
            Auto::Fixed(_) => true,
            Auto::Unassigned => false,
        }
    }

    /// Whether this record carries the assigned id `id`.
    pub fn id_equals(&self, id: i64) -> (r: bool)
        ensures
            r == (self@.id == Auto::Fixed(id)),
    {
        match self.id {
            Auto::Fixed(own) => own == id,
            Auto::Unassigned => false,
        }
    }

    /// The same record under another identity; the store uses this
    /// when it assigns one on insertion.
    pub fn with_id(self, id: Auto) -> (r: Self)
        ensures
            r@.id == id,
            r@.username == self@.username,
            r@.password_hash == self@.password_hash,
    {
        DatabaseUser { id, username: self.username, password: self.password }
    }

    /// The same record with its stored hash replaced; the only
    /// mutation a record ever undergoes, on password change or on
    /// verify-time upgrade.
    pub fn with_password_hash(&self, password_hash: PasswordHash) -> (r: Self)
        ensures
            r@.id == self@.id,
            r@.username == self@.username,
            r@.password_hash == password_hash@,
    {
        DatabaseUser {
            id: self.id,
            username: self.username.clone(),
            password: password_hash,
        }
    }
}

impl Clone for DatabaseUser {
    fn clone(&self) -> (r: Self)
        ensures
            r@ == self@,
    {
        DatabaseUser {
            id: self.id,
            username: self.username.clone(),
            password: self.password.clone(),
        }
    }
}

/// Transient credentials: a username and a password, held only for a
/// single authentication call and never persisted.
pub struct DatabaseUserCredentials {
    username: String,
    password: Password,
}

/// The mathematical content of transient credentials.
pub struct CredentialsView {
    /// The username to look up, matched byte-exactly.
    pub username: Seq<char>,
    /// The presented plain-text password.
    pub password: Seq<char>,
}

impl View for DatabaseUserCredentials {
    type V = CredentialsView;

    closed spec fn view(&self) -> CredentialsView {
        CredentialsView { username: self.username@, password: self.password@ }
    }
}

impl DatabaseUserCredentials {
    /// Bundle a username and a password for one authentication call.
    pub fn new(username: String, password: Password) -> (r: Self)
        ensures
            r@.username == username@,
            r@.password == password@,
    {
        DatabaseUserCredentials { username, password }
    }

    /// The username of the user.
    pub fn username(&self) -> (r: &str)
        ensures
            r@ == self@.username,
    {
        self.username.as_str()
    }

    /// The password of the user.
    pub fn password(&self) -> (r: &Password)
        ensures
            r@ == self@.password,
    {
        &self.password
    }
}

/// What `DatabaseUser::create_user` promises: the username bound is
/// enforced first; a duplicate username is a storage error; otherwise
/// a record with a freshly hashed password and a fresh id is appended.
pub open spec fn create_user_post(
    s0: Seq<UserView>,
    s1: Seq<UserView>,
    username: Seq<char>,
    password: Seq<char>,
    r: Result<DatabaseUser, AuthError>,
) -> bool {
    &&& (!username_ok(username) ==> r == Err::<DatabaseUser, AuthError>(
        AuthError::UsernameTooLong(username.len() as usize),
    ))
    &&& (username_ok(username) && has_username(s0, username) ==> r == Err::<
        DatabaseUser,
        AuthError,
    >(AuthError::StorageError(StoreError::DuplicateUsername)))
    &&& (username_ok(username) && !has_username(s0, username) && s0.len() < i64::MAX - 1 ==> r
        is Ok)
    &&& (username_ok(username) && !has_username(s0, username) && r is Err ==> r == Err::<
        DatabaseUser,
        AuthError,
    >(AuthError::StorageError(StoreError::IdSpaceExhausted)))
    &&& (r matches Ok(u) ==> {
        &&& username_ok(username)
        &&& !has_username(s0, username)
        &&& u@.username == username
        &&& u@.id is Fixed
        &&& fresh_hash_for(u@.password_hash, password)
        &&& (forall|i: int| 0 <= i < s0.len() ==> (#[trigger] s0[i]).id != u@.id)
        &&& s1 == s0.push(u@)
    })
    &&& (r is Err ==> s1 == s0)
}

/// What `DatabaseUser::get_by_id` promises: the lookup itself cannot
/// fail, and the one record with the given id is returned, if any.
pub open spec fn get_by_id_post(
    s: Seq<UserView>,
    id: i64,
    r: Result<Option<DatabaseUser>, AuthError>,
) -> bool {
    match r {
        Ok(found) => match found {
            Some(u) => has_id(s, id) && u@ == user_with_id(s, id),
            None => !has_id(s, id),
        },
        Err(_) => false,
    }
}

/// What `DatabaseUser::get_by_username` promises: the same username
/// bound as everywhere, then the one record with that exact username.
pub open spec fn get_by_username_post(
    s: Seq<UserView>,
    username: Seq<char>,
    r: Result<Option<DatabaseUser>, AuthError>,
) -> bool {
    &&& (!username_ok(username) ==> r == Err::<Option<DatabaseUser>, AuthError>(
        AuthError::UsernameTooLong(username.len() as usize),
    ))
    &&& (username_ok(username) ==> match r {
        Ok(found) => match found {
            Some(u) => has_username(s, username) && u@ == user_with_username(s, username),
            None => !has_username(s, username),
        },
        Err(_) => false,
    })
}

/// What `DatabaseUser::authenticate` promises. With a valid username
/// the call always succeeds; the identity comes back exactly when the
/// record exists and the password matches its stored hash; and the
/// store changes only on a verify-time upgrade, where the one found
/// record gets a fresh hash of the same (correct) password.
pub open spec fn authenticate_post(
    s0: Seq<UserView>,
    s1: Seq<UserView>,
    username: Seq<char>,
    password: Seq<char>,
    r: Result<Option<DatabaseUser>, AuthError>,
) -> bool {
    &&& (!username_ok(username) ==> r == Err::<Option<DatabaseUser>, AuthError>(
        AuthError::UsernameTooLong(username.len() as usize),
    ) && s1 == s0)
    &&& (username_ok(username) ==> r is Ok)
    &&& (username_ok(username) && !has_username(s0, username) ==> r == Ok::<
        Option<DatabaseUser>,
        AuthError,
    >(None) && s1 == s0)
    &&& (username_ok(username) && has_username(s0, username) ==> {
        let u0 = user_with_username(s0, username);
        &&& (!password_matches(u0.password_hash, password) ==> r == Ok::<
            Option<DatabaseUser>,
            AuthError,
        >(None) && s1 == s0)
        &&& (fresh_hash_for(u0.password_hash, password) ==> (r matches Ok(found)
            && found matches Some(u) && u@ == u0 && s1 == s0))
        &&& (password_matches(u0.password_hash, password) && obsolete_check(u0.password_hash)
            == Some(true) ==> (r matches Ok(found) && found matches Some(u) && {
            &&& u@.id == u0.id
            &&& u@.username == u0.username
            &&& fresh_hash_for(u@.password_hash, password)
            &&& s1 == s0.update(username_index(s0, username), u@)
        }))
    })
}

impl DatabaseUser {
    /// Create a new user and save it to the record store: validate the
    /// username bound, hash the password, and let the store assign the
    /// identity. A store failure surfaces as a storage error.
    pub fn create_user(store: &mut UserStore, username: &str, password: &Password) -> (r: Result<
        DatabaseUser,
        AuthError,
    >)
        requires
            old(store).wf(),
        ensures
            final(store).wf(),
            create_user_post(old(store)@, final(store)@, username@, password@, r),
    {
        let limited = match LimitedString::<MAX_USERNAME_LENGTH>::new(username) {
            Ok(l) => l,
            Err(n) => {
                return Err(AuthError::backend_error(CreateUserError::UsernameTooLong(n)));
            },
        };
        let user = DatabaseUser::new(Auto::unassigned(), limited, password);
        match store.insert(user) {
            Ok(inserted) => Ok(inserted),
            Err(e) => Err(AuthError::StorageError(e)),
        }
    }

    /// Get a user by their integer id, or `None` if there is none.
    pub fn get_by_id(store: &UserStore, id: i64) -> (r: Result<Option<DatabaseUser>, AuthError>)
        requires
            store.wf(),
        ensures
            get_by_id_post(store@, id, r),
    {
        Ok(store.get_one_by_id(id))
    }

    /// Get a user by their exact username, or `None` if there is none.
    /// The username bound is enforced exactly as in `create_user` and
    /// `authenticate`.
    pub fn get_by_username(store: &UserStore, username: &str) -> (r: Result<
        Option<DatabaseUser>,
        AuthError,
    >)
        requires
            store.wf(),
        ensures
            get_by_username_post(store@, username@, r),
    {
        let limited = match LimitedString::<MAX_USERNAME_LENGTH>::new(username) {
            Ok(l) => l,
            Err(n) => {
                return Err(AuthError::backend_error(CreateUserError::UsernameTooLong(n)));
            },
        };
        Ok(store.get_one_by_username(&limited))
    }

    /// Authenticate a user: validate the username bound, look up the
    /// record, and verify the password against its stored hash. A
    /// wrong password or an unknown username is "no match", never an
    /// error; an outdated-but-correct hash is upgraded in the store
    /// before the identity is returned.
    pub fn authenticate(store: &mut UserStore, credentials: &DatabaseUserCredentials) -> (r:
        Result<Option<DatabaseUser>, AuthError>)
        requires
            old(store).wf(),
        ensures
            final(store).wf(),
            authenticate_post(
                old(store)@,
                final(store)@,
                credentials@.username,
                credentials@.password,
                r,
            ),
    {
        let limited = match LimitedString::<MAX_USERNAME_LENGTH>::new(credentials.username()) {
            Ok(l) => l,
            Err(n) => {
                return Err(AuthError::backend_error(CreateUserError::UsernameTooLong(n)));
            },
        };
        if let Some(user) = store.get_one_by_username(&limited) {
            match user.password_hash().verify(credentials.password()) {
                PasswordVerificationResult::Valid => Ok(Some(user)),
                PasswordVerificationResult::ValidButOutdated(new_hash) => {
                    proof {
                        store.lemma_username_id_coherent(limited@);
                    }
                    let upgraded = user.with_password_hash(new_hash);
                    match store.update(&upgraded) {
                        Ok(_) => Ok(Some(upgraded)),
                        // the record was just found, so the store
                        // provably accepts the upgrade; the arm keeps
                        // the failure surfaced rather than swallowed
                        Err(e) => Err(AuthError::StorageError(e)),
                    }
                },
                PasswordVerificationResult::Invalid => Ok(None),
            }
        } else {
            // Timing defense: no record was found, but an attacker
            // must not learn that from the wall clock, so run the full
            // hash-and-verify cycle anyway and discard the result.
            let dummy_hash = PasswordHash::from_password(credentials.password());
            let dummy_result = dummy_hash.verify(credentials.password());
            if matches!(dummy_result, PasswordVerificationResult::Invalid) {
                // a freshly generated hash always verifies, so this
                // engine inconsistency is statically impossible
                assert(false);
            }
            Ok(None)
        }
    }
}


/// Law: a username exceeding the bound is rejected identically from
/// `create_user`, `get_by_username`, and `authenticate` — each fails
/// with exactly `UsernameTooLong` carrying the actual length, and a
/// username within the bound is never rejected that way by any of
/// the three.
pub proof fn lemma_username_bound_uniform(
    s0: Seq<UserView>,
    s1: Seq<UserView>,
    s2: Seq<UserView>,
    s3: Seq<UserView>,
    username: Seq<char>,
    p1: Seq<char>,
    p2: Seq<char>,
    r1: Result<DatabaseUser, AuthError>,
    r2: Result<Option<DatabaseUser>, AuthError>,
    r3: Result<Option<DatabaseUser>, AuthError>,
)
    requires
        create_user_post(s0, s1, username, p1, r1),
        get_by_username_post(s2, username, r2),
        authenticate_post(s2, s3, username, p2, r3),
    ensures
        r1 == Err::<DatabaseUser, AuthError>(
            AuthError::UsernameTooLong(username.len() as usize),
        ) <==> !username_ok(username),
        r2 == Err::<Option<DatabaseUser>, AuthError>(
            AuthError::UsernameTooLong(username.len() as usize),
        ) <==> !username_ok(username),
        r3 == Err::<Option<DatabaseUser>, AuthError>(
            AuthError::UsernameTooLong(username.len() as usize),
        ) <==> !username_ok(username),
{
}

/// Law: an unknown username and a known username with a wrong
/// password are indistinguishable in the outcome — both complete
/// successfully with no identity and leave the store unchanged. Their
/// wall-clock cost is equalized by the dummy hash-and-verify cycle in
/// the unknown-username path, which a contract cannot state; the test
/// suite measures it.
pub proof fn lemma_no_match_uniform(
    s: Seq<UserView>,
    s1: Seq<UserView>,
    s2: Seq<UserView>,
    unknown_name: Seq<char>,
    known_name: Seq<char>,
    p1: Seq<char>,
    p2: Seq<char>,
    r1: Result<Option<DatabaseUser>, AuthError>,
    r2: Result<Option<DatabaseUser>, AuthError>,
)
    requires
        username_ok(unknown_name),
        username_ok(known_name),
        !has_username(s, unknown_name),
        has_username(s, known_name),
        !password_matches(user_with_username(s, known_name).password_hash, p2),
        authenticate_post(s, s1, unknown_name, p1, r1),
        authenticate_post(s, s2, known_name, p2, r2),
    ensures
        r1 == r2,
        r1 == Ok::<Option<DatabaseUser>, AuthError>(None),
        s1 == s,
        s2 == s,
{
}

/// Law: a verify-time upgrade leaves the record's stored hash fresh
/// for the very password that authenticated — so a subsequent verify
/// against the updated store returns plain `Valid`.
pub proof fn lemma_upgrade_leaves_current_hash(
    s0: Seq<UserView>,
    s1: Seq<UserView>,
    username: Seq<char>,
    password: Seq<char>,
    r: Result<Option<DatabaseUser>, AuthError>,
)
    requires
        forall|i: int, j: int|
            0 <= i < s0.len() && 0 <= j < s0.len() && i != j ==> (#[trigger] s0[i]).username != (
            #[trigger] s0[j]).username,
        username_ok(username),
        has_username(s0, username),
        password_matches(user_with_username(s0, username).password_hash, password),
        obsolete_check(user_with_username(s0, username).password_hash) == Some(true),
        authenticate_post(s0, s1, username, password, r),
    ensures
        has_username(s1, username),
        fresh_hash_for(user_with_username(s1, username).password_hash, password),
{
    let idx = username_index(s0, username);
    assert(0 <= idx < s0.len() && s0[idx].username == username);
    let u = (match r {
        Ok(found) => match found { Some(u) => u, None => arbitrary() },
        Err(_) => arbitrary(),
    });
    assert(s1 == s0.update(idx, u@));
    assert(s1[idx].username == username);
    assert(has_username(s1, username));
    let k = username_index(s1, username);
    assert(0 <= k < s1.len() && s1[k].username == username);
    if k != idx {
        assert(s1[k] == s0[k]);
        assert(s0[k].username == s0[idx].username);
        assert(false);
    }
    assert(user_with_username(s1, username) == u@);
}

} // verus!
