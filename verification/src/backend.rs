//! The backend dispatcher: a polymorphic entry point over a closed
//! family of credential shapes, routing the supported one to the
//! authentication use case and rejecting the rest explicitly.

use vstd::prelude::*;

use crate::errors::AuthError;
use crate::store::UserStore;
use crate::user::{
    authenticate_post, get_by_id_post, DatabaseUser, DatabaseUserCredentials,
};

verus! {

/// An identity key presented to a backend. This backend supports
/// integer keys only.
pub enum UserId {
    /// An integer key, as the record store assigns.
    Int(i64),
    /// A textual key, used by backends outside this one.
    Str(String),
}

/// One of the credential shapes a caller may present. The family is a
/// closed sum, matched exhaustively, with an explicit variant for
/// shapes outside this backend's ken — extension happens by adding a
/// variant, never by runtime type inspection.
pub enum Credentials {
    /// A username/password pair for a user stored in the record store.
    Database(DatabaseUserCredentials),
    /// A credential shape this backend does not recognize.
    Unsupported,
}

/// The authentication backend for users stored in the record store.
/// It authenticates `Credentials::Database` and rejects every other
/// shape with a configuration error distinguishable from "no match".
#[derive(Clone, Copy, Debug)]
pub struct DatabaseUserBackend;

impl Default for DatabaseUserBackend {
    fn default() -> (r: Self)
        ensures
            r == DatabaseUserBackend,
    {
        Self::new()
    }
}

impl DatabaseUserBackend {
    /// Create a new instance of the backend.
    pub fn new() -> (r: Self)
        ensures
            r == DatabaseUserBackend,
    {
        DatabaseUserBackend
    }

    /// Authenticate whatever credentials were presented: identify the
    /// shape, route the supported one to the authentication use case,
    /// and fail an unrecognized shape with
    /// `CredentialsTypeNotSupported` — never a silent "no match".
    pub fn authenticate(&self, store: &mut UserStore, credentials: &Credentials) -> (r: Result<
        Option<DatabaseUser>,
        AuthError,
    >)
        requires
            old(store).wf(),
        ensures
            final(store).wf(),
            credentials is Unsupported ==> r == Err::<Option<DatabaseUser>, AuthError>(
                AuthError::CredentialsTypeNotSupported,
            ) && final(store)@ == old(store)@,
            credentials matches Credentials::Database(c) ==> authenticate_post(
                old(store)@,
                final(store)@,
                c@.username,
                c@.password,
                r,
            ),
            r == Err::<Option<DatabaseUser>, AuthError>(AuthError::CredentialsTypeNotSupported)
                <==> credentials is Unsupported,
    {
        match credentials {
            Credentials::Database(c) => DatabaseUser::authenticate(store, c),
            Credentials::Unsupported => Err(AuthError::CredentialsTypeNotSupported),
        }
    }

    /// Fetch an identity by key, failing with `UserIdTypeNotSupported`
    /// when the key variant is not the integer kind this backend uses.
    pub fn get_by_id(&self, store: &UserStore, id: &UserId) -> (r: Result<
        Option<DatabaseUser>,
        AuthError,
    >)
        requires
            store.wf(),
        ensures
            id matches UserId::Int(n) ==> get_by_id_post(store@, *n, r),
            id is Str <==> r == Err::<Option<DatabaseUser>, AuthError>(
                AuthError::UserIdTypeNotSupported,
            ),
    {
        match id {
            UserId::Int(n) => DatabaseUser::get_by_id(store, *n),
            UserId::Str(_) => Err(AuthError::UserIdTypeNotSupported),
        }
    }
}

/// The app that bundles this authentication backend for registration
/// with a project.
#[derive(Clone, Copy, Debug)]
pub struct DatabaseUserApp;

impl Default for DatabaseUserApp {
    fn default() -> (r: Self)
        ensures
            r == DatabaseUserApp,
    {
        Self::new()
    }
}

impl DatabaseUserApp {
    /// Create a new instance of the app.
    pub fn new() -> (r: Self)
        ensures
            r == DatabaseUserApp,
    {
        DatabaseUserApp
    }
}

} // verus!
