//! The error taxonomy. Authentication failure due to wrong credentials
//! is never one of these: it is a successful call returning no
//! identity, and the two must not be conflated.

use vstd::prelude::*;

verus! {

/// An error raised by the record store itself.
#[derive(Clone, Copy, PartialEq, Eq, Structural, Debug)]
pub enum StoreError {
    /// An insert would duplicate a username, which must be unique
    /// among all records.
    DuplicateUsername,
    /// An update named an id that no record carries.
    RecordNotFound,
    /// The integer id space is exhausted; no further record can be
    /// assigned an identity.
    IdSpaceExhausted,
}

/// An error that occurs when creating a user.
#[derive(Clone, Copy, PartialEq, Eq, Structural, Debug)]
pub enum CreateUserError {
    /// The username is too long; the payload is its actual length.
    UsernameTooLong(usize),
}

/// An error surfaced to callers of the authentication operations.
#[derive(Clone, Copy, PartialEq, Eq, Structural, Debug)]
pub enum AuthError {
    /// The username exceeds the bound; the payload is its actual
    /// length. Distinct from "not found".
    UsernameTooLong(usize),
    /// The store failed; wrapped, never interpreted or swallowed.
    StorageError(StoreError),
    /// The credential shape is not one this backend supports: a
    /// configuration error, not an authentication failure.
    CredentialsTypeNotSupported,
    /// The identity-key variant is not one this backend supports.
    UserIdTypeNotSupported,
}

impl AuthError {
    /// Wrap a user-creation error, keeping its content.
    pub fn backend_error(error: CreateUserError) -> (r: Self)
        ensures
            r == (match error {
                CreateUserError::UsernameTooLong(n) => AuthError::UsernameTooLong(n),
            }),
    {
        match error {
            CreateUserError::UsernameTooLong(n) => AuthError::UsernameTooLong(n),
        }
    }
}

} // verus!
