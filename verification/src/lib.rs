//! Database-backed user authentication core.
//!
//! The crate covers password hashing and verification with
//! upgrade-on-verify semantics, a credential record store keyed by
//! username and integer id, an authentication use case with a
//! timing-defense path for unknown usernames, derivation of a
//! session-binding authentication hash, and a dispatcher that accepts a
//! closed family of credential shapes.

pub mod backend;
pub mod errors;
pub mod password;
pub mod session;
pub mod store;
pub mod user;

pub use backend::{Credentials, DatabaseUserApp, DatabaseUserBackend, UserId};
pub use errors::{AuthError, CreateUserError, StoreError};
pub use password::{Password, PasswordHash, PasswordVerificationResult};
pub use session::{SecretKey, SessionAuthHash};
pub use store::UserStore;
pub use user::{Auto, DatabaseUser, DatabaseUserCredentials, LimitedString};
