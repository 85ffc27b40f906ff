use argon2::{Algorithm, Argon2, Params, PasswordHasher, Version};

use cot_auth::Auto;
use cot_auth::DatabaseUser;
use cot_auth::DatabaseUserCredentials;
use cot_auth::LimitedString;
use cot_auth::Password;
use cot_auth::PasswordHash;
use cot_auth::PasswordVerificationResult;
use cot_auth::UserStore;

/// An encoded hash of `password` produced under cost parameters other
/// than the engine's current defaults, standing in for a hash written
/// by an earlier deployment.
fn old_parameters_hash(password: &str) -> String {
    let params = Params::new(32 * 1024, 3, 1, None).unwrap();
    let hasher = Argon2::new(Algorithm::Argon2id, Version::V0x13, params);
    hasher
        .hash_password(password.as_bytes())
        .unwrap()
        .to_string()
}

#[test]
fn old_parameters_hash_verifies_as_outdated() {
    let old = old_parameters_hash("password123");
    let stored = PasswordHash::new(&old);

    let result = stored.verify(&Password::new("password123"));
    match result {
        PasswordVerificationResult::ValidButOutdated(new_hash) => {
            // the replacement hash is already under current defaults
            assert!(matches!(
                new_hash.verify(&Password::new("password123")),
                PasswordVerificationResult::Valid
            ));
        }
        _ => panic!("a correct password against an old-parameters hash must be ValidButOutdated"),
    }

    // a wrong password against the old hash is still plain Invalid
    assert!(matches!(
        stored.verify(&Password::new("wrong")),
        PasswordVerificationResult::Invalid
    ));
}

#[test]
fn authenticate_upgrades_outdated_hash() {
    let old = old_parameters_hash("password123");

    let mut store = UserStore::new();
    let template = DatabaseUser::new(
        Auto::unassigned(),
        LimitedString::new("testuser").unwrap(),
        &Password::new("password123"),
    );
    store
        .insert(template.with_password_hash(PasswordHash::new(&old)))
        .unwrap();

    let before = DatabaseUser::get_by_username(&store, "testuser")
        .unwrap()
        .unwrap();
    assert_eq!(before.password_hash().as_str(), old);

    let credentials =
        DatabaseUserCredentials::new("testuser".to_string(), Password::new("password123"));
    let authed = DatabaseUser::authenticate(&mut store, &credentials)
        .unwrap()
        .unwrap();
    assert_eq!(authed.username(), "testuser");

    // one authenticate call replaced the stored hash, and the new one
    // verifies as plain Valid
    let after = DatabaseUser::get_by_username(&store, "testuser")
        .unwrap()
        .unwrap();
    assert_ne!(after.password_hash().as_str(), old);
    assert!(matches!(
        after.password_hash().verify(&Password::new("password123")),
        PasswordVerificationResult::Valid
    ));
}
