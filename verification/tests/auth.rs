use cot_auth::Auto;
use cot_auth::AuthError;
use cot_auth::Credentials;
use cot_auth::DatabaseUser;
use cot_auth::DatabaseUserApp;
use cot_auth::DatabaseUserBackend;
use cot_auth::DatabaseUserCredentials;
use cot_auth::LimitedString;
use cot_auth::Password;
use cot_auth::PasswordHash;
use cot_auth::PasswordVerificationResult;
use cot_auth::SecretKey;
use cot_auth::StoreError;
use cot_auth::UserId;
use cot_auth::UserStore;

fn test_user() -> DatabaseUser {
    DatabaseUser::new(
        Auto::fixed(1),
        LimitedString::new("testuser").unwrap(),
        &Password::new("password123"),
    )
}

#[test]
fn session_auth_hash() {
    let user = test_user();
    let secret_key = SecretKey::new(b"supersecretkey");

    let hash = user.session_auth_hash(&secret_key);
    assert!(hash.is_some());
}

#[test]
fn database_user_traits() {
    let user = test_user();
    assert_eq!(user.id(), 1);
    assert_eq!(user.username(), "testuser");
    assert!(user.is_active());
    assert!(user.is_authenticated());
    assert!(user
        .session_auth_hash(&SecretKey::new(b"supersecretkey"))
        .is_some());
}

#[test]
fn create_user() {
    let mut store = UserStore::new();

    let username = "testuser";
    let password = Password::new("password123");

    let user = DatabaseUser::create_user(&mut store, username, &password).unwrap();
    assert_eq!(user.username(), username);
}

#[test]
fn get_by_id() {
    let mut store = UserStore::new();
    let created =
        DatabaseUser::create_user(&mut store, "testuser", &Password::new("password123")).unwrap();

    let result = DatabaseUser::get_by_id(&store, created.id()).unwrap();
    assert!(result.is_some());
    assert_eq!(result.unwrap().username(), "testuser");
}

#[test]
fn authenticate() {
    let mut store = UserStore::new();
    DatabaseUser::create_user(&mut store, "testuser", &Password::new("password123")).unwrap();

    let credentials =
        DatabaseUserCredentials::new("testuser".to_string(), Password::new("password123"));
    let result = DatabaseUser::authenticate(&mut store, &credentials).unwrap();
    assert!(result.is_some());
    assert_eq!(result.unwrap().username(), "testuser");
}

#[test]
fn authenticate_non_existing() {
    let mut store = UserStore::new();

    let credentials =
        DatabaseUserCredentials::new("testuser".to_string(), Password::new("password123"));
    let result = DatabaseUser::authenticate(&mut store, &credentials).unwrap();
    assert!(result.is_none());
}

#[test]
fn authenticate_invalid_password() {
    let mut store = UserStore::new();
    DatabaseUser::create_user(&mut store, "testuser", &Password::new("password123")).unwrap();

    let credentials =
        DatabaseUserCredentials::new("testuser".to_string(), Password::new("invalid"));
    let result = DatabaseUser::authenticate(&mut store, &credentials).unwrap();
    assert!(result.is_none());
}

#[test]
fn hash_then_verify_is_valid() {
    for password in ["password123", "", "s3cret!", "a much longer pass phrase \u{00e9}\u{00e8}"] {
        let p = Password::new(password);
        let hash = PasswordHash::from_password(&p);
        assert!(matches!(
            hash.verify(&p),
            PasswordVerificationResult::Valid
        ));
    }
}

#[test]
fn verify_wrong_password_is_invalid() {
    let pairs = [
        ("password123", "password124"),
        ("s3cret!", "s3cret"),
        ("", "x"),
        ("correct horse", "battery staple"),
    ];
    for (good, bad) in pairs {
        let hash = PasswordHash::from_password(&Password::new(good));
        assert!(matches!(
            hash.verify(&Password::new(bad)),
            PasswordVerificationResult::Invalid
        ));
    }
}

#[test]
fn verify_malformed_hash_is_invalid() {
    let hash = PasswordHash::new("not an encoded hash");
    assert!(matches!(
        hash.verify(&Password::new("password123")),
        PasswordVerificationResult::Invalid
    ));
}

#[test]
fn reverify_same_classification() {
    let p = Password::new("password123");
    let hash = PasswordHash::from_password(&p);
    let first = hash.verify(&p);
    let second = hash.verify(&p);
    assert!(matches!(first, PasswordVerificationResult::Valid));
    assert!(matches!(second, PasswordVerificationResult::Valid));
    let wrong_first = hash.verify(&Password::new("wrong"));
    let wrong_second = hash.verify(&Password::new("wrong"));
    assert!(matches!(wrong_first, PasswordVerificationResult::Invalid));
    assert!(matches!(wrong_second, PasswordVerificationResult::Invalid));
    // the stored form is untouched by verification
    assert!(matches!(hash.verify(&p), PasswordVerificationResult::Valid));
}

#[test]
fn username_too_long_rejected_uniformly() {
    let long_name: String = "a".repeat(256);
    let mut store = UserStore::new();

    match DatabaseUser::create_user(&mut store, &long_name, &Password::new("pw")) {
        Err(e) => assert_eq!(e, AuthError::UsernameTooLong(256)),
        Ok(_) => panic!("an over-long username must be rejected by create_user"),
    }
    match DatabaseUser::get_by_username(&store, &long_name) {
        Err(e) => assert_eq!(e, AuthError::UsernameTooLong(256)),
        Ok(_) => panic!("an over-long username must be rejected by get_by_username"),
    }
    let credentials = DatabaseUserCredentials::new(long_name, Password::new("pw"));
    match DatabaseUser::authenticate(&mut store, &credentials) {
        Err(e) => assert_eq!(e, AuthError::UsernameTooLong(256)),
        Ok(_) => panic!("an over-long username must be rejected by authenticate"),
    }
}

#[test]
fn username_at_bound_accepted() {
    let name: String = "a".repeat(255);
    let mut store = UserStore::new();
    let user = DatabaseUser::create_user(&mut store, &name, &Password::new("pw")).unwrap();
    assert_eq!(user.username(), name);
    assert!(DatabaseUser::get_by_username(&store, &name)
        .unwrap()
        .is_some());
}

#[test]
fn duplicate_username_is_storage_error() {
    let mut store = UserStore::new();
    DatabaseUser::create_user(&mut store, "testuser", &Password::new("one")).unwrap();
    match DatabaseUser::create_user(&mut store, "testuser", &Password::new("two")) {
        Err(e) => assert_eq!(
            e,
            AuthError::StorageError(StoreError::DuplicateUsername)
        ),
        Ok(_) => panic!("a duplicate username must be rejected by the store"),
    }
}

#[test]
fn alice_scenario() {
    let mut store = UserStore::new();
    DatabaseUser::create_user(&mut store, "alice", &Password::new("s3cret!")).unwrap();

    let good = DatabaseUserCredentials::new("alice".to_string(), Password::new("s3cret!"));
    let found = DatabaseUser::authenticate(&mut store, &good).unwrap();
    assert_eq!(found.unwrap().username(), "alice");

    let wrong = DatabaseUserCredentials::new("alice".to_string(), Password::new("wrong"));
    assert!(DatabaseUser::authenticate(&mut store, &wrong)
        .unwrap()
        .is_none());

    let bob = DatabaseUserCredentials::new("bob".to_string(), Password::new("anything"));
    assert!(DatabaseUser::authenticate(&mut store, &bob)
        .unwrap()
        .is_none());
}

#[test]
fn unknown_user_and_wrong_password_same_latency_class() {
    let mut store = UserStore::new();
    DatabaseUser::create_user(&mut store, "testuser", &Password::new("password123")).unwrap();

    let rounds = 3;
    let wrong = DatabaseUserCredentials::new("testuser".to_string(), Password::new("invalid"));
    let start = std::time::Instant::now();
    for _ in 0..rounds {
        assert!(DatabaseUser::authenticate(&mut store, &wrong)
            .unwrap()
            .is_none());
    }
    let wrong_elapsed = start.elapsed().as_nanos().max(1);

    let unknown = DatabaseUserCredentials::new("nosuchuser".to_string(), Password::new("invalid"));
    let start = std::time::Instant::now();
    for _ in 0..rounds {
        assert!(DatabaseUser::authenticate(&mut store, &unknown)
            .unwrap()
            .is_none());
    }
    let unknown_elapsed = start.elapsed().as_nanos().max(1);

    // same order of magnitude, with tolerant bounds
    assert!(unknown_elapsed < wrong_elapsed * 10);
    assert!(wrong_elapsed < unknown_elapsed * 10);
}

#[test]
fn session_hash_deterministic_and_distinct() {
    let key = SecretKey::new(b"supersecretkey");
    let hash1 = PasswordHash::from_password(&Password::new("password123"));
    let hash2 = PasswordHash::from_password(&Password::new("other password"));
    assert_ne!(hash1.as_str(), hash2.as_str());

    let d1 = cot_auth::session::derive_session_hash(&key, &hash1);
    let d1_again = cot_auth::session::derive_session_hash(&key, &hash1);
    let d2 = cot_auth::session::derive_session_hash(&key, &hash2);

    assert_eq!(d1.as_bytes(), d1_again.as_bytes());
    assert_ne!(d1.as_bytes(), d2.as_bytes());
    assert_eq!(d1.as_bytes().len(), 64);
    // the MAC is keyed: another key gives another fingerprint
    let other_key = SecretKey::new(b"another secret");
    let d1_other = cot_auth::session::derive_session_hash(&other_key, &hash1);
    assert_ne!(d1.as_bytes(), d1_other.as_bytes());
}

#[test]
fn dispatcher_rejects_unrecognized_credentials() {
    let backend = DatabaseUserBackend::new();
    let mut store = UserStore::new();
    DatabaseUser::create_user(&mut store, "testuser", &Password::new("password123")).unwrap();

    match backend.authenticate(&mut store, &Credentials::Unsupported) {
        Err(e) => assert_eq!(e, AuthError::CredentialsTypeNotSupported),
        Ok(_) => panic!("an unrecognized credential shape must not be a silent no-match"),
    }

    let known = Credentials::Database(DatabaseUserCredentials::new(
        "testuser".to_string(),
        Password::new("password123"),
    ));
    let found = backend.authenticate(&mut store, &known).unwrap();
    assert_eq!(found.unwrap().username(), "testuser");
}

#[test]
fn dispatcher_rejects_unsupported_id_kind() {
    let backend = DatabaseUserBackend::new();
    let mut store = UserStore::new();
    let created =
        DatabaseUser::create_user(&mut store, "testuser", &Password::new("password123")).unwrap();

    let found = backend
        .get_by_id(&store, &UserId::Int(created.id()))
        .unwrap();
    assert_eq!(found.unwrap().username(), "testuser");
    assert!(backend
        .get_by_id(&store, &UserId::Int(999))
        .unwrap()
        .is_none());

    match backend.get_by_id(&store, &UserId::Str("testuser".to_string())) {
        Err(e) => assert_eq!(e, AuthError::UserIdTypeNotSupported),
        Ok(_) => panic!("a non-integer key must be rejected by this backend"),
    }
}

#[test]
fn backend_and_app_construct() {
    let _backend = DatabaseUserBackend::default();
    let _app = DatabaseUserApp::default();
    let _app2 = DatabaseUserApp::new();
}

#[test]
fn password_try_new_checks_the_engine_bound() {
    let p = Password::try_new("password123").unwrap();
    assert_eq!(p.as_str(), "password123");
    assert!(Password::try_new("").is_some());
}

#[test]
fn credentials_accessors() {
    let credentials =
        DatabaseUserCredentials::new(String::from("testuser"), Password::new("password123"));
    assert_eq!(credentials.username(), "testuser");
    assert!(!credentials.password().as_str().is_empty());
}
