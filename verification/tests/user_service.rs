use credentials::errors::CredentialError;
use credentials::hasher::{hash_password, verify_password};
use credentials::store::CredentialStore;
use credentials::user::NewUser;
use credentials::user_service::{apply_registration, login, register_user};

#[test]
fn test_register_user_success() {
    let mut store = CredentialStore::new();

    let username = "testuser";
    let password = "password123";

    let result = register_user(&mut store, username, password);
    println!("{:?}", result);
    assert!(
        result.is_ok(),
        "User registration failed when it should have succeeded"
    );

    let registered_user = result.unwrap();
    assert_eq!(registered_user.username, username);

    // Ensure the password is hashed
    let is_password_correct = verify_password(&registered_user.password_hash, password)
        .expect("Password verification failed");
    assert!(
        is_password_correct,
        "Password hashing or verification failed"
    );
}

#[test]
fn test_register_user_duplicate_username() {
    let mut store = CredentialStore::new();

    let username = "testuser";
    let password = "password123";

    // First registration should succeed
    let first_result = register_user(&mut store, username, password);
    assert!(first_result.is_ok(), "First user registration failed");

    // Second registration with the same username should fail
    let second_result = register_user(&mut store, username, password);
    assert!(
        second_result.is_err(),
        "Second user registration succeeded when it should have failed due to duplicate username"
    );
}

#[test]
fn test_password_hashing() {
    let mut store = CredentialStore::new();

    let username = "testuser";
    let password = "password123";

    let result = register_user(&mut store, username, password);
    println!("RESULT: {:?}", result);
    assert!(result.is_ok(), "User registration failed");

    let registered_user = result.unwrap();

    // Ensure the password in the store is not the plain text password
    assert_ne!(
        registered_user.password_hash, password,
        "Password was not hashed properly"
    );

    // Verify that the hashed password matches the original password
    let is_password_correct = verify_password(&registered_user.password_hash, password)
        .expect("Password verification failed");
    assert!(is_password_correct, "Password verification failed");
}

#[test]
fn test_hash_is_fresh_each_call() {
    let plain = "fixed plaintext";
    let first = hash_password(plain).expect("hashing failed");
    let second = hash_password(plain).expect("hashing failed");
    assert_ne!(first, second, "two hashes of one plaintext must differ");
    assert_eq!(verify_password(&first, plain), Ok(true));
    assert_eq!(verify_password(&second, plain), Ok(true));
}

#[test]
fn test_hash_never_equals_plaintext() {
    for plain in ["p", "", "password123", "a much longer plaintext password"] {
        let hashed = hash_password(plain).expect("hashing failed");
        assert_ne!(hashed, plain);
    }
}

#[test]
fn test_verify_round_trip() {
    let plain = "round trip";
    let hashed = hash_password(plain).expect("hashing failed");
    assert_eq!(verify_password(&hashed, plain), Ok(true));
}

#[test]
fn test_verify_negative_round_trip() {
    let hashed = hash_password("p1").expect("hashing failed");
    assert_eq!(verify_password(&hashed, "p2"), Ok(false));
}

#[test]
fn test_verify_malformed_hash_is_failure() {
    let result = verify_password("not-a-bcrypt-hash", "anything");
    assert_eq!(result, Err(CredentialError::HashingFailure));
}

#[test]
fn test_duplicate_registration_preserves_first_password() {
    let mut store = CredentialStore::new();

    let first = register_user(&mut store, "alice", "pw1").expect("first registration failed");
    assert_eq!(first.username, "alice");

    let second = register_user(&mut store, "alice", "pw2");
    assert_eq!(second.unwrap_err(), CredentialError::DuplicateKeyError);

    // The stored row still corresponds to the first password.
    let user = login(&store, "alice", "pw1").expect("login with the first password failed");
    assert_eq!(user.username, "alice");
    assert_eq!(
        login(&store, "alice", "pw2").unwrap_err(),
        CredentialError::AuthenticationFailure
    );
}

#[test]
fn test_login_success() {
    let mut store = CredentialStore::new();
    register_user(&mut store, "bob", "secret").expect("registration failed");

    let user = login(&store, "bob", "secret").expect("login failed");
    assert_eq!(user.username, "bob");
}

#[test]
fn test_login_wrong_password() {
    let mut store = CredentialStore::new();
    register_user(&mut store, "bob", "secret").expect("registration failed");

    let result = login(&store, "bob", "wrong");
    assert_eq!(result.unwrap_err(), CredentialError::AuthenticationFailure);
}

#[test]
fn test_login_unknown_user() {
    let store = CredentialStore::new();
    let result = login(&store, "ghost", "anything");
    assert_eq!(result.unwrap_err(), CredentialError::NotFoundError);
}

#[test]
fn test_no_row_left_on_hashing_failure() {
    let mut store = CredentialStore::new();

    let result = apply_registration(&mut store, "carol", Err(CredentialError::HashingFailure));
    assert_eq!(result.unwrap_err(), CredentialError::HashingFailure);

    assert_eq!(store.len(), 0);
    assert_eq!(
        login(&store, "carol", "anything").unwrap_err(),
        CredentialError::NotFoundError
    );
}

#[test]
fn test_store_assigns_ids_in_insertion_order() {
    let mut store = CredentialStore::new();
    let alice = register_user(&mut store, "alice", "pw1").expect("registration failed");
    let bob = register_user(&mut store, "bob", "pw2").expect("registration failed");
    assert_eq!(alice.id, 0);
    assert_eq!(bob.id, 1);
    assert_eq!(store.len(), 2);
}

#[test]
fn test_store_insert_and_find() {
    let mut store = CredentialStore::new();
    let inserted = store
        .insert(NewUser {
            username: "dave".to_string(),
            password_hash: "stored verbatim".to_string(),
        })
        .expect("insert failed");
    assert_eq!(inserted.username, "dave");
    assert_eq!(inserted.password_hash, "stored verbatim");

    let found = store.find_by_username("dave").expect("lookup failed");
    assert_eq!(found.id, inserted.id);
    assert_eq!(found.password_hash, "stored verbatim");

    assert_eq!(
        store.find_by_username("erin").unwrap_err(),
        CredentialError::NotFoundError
    );
}
