use argon2::password_hash::{PasswordHasher, SaltString};
use argon2::Argon2;
use uuid::Uuid;
use zero2prod::credentials::{AuthError, Credentials, Infrastructure};
use zero2prod::secret::SecretString;
use zero2prod::validation::{
    conclude_validation, fallback_hash_is_well_formed, prepare_verification,
    validate_creds, verify_password_hash, StoredCredentials, FALLBACK_PASSWORD_HASH,
};

const U1: &str = "036bd774-9e6b-4907-b74c-e76c24ac5784";

fn hash_of(password: &str) -> String {
    let salt = SaltString::from_b64("c29tZXNhbHRzb21lc2FsdA").unwrap();
    Argon2::default()
        .hash_password(password.as_bytes(), &salt)
        .unwrap()
        .to_string()
}

fn credentials(username: &str, password: &str) -> Credentials {
    Credentials {
        username: username.to_string(),
        password: SecretString::new(password.to_string()),
    }
}

fn bob_record(hash: &str) -> Option<StoredCredentials> {
    Some(StoredCredentials {
        user_id: Uuid::parse_str(U1).unwrap(),
        password_hash: SecretString::new(hash.to_string()),
    })
}

#[test]
fn correct_password_returns_the_stored_identifier() {
    let hash = hash_of("correct-password");
    let outcome = validate_creds(credentials("bob", "correct-password"), Ok(bob_record(&hash)));
    assert_eq!(outcome, Ok(Uuid::parse_str(U1).unwrap()));
}

#[test]
fn wrong_password_is_invalid_credentials() {
    let hash = hash_of("correct-password");
    let outcome = validate_creds(credentials("bob", "wrong"), Ok(bob_record(&hash)));
    assert_eq!(outcome, Err(AuthError::InvalidCredentials));
}

#[test]
fn empty_password_is_verified_and_fails() {
    let hash = hash_of("correct-password");
    let outcome = validate_creds(credentials("bob", ""), Ok(bob_record(&hash)));
    assert_eq!(outcome, Err(AuthError::InvalidCredentials));
}

#[test]
fn unknown_user_fails_like_a_wrong_password() {
    let hash = hash_of("correct-password");
    let unknown = validate_creds(credentials("mallory", "wrong"), Ok(None));
    let wrong = validate_creds(credentials("bob", "wrong"), Ok(bob_record(&hash)));
    assert_eq!(unknown, Err(AuthError::InvalidCredentials));
    assert_eq!(unknown, wrong);
}

#[test]
fn unknown_user_is_verified_against_the_fallback_hash() {
    let pending = prepare_verification(credentials("mallory", "guess"), Ok(None)).unwrap();
    assert_eq!(pending.user_id, None);
    assert_eq!(pending.expected_password_hash.expose_secret(), FALLBACK_PASSWORD_HASH);
    assert_eq!(pending.password_candidate.expose_secret(), "guess");
    assert_eq!(pending.verify(), Err(AuthError::InvalidCredentials));
}

#[test]
fn known_user_is_verified_against_the_stored_hash() {
    let pending =
        prepare_verification(credentials("bob", "guess"), Ok(bob_record("$argon2id$stored")))
            .unwrap();
    assert_eq!(pending.user_id, Some(Uuid::parse_str(U1).unwrap()));
    assert_eq!(pending.expected_password_hash.expose_secret(), "$argon2id$stored");
}

#[test]
fn store_failure_is_reported_as_infrastructure() {
    let outcome = validate_creds(credentials("bob", "pw"), Err("connection refused".to_string()));
    assert_eq!(
        outcome,
        Err(AuthError::UnexpectedError(Infrastructure::StoreQuery(
            "connection refused".to_string()
        )))
    );
}

#[test]
fn corrupt_stored_hash_is_reported_as_infrastructure() {
    let outcome = validate_creds(credentials("bob", "pw"), Ok(bob_record("not a phc string")));
    assert_eq!(
        outcome,
        Err(AuthError::UnexpectedError(Infrastructure::UnparsableHash))
    );
}

#[test]
fn verification_compares_against_the_given_hash() {
    let hash = SecretString::new(hash_of("correct-password"));
    assert_eq!(
        verify_password_hash(&hash, &SecretString::new("correct-password".to_string())),
        Ok(())
    );
    assert_eq!(
        verify_password_hash(&hash, &SecretString::new("correct-passwore".to_string())),
        Err(AuthError::InvalidCredentials)
    );
}

#[test]
fn fallback_hash_parses() {
    assert!(fallback_hash_is_well_formed());
}

#[test]
fn worker_failure_is_reported_as_infrastructure() {
    let id = Uuid::parse_str(U1).unwrap();
    assert_eq!(
        conclude_validation(Some(id), None),
        Err(AuthError::UnexpectedError(Infrastructure::WorkerFailed))
    );
}

#[test]
fn success_without_a_stored_identifier_is_invalid() {
    let id = Uuid::parse_str(U1).unwrap();
    assert_eq!(conclude_validation(None, Some(Ok(()))), Err(AuthError::InvalidCredentials));
    assert_eq!(conclude_validation(Some(id), Some(Ok(()))), Ok(id));
    assert_eq!(
        conclude_validation(Some(id), Some(Err(AuthError::InvalidCredentials))),
        Err(AuthError::InvalidCredentials)
    );
}

#[test]
fn repeated_validation_gives_the_same_outcome() {
    let hash = hash_of("correct-password");
    let first = validate_creds(credentials("bob", "correct-password"), Ok(bob_record(&hash)));
    let second = validate_creds(credentials("bob", "correct-password"), Ok(bob_record(&hash)));
    assert_eq!(first, second);
    assert_eq!(first, Ok(Uuid::parse_str(U1).unwrap()));
}
