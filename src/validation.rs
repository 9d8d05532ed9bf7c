use crate::credentials::{AuthError, Credentials, Infrastructure};
use crate::secret::SecretString;
use argon2::PasswordVerifier;
use uuid::Uuid;
use vstd::prelude::*;

verus! {

#[verifier::external_type_specification]
#[verifier::external_body]
pub struct ExUuid(Uuid);

/// A hash in PHC string format with the same algorithm and cost parameters
/// as stored hashes, matching no real password. Verifying against it when a
/// username is unknown costs as much as verifying a wrong password.
pub const FALLBACK_PASSWORD_HASH: &'static str = "$argon2id$v=19$m=15000,t=2,p=1$gZiV/M1gPc22ElAH/Jh1Hw$CWOrkoo7oJBQ/iyh7uJ0LO2aLEfrHwTWllSAxT0zRno";

/// Whether `h` parses as a PHC hash string.
pub uninterp spec fn phc_parses(h: Seq<char>) -> bool;

/// Whether Argon2 verification of `password` against the PHC string `h`
/// reproduces the digest that `h` holds.
pub uninterp spec fn argon2_accepts(h: Seq<char>, password: Seq<char>) -> bool;

/// What comparing a candidate password with a PHC hash string found.
#[derive(Debug, Clone, Copy, PartialEq, Eq)]
pub enum HashCheck {
    Match,
    Mismatch,
    Unparsable,
}

/// Relies on password_hash's `PasswordHash::new`, which parses a PHC string,
/// and on argon2's `verify_password` with the default `Argon2`, which
/// recomputes the digest with the salt and parameters of the parsed hash and
/// succeeds only where it equals the stored digest.
#[verifier::external_body]
fn argon2_check(phc: &str, password: &str) -> (r: HashCheck)
    ensures
        r == (if !phc_parses(phc@) {
            HashCheck::Unparsable
        } else if argon2_accepts(phc@, password@) {
            HashCheck::Match
        } else {
            HashCheck::Mismatch
        }),
{
    match argon2::PasswordHash::new(phc) {
        Err(_) => HashCheck::Unparsable,
        Ok(parsed) => match argon2::Argon2::default().verify_password(password.as_bytes(), &parsed) {
            Ok(()) => HashCheck::Match,
            Err(_) => HashCheck::Mismatch,
        },
    }
}

/// The outcome of verifying `candidate` against the hash string `expected`:
/// a hash that does not parse is a server-side fault, a digest that differs
/// is a credential failure.
pub open spec fn hash_verdict(expected: Seq<char>, candidate: Seq<char>) -> Result<(), AuthError> {
    if !phc_parses(expected) {
        Err(AuthError::UnexpectedError(Infrastructure::UnparsableHash))
    } else if argon2_accepts(expected, candidate) {
        Ok(())
    } else {
        Err(AuthError::InvalidCredentials)
    }
}

/// Verifies a candidate password against a PHC hash string. This is the
/// costly step, meant to run away from the request-handling workers.
pub fn verify_password_hash(
    expected_password_hash: &SecretString,
    password_candidate: &SecretString,
) -> (r: Result<(), AuthError>)
    ensures
        r == hash_verdict(expected_password_hash@, password_candidate@),
{
    match argon2_check(expected_password_hash.expose_secret(), password_candidate.expose_secret()) {
        HashCheck::Match => Ok(()),
        HashCheck::Mismatch => Err(AuthError::InvalidCredentials),
        HashCheck::Unparsable => Err(AuthError::UnexpectedError(Infrastructure::UnparsableHash)),
    }
}

/// Whether the fallback hash parses as a PHC string, to be checked once
/// before serving: without it an unknown user would end in a server fault
/// instead of the failure that a wrong password gets.
pub fn fallback_hash_is_well_formed() -> (r: bool)
    ensures
        r == phc_parses(FALLBACK_PASSWORD_HASH@),
{
    match argon2_check(FALLBACK_PASSWORD_HASH, "") {
        HashCheck::Unparsable => false,
        _ => true,
    }
}

/// A user's identifier and password hash as the credential store holds them.
pub struct StoredCredentials {
    pub user_id: Uuid,
    pub password_hash: SecretString,
}

impl View for StoredCredentials {
    type V = (Uuid, Seq<char>);

    open spec fn view(&self) -> (Uuid, Seq<char>) {
        (self.user_id, self.password_hash@)
    }
}

/// The answer of the credential store to a lookup by username: at most one
/// record, or the store's error message.
pub open spec fn lookup_view(lookup: Result<Option<StoredCredentials>, String>) -> Result<
    Option<(Uuid, Seq<char>)>,
    String,
> {
    match lookup {
        Ok(Some(s)) => Ok(Some(s@)),
        Ok(None) => Ok(None),
        Err(e) => Err(e),
    }
}

/// The hash verification that one authentication attempt still has to run,
/// and the identifier that a success would return.
pub struct PendingVerification {
    pub user_id: Option<Uuid>,
    pub expected_password_hash: SecretString,
    pub password_candidate: SecretString,
}

impl View for PendingVerification {
    type V = (Option<Uuid>, Seq<char>, Seq<char>);

    open spec fn view(&self) -> (Option<Uuid>, Seq<char>, Seq<char>) {
        (self.user_id, self.expected_password_hash@, self.password_candidate@)
    }
}

/// The identifier to remember and the hash to compare against: the stored
/// ones where a record was found, else no identifier and the fallback hash.
pub open spec fn comparison_target(stored: Option<(Uuid, Seq<char>)>) -> (Option<Uuid>, Seq<char>) {
    match stored {
        Some((id, hash)) => (Some(id), hash),
        None => (None, FALLBACK_PASSWORD_HASH@),
    }
}

/// How an attempt ends once the verification has run (`None`: the worker
/// that ran it failed).
pub open spec fn conclusion(user_id: Option<Uuid>, verdict: Option<Result<(), AuthError>>) -> Result<
    Uuid,
    AuthError,
> {
    match verdict {
        None => Err(AuthError::UnexpectedError(Infrastructure::WorkerFailed)),
        Some(Err(e)) => Err(e),
        Some(Ok(())) => match user_id {
            Some(id) => Ok(id),
            None => Err(AuthError::InvalidCredentials),
        },
    }
}

/// The outcome of validating `password` given the store's answer `lookup`.
pub open spec fn validation_outcome(
    password: Seq<char>,
    lookup: Result<Option<(Uuid, Seq<char>)>, String>,
) -> Result<Uuid, AuthError> {
    match lookup {
        Err(e) => Err(AuthError::UnexpectedError(Infrastructure::StoreQuery(e))),
        Ok(stored) => {
            let (user_id, target) = comparison_target(stored);
            conclusion(user_id, Some(hash_verdict(target, password)))
        },
    }
}

/// Takes the store's answer to the lookup of `credentials.username` and
/// sets up the one hash verification that the attempt runs, whether or not
/// the username was found. A store error ends the attempt here.
pub fn prepare_verification(
    credentials: Credentials,
    lookup: Result<Option<StoredCredentials>, String>,
) -> (r: Result<PendingVerification, AuthError>)
    ensures
        match lookup_view(lookup) {
            Err(e) => r == Err::<PendingVerification, AuthError>(
                AuthError::UnexpectedError(Infrastructure::StoreQuery(e)),
            ),
            Ok(stored) => r matches Ok(p) && p@ == (
                comparison_target(stored).0,
                comparison_target(stored).1,
                credentials.password@,
            ),
        },
{
    match lookup {
        Err(e) => Err(AuthError::UnexpectedError(Infrastructure::StoreQuery(e))),
        Ok(Some(stored)) => Ok(
            PendingVerification {
                user_id: Some(stored.user_id),
                expected_password_hash: stored.password_hash,
                password_candidate: credentials.password,
            },
        ),
        Ok(None) => Ok(
            PendingVerification {
                user_id: None,
                expected_password_hash: SecretString::new(FALLBACK_PASSWORD_HASH.to_owned()),
                password_candidate: credentials.password,
            },
        ),
    }
}

impl PendingVerification {
    /// Runs the hash verification of this attempt.
    pub fn verify(&self) -> (r: Result<(), AuthError>)
        ensures
            r == hash_verdict(self@.1, self@.2),
    {
        verify_password_hash(&self.expected_password_hash, &self.password_candidate)
    }
}

/// Ends an attempt: the remembered identifier where the verification
/// succeeded against a stored hash, one undifferentiated failure for a wrong
/// password or an unknown user, and a server-side fault otherwise.
pub fn conclude_validation(user_id: Option<Uuid>, verdict: Option<Result<(), AuthError>>) -> (r:
    Result<Uuid, AuthError>)
    ensures
        r == conclusion(user_id, verdict),
{
    match verdict {
        None => Err(AuthError::UnexpectedError(Infrastructure::WorkerFailed)),
        Some(Err(e)) => Err(e),
        Some(Ok(())) => match user_id {
            Some(id) => Ok(id),
            None => Err(AuthError::InvalidCredentials),
        },
    }
}

/// Validates `credentials` given the store's answer to the lookup of their
/// username, running the hash verification in the calling context.
pub fn validate_creds(
    credentials: Credentials,
    lookup: Result<Option<StoredCredentials>, String>,
) -> (r: Result<Uuid, AuthError>)
    ensures
        r == validation_outcome(credentials.password@, lookup_view(lookup)),
{
    let pending = match prepare_verification(credentials, lookup) {
        Ok(p) => p,
        Err(e) => return Err(e),
    };
    let verdict = pending.verify();
    conclude_validation(pending.user_id, Some(verdict))
}

/// Whether or not the username is found, an attempt that reaches the store
/// runs exactly one hash verification with the supplied password: against
/// the fallback hash for an unknown user, against the stored hash otherwise.
pub proof fn lemma_one_verification_per_attempt(password: Seq<char>, record: (Uuid, Seq<char>))
    ensures
        validation_outcome(password, Ok(None)) == conclusion(
            None,
            Some(hash_verdict(FALLBACK_PASSWORD_HASH@, password)),
        ),
        validation_outcome(password, Ok(Some(record))) == conclusion(
            Some(record.0),
            Some(hash_verdict(record.1, password)),
        ),
{
}

/// An unknown username and a known username with a wrong password end in
/// the same failure, given that the fallback and the stored hash are both
/// well-formed PHC strings.
pub proof fn lemma_failures_indistinguishable(password: Seq<char>, record: (Uuid, Seq<char>))
    requires
        phc_parses(FALLBACK_PASSWORD_HASH@),
        phc_parses(record.1),
        !argon2_accepts(record.1, password),
    ensures
        validation_outcome(password, Ok(None)) == validation_outcome(
            password,
            Ok(Some(record)),
        ),
        validation_outcome(password, Ok(None)) == Err::<Uuid, AuthError>(
            AuthError::InvalidCredentials,
        ),
{
}

/// Validating the same password against the same store answer gives the
/// same outcome every time.
pub proof fn lemma_validation_repeatable(
    first: Credentials,
    second: Credentials,
    first_lookup: Result<Option<StoredCredentials>, String>,
    second_lookup: Result<Option<StoredCredentials>, String>,
)
    requires
        first@ == second@,
        lookup_view(first_lookup) == lookup_view(second_lookup),
    ensures
        validation_outcome(first.password@, lookup_view(first_lookup)) == validation_outcome(
            second.password@,
            lookup_view(second_lookup),
        ),
{
}

} // verus!
