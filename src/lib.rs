//! Credential handling for the appointment service: HTTP Basic header
//! decoding, password-hash verification with a fallback hash so that an
//! unknown user costs as much work as a wrong password, and the small data
//! types that the HTTP layer exchanges.
pub mod secret;
pub mod credentials;
pub mod validation;
pub mod models;
pub mod errors;
pub mod appointments;
