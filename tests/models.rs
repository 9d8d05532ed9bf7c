use uuid::Uuid;
use zero2prod::appointments::{is_valid_timestamp, Appointment, AppointmentForm, Timestamp};
use zero2prod::credentials::{AuthError, HeaderError, Infrastructure};
use zero2prod::errors::{error_chain_fmt, BookingError, BASIC_CHALLENGE};
use zero2prod::models::{same_text, ConsultationType};

#[test]
fn consultation_types_are_read_from_their_stored_names() {
    assert_eq!(ConsultationType::from_name("CheckUp"), Some(ConsultationType::CheckUp));
    assert_eq!(ConsultationType::from_name("Follow Up"), Some(ConsultationType::FollowUp));
    assert_eq!(ConsultationType::from_name("Whitening"), Some(ConsultationType::Whitening));
    assert_eq!(ConsultationType::from_name("Filling"), Some(ConsultationType::Filling));
    assert_eq!(ConsultationType::from_name("Extraction"), Some(ConsultationType::Extraction));
    assert_eq!(ConsultationType::from_name("Braces"), Some(ConsultationType::Braces));
    assert_eq!(ConsultationType::from_name("Implants"), Some(ConsultationType::Implants));
}

#[test]
fn unknown_consultation_names_are_refused() {
    assert_eq!(ConsultationType::from_name("checkup"), None);
    assert_eq!(ConsultationType::from_name("FollowUp"), None);
    assert_eq!(ConsultationType::from_name(""), None);
}

#[test]
fn consultation_types_are_written_by_variant_name() {
    assert_eq!(ConsultationType::CheckUp.name(), "CheckUp");
    assert_eq!(ConsultationType::FollowUp.name(), "FollowUp");
    assert_eq!(ConsultationType::Implants.name(), "Implants");
}

#[test]
fn same_text_compares_whole_strings() {
    assert!(same_text("héllo", "héllo"));
    assert!(!same_text("héllo", "hello"));
    assert!(!same_text("abc", "abcd"));
}

#[test]
fn authentication_failures_answer_401_with_a_challenge() {
    for e in [
        AuthError::InvalidCredentials,
        AuthError::MalformedHeader(HeaderError::Missing),
    ] {
        let b = BookingError::from_auth_error(e);
        assert!(matches!(b, BookingError::AuthError(_)));
        assert_eq!(b.status_code(), 401);
        assert_eq!(b.www_authenticate(), Some("Basic realm=\"Restricted\""));
    }
    assert_eq!(BASIC_CHALLENGE, "Basic realm=\"Restricted\"");
}

#[test]
fn server_faults_answer_500_without_a_challenge() {
    let b = BookingError::from_auth_error(AuthError::UnexpectedError(Infrastructure::WorkerFailed));
    assert_eq!(b, BookingError::UnexpectedError(Infrastructure::WorkerFailed));
    assert_eq!(b.status_code(), 500);
    assert_eq!(b.www_authenticate(), None);
}

#[test]
fn error_chain_lists_each_cause() {
    let causes = vec!["pool timed out".to_string(), "connection refused".to_string()];
    assert_eq!(
        error_chain_fmt("Failed to query user from db", &causes),
        "Failed to query user from db\n\nCaused by:\n\tpool timed out\nCaused by:\n\tconnection refused\n"
    );
    assert_eq!(error_chain_fmt("alone", &Vec::new()), "alone\n\n");
}

fn at(seconds: i64, nanos: u32) -> Timestamp {
    Timestamp { seconds, nanos }
}

fn form(timestamp: Timestamp) -> AppointmentForm {
    AppointmentForm {
        patient_id: Uuid::parse_str("036bd774-9e6b-4907-b74c-e76c24ac5784").unwrap(),
        doctor_id: Uuid::parse_str("9a1c2b9e-0d35-4f8e-9b52-5c1d8e2f7a10").unwrap(),
        consultancy_type: ConsultationType::CheckUp,
        timestamp,
        duration: 60,
        description: Some("TEST".to_string()),
    }
}

#[test]
fn only_future_times_are_valid() {
    assert!(is_valid_timestamp(at(1737327600, 0), at(1737327599, 999_999_999)));
    assert!(is_valid_timestamp(at(1737327600, 1), at(1737327600, 0)));
    assert!(!is_valid_timestamp(at(1737327600, 0), at(1737327600, 0)));
    assert!(!is_valid_timestamp(at(1737327599, 0), at(1737327600, 0)));
}

#[test]
fn form_in_the_future_becomes_an_appointment() {
    let id = Uuid::parse_str("5f0c8a43-2b7e-4d1f-8a6b-3c9e7d2a1b04").unwrap();
    let recorded = Some(at(1700000000, 0));
    let a = Appointment::try_from_form(form(at(1737327600, 0)), id, at(1700000000, 5), recorded)
        .unwrap();
    assert_eq!(a.id, Some(id));
    assert_eq!(a.consultancy_type, ConsultationType::CheckUp);
    assert_eq!(a.timestamp, at(1737327600, 0));
    assert_eq!(a.duration, 60);
    assert_eq!(a.description, Some("TEST".to_string()));
    assert_eq!(a.created_at, recorded);
    assert_eq!(a.updated_at, recorded);
}

#[test]
fn form_in_the_past_is_refused() {
    let id = Uuid::parse_str("5f0c8a43-2b7e-4d1f-8a6b-3c9e7d2a1b04").unwrap();
    let r = Appointment::try_from_form(form(at(1600000000, 0)), id, at(1700000000, 0), None);
    assert_eq!(r.err(), Some("Invalid timestamp".to_string()));
}
