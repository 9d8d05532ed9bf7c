use crate::models::ConsultationType;
use uuid::Uuid;
use vstd::prelude::*;
use vstd::string::StringExecFns;

verus! {

/// A calendar date and time without time zone, as whole seconds since
/// 1970-01-01 00:00:00 and the nanoseconds past that second (up to two
/// seconds' worth, for a leap second).
#[derive(Debug, Clone, Copy, PartialEq, Eq)]
pub struct Timestamp {
    pub seconds: i64,
    pub nanos: u32,
}

/// `a` comes strictly after `b`.
pub open spec fn is_after(a: Timestamp, b: Timestamp) -> bool {
    a.seconds > b.seconds || (a.seconds == b.seconds && a.nanos > b.nanos)
}

/// A booked appointment.
pub struct Appointment {
    pub id: Option<Uuid>,
    pub patient_id: Uuid,
    pub doctor_id: Uuid,
    pub consultancy_type: ConsultationType,
    pub timestamp: Timestamp,
    pub duration: i32,
    pub description: Option<String>,
    pub created_at: Option<Timestamp>,
    pub updated_at: Option<Timestamp>,
}

/// The details of an appointment as a patient submits them.
pub struct AppointmentForm {
    pub patient_id: Uuid,
    pub doctor_id: Uuid,
    pub consultancy_type: ConsultationType,
    pub timestamp: Timestamp,
    pub duration: i32,
    pub description: Option<String>,
}

/// An appointment can only be booked for a time after `now`.
pub fn is_valid_timestamp(dt: Timestamp, now: Timestamp) -> (r: bool)
    ensures
        r == is_after(dt, now),
{
    dt.seconds > now.seconds || (dt.seconds == now.seconds && dt.nanos > now.nanos)
}

impl Appointment {
    /// Makes an appointment out of a submitted form, under the fresh
    /// identifier `id` and with `recorded_at` as its creation and update
    /// time. Refused where the form's time is not after `now`.
    pub fn try_from_form(
        value: AppointmentForm,
        id: Uuid,
        now: Timestamp,
        recorded_at: Option<Timestamp>,
    ) -> (r: Result<Appointment, String>)
        ensures
            is_after(value.timestamp, now) <==> r is Ok,
            r matches Err(m) ==> m@ == "Invalid timestamp"@,
            r matches Ok(a) ==> {
                &&& a.id == Some(id)
                &&& a.patient_id == value.patient_id
                &&& a.doctor_id == value.doctor_id
                &&& a.consultancy_type == value.consultancy_type
                &&& a.timestamp == value.timestamp
                &&& a.duration == value.duration
                &&& a.description == value.description
                &&& a.created_at == recorded_at
                &&& a.updated_at == recorded_at
            },
    {
        if !is_valid_timestamp(value.timestamp, now) {
            return Err(String::from_str("Invalid timestamp"));
        }
        Ok(
            Appointment {
                id: Some(id),
                patient_id: value.patient_id,
                doctor_id: value.doctor_id,
                consultancy_type: value.consultancy_type,
                timestamp: value.timestamp,
                duration: value.duration,
                description: value.description,
                created_at: recorded_at,
                updated_at: recorded_at,
            },
        )
    }
}

} // verus!
