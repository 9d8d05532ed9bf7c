use crate::credentials::{AuthError, Infrastructure};
use vstd::prelude::*;
use vstd::string::StringExecFns;

verus! {

/// The `WWW-Authenticate` challenge sent with every authentication failure.
pub const BASIC_CHALLENGE: &'static str = "Basic realm=\"Restricted\"";

/// Why booking an appointment failed before the booking itself was tried.
#[derive(Debug, PartialEq, Eq)]
pub enum BookingError {
    /// The caller did not authenticate: malformed or invalid credentials.
    AuthError(AuthError),
    /// The server could not decide on the credentials.
    UnexpectedError(Infrastructure),
}

/// The booking failure that an authentication failure becomes.
pub open spec fn booking_error_of(e: AuthError) -> BookingError {
    match e {
        AuthError::UnexpectedError(i) => BookingError::UnexpectedError(i),
        _ => BookingError::AuthError(e),
    }
}

impl BookingError {
    /// Classifies an authentication failure: server-side faults stay
    /// server-side, everything else is the caller's.
    pub fn from_auth_error(e: AuthError) -> (r: BookingError)
        ensures
            r == booking_error_of(e),
    {
        match e {
            AuthError::UnexpectedError(i) => BookingError::UnexpectedError(i),
            _ => BookingError::AuthError(e),
        }
    }

    /// The HTTP status of the response: 401 for an authentication failure,
    /// 500 for a server-side fault.
    pub fn status_code(&self) -> (r: u16)
        ensures
            r == (if self is AuthError {
                401u16
            } else {
                500u16
            }),
    {
        match self {
            BookingError::AuthError(_) => 401,
            BookingError::UnexpectedError(_) => 500,
        }
    }

    /// The `WWW-Authenticate` value that the response carries, if any.
    pub fn www_authenticate(&self) -> (r: Option<&'static str>)
        ensures
            r matches Some(v) ==> v@ == BASIC_CHALLENGE@,
            r is Some <==> self is AuthError,
    {
        match self {
            BookingError::AuthError(_) => Some(BASIC_CHALLENGE),
            BookingError::UnexpectedError(_) => None,
        }
    }
}

/// The lines that report the causes of an error, one `Caused by:` entry each.
pub open spec fn causes_text(causes: Seq<Seq<char>>) -> Seq<char>
    decreases causes.len(),
{
    if causes.len() == 0 {
        Seq::empty()
    } else {
        causes_text(causes.drop_last()) + "Caused by:\n\t"@ + causes.last() + "\n"@
    }
}

/// An error's report: its message and a blank line, then its causes from
/// the nearest to the root.
pub open spec fn error_chain_text(message: Seq<char>, causes: Seq<Seq<char>>) -> Seq<char> {
    message + "\n\n"@ + causes_text(causes)
}

/// Writes out an error's message followed by the chain of its causes.
pub fn error_chain_fmt(message: &str, causes: &Vec<String>) -> (r: String)
    ensures
        r@ == error_chain_text(message@, causes@.map_values(|c: String| c@)),
{
    let ghost views = causes@.map_values(|c: String| c@);
    let mut r = String::from_str(message);
    r.append("\n\n");
    let mut i: usize = 0;
    while i < causes.len()
        invariant
            i <= causes@.len(),
            views == causes@.map_values(|c: String| c@),
            r@ == message@ + "\n\n"@ + causes_text(views.subrange(0, i as int)),
        decreases causes@.len() - i,
    {
        r.append("Caused by:\n\t");
        r.append(causes[i].as_str());
        r.append("\n");
        proof {
            let next = views.subrange(0, i as int + 1);
            assert(next.drop_last() =~= views.subrange(0, i as int));
            assert(next.last() == causes@[i as int]@);
        }
        i += 1;
    }
    assert(views.subrange(0, causes@.len() as int) =~= views);
    r
}

} // verus!
