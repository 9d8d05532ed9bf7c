use vstd::prelude::*;
use vstd::string::StringSliceAdditionalSpecFns;
use vstd::utf8::*;

verus! {

broadcast use vstd::utf8::group_utf8_lib;

/// The kinds of appointment that can be booked.
#[derive(Debug, PartialEq, Eq, Clone, Copy)]
pub enum ConsultationType {
    CheckUp,
    FollowUp,
    Whitening,
    Filling,
    Extraction,
    Braces,
    Implants,
}

/// The consultation type that the stored text `t` names. `FollowUp` is
/// stored as `Follow Up`.
pub open spec fn consultation_type_named(t: Seq<char>) -> Option<ConsultationType> {
    if t == "CheckUp"@ {
        Some(ConsultationType::CheckUp)
    } else if t == "Follow Up"@ {
        Some(ConsultationType::FollowUp)
    } else if t == "Whitening"@ {
        Some(ConsultationType::Whitening)
    } else if t == "Filling"@ {
        Some(ConsultationType::Filling)
    } else if t == "Extraction"@ {
        Some(ConsultationType::Extraction)
    } else if t == "Braces"@ {
        Some(ConsultationType::Braces)
    } else if t == "Implants"@ {
        Some(ConsultationType::Implants)
    } else {
        None
    }
}

/// The name under which a consultation type is written out: its variant name.
pub open spec fn consultation_type_name(c: ConsultationType) -> Seq<char> {
    match c {
        ConsultationType::CheckUp => "CheckUp"@,
        ConsultationType::FollowUp => "FollowUp"@,
        ConsultationType::Whitening => "Whitening"@,
        ConsultationType::Filling => "Filling"@,
        ConsultationType::Extraction => "Extraction"@,
        ConsultationType::Braces => "Braces"@,
        ConsultationType::Implants => "Implants"@,
    }
}

/// Whether two strings hold the same text, compared byte by byte.
pub fn same_text(a: &str, b: &str) -> (r: bool)
    ensures
        r == (a@ == b@),
{
    let x = a.as_bytes();
    let y = b.as_bytes();
    proof {
        assert(x@ == a.spec_bytes() && y@ == b.spec_bytes());
        encode_utf8_decode_utf8(a@);
        encode_utf8_decode_utf8(b@);
    }
    if x.len() != y.len() {
        return false;
    }
    let mut i: usize = 0;
    while i < x.len()
        invariant
            x@ == a.spec_bytes(),
            y@ == b.spec_bytes(),
            x@.len() == y@.len(),
            i <= x@.len(),
            forall|j: int| 0 <= j < i ==> x@[j] == y@[j],
        decreases x@.len() - i,
    {
        if x[i] != y[i] {
            return false;
        }
        i += 1;
    }
    assert(x@ =~= y@);
    true
}

impl ConsultationType {
    /// The consultation type named by stored text, `None` for any other text.
    pub fn from_name(s: &str) -> (r: Option<ConsultationType>)
        ensures
            r == consultation_type_named(s@),
    {
        if same_text(s, "CheckUp") {
            Some(ConsultationType::CheckUp)
        } else if same_text(s, "Follow Up") {
            Some(ConsultationType::FollowUp)
        } else if same_text(s, "Whitening") {
            Some(ConsultationType::Whitening)
        } else if same_text(s, "Filling") {
            Some(ConsultationType::Filling)
        } else if same_text(s, "Extraction") {
            Some(ConsultationType::Extraction)
        } else if same_text(s, "Braces") {
            Some(ConsultationType::Braces)
        } else if same_text(s, "Implants") {
            Some(ConsultationType::Implants)
        } else {
            None
        }
    }

    /// The variant's name, as the type is written out.
    pub fn name(&self) -> (r: &'static str)
        ensures
            r@ == consultation_type_name(*self),
    {
        match self {
            ConsultationType::CheckUp => "CheckUp",
            ConsultationType::FollowUp => "FollowUp",
            ConsultationType::Whitening => "Whitening",
            ConsultationType::Filling => "Filling",
            ConsultationType::Extraction => "Extraction",
            ConsultationType::Braces => "Braces",
            ConsultationType::Implants => "Implants",
        }
    }
}

/// A login request.
pub struct Login {
    pub email: String,
    pub remember_me: bool,
}

/// The claims of an issued token: its subject and its expiry.
pub struct Claims {
    pub sub: String,
    pub exp: usize,
}

/// A registration request.
pub struct Register {
    pub name: String,
    pub email: String,
}

} // verus!
