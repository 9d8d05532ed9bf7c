use vstd::prelude::*;

verus! {

/// A string whose contents are never rendered: the type has no `Debug` and
/// no `Display`, and the text leaves it only through `expose_secret`.
pub struct SecretString {
    inner: String,
}

impl View for SecretString {
    type V = Seq<char>;

    closed spec fn view(&self) -> Seq<char> {
        self.inner@
    }
}

impl SecretString {
    pub fn new(s: String) -> (r: SecretString)
        ensures
            r@ == s@,
    {
        SecretString { inner: s }
    }

    /// The held text, for the one place that compares it.
    pub fn expose_secret(&self) -> (r: &str)
        ensures
            r@ == self@,
    {
        self.inner.as_str()
    }
}

} // verus!
