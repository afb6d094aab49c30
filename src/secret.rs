use vstd::prelude::*;

verus! {

/// A secret string (a code verifier, a CSRF token, an access or refresh
/// token). It has no `Debug`: its text is reached only through `secret`, so
/// that printing it is always a visible decision.
#[derive(Clone)]
pub struct Secret {
    value: String,
}

impl View for Secret {
    type V = Seq<char>;

    closed spec fn view(&self) -> Seq<char> {
        self.value@
    }
}

impl Secret {
    /// Wraps `value` as a secret.
    pub fn new(value: String) -> (r: Secret)
        ensures
            r@ == value@,
    {
        Secret { value }
    }

    /// The secret's text.
    pub fn secret(&self) -> (r: &str)
        ensures
            r@ == self@,
    {
        self.value.as_str()
    }

    /// A second copy of the secret.
    pub fn duplicate(&self) -> (r: Secret)
        ensures
            r@ == self@,
    {
        Secret { value: self.value.clone() }
    }
}

} // verus!
