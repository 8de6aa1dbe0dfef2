use vstd::prelude::*;

verus! {

/// The marker that stands for a secret wherever it is rendered as text.
pub open spec fn redaction_marker() -> Seq<char> {
    "***"@
}

/// A string whose rendering never shows its characters: tokens and credentials are
/// kept in it so that they do not end up in logs.
#[derive(Clone, Eq)]
pub struct Secret(pub String);

impl View for Secret {
    type V = Seq<char>;

    open spec fn view(&self) -> Seq<char> {
        self.0@
    }
}

/// Two secrets are equal exactly when their texts are: redaction only touches rendering.
impl PartialEq for Secret {
    fn eq(&self, other: &Secret) -> (r: bool) {
        self.0 == other.0
    }
}

impl vstd::std_specs::cmp::PartialEqSpecImpl for Secret {
    open spec fn obeys_eq_spec() -> bool {
        true
    }

    open spec fn eq_spec(&self, other: &Secret) -> bool {
        self@ == other@
    }
}

impl Secret {
    /// Wraps a string.
    pub fn from(s: String) -> (r: Secret)
        ensures
            r@ == s@,
    {
        Secret(s)
    }

    /// The wrapped text, for programmatic use.
    pub fn as_str(&self) -> (r: &str)
        ensures
            r@ == self@,
    {
        self.0.as_str()
    }

    /// What any human-readable rendering of the secret shows: the redaction marker,
    /// whatever the wrapped text is.
    pub fn redacted(&self) -> (r: String)
        ensures
            r@ == redaction_marker(),
    {
        String::from_str("***")
    }
}

} // verus!
