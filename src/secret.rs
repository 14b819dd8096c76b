use vstd::prelude::*;

verus! {

/// The fixed text that stands for any secret value when it is formatted.
pub open spec fn redacted_text() -> Seq<char> {
    "Secret(\"*****\")"@
}

/// A wrapper around a sensitive value whose textual form never shows the value.
///
/// Equality, ordering and hashing go to the wrapped value; `expose` is the one
/// way to read it.
#[derive(Clone, Copy, PartialEq, Eq, PartialOrd, Ord, Hash)]
pub struct Secret<T>(pub T);

impl<T> From<T> for Secret<T> {
    fn from(value: T) -> (r: Self)
        ensures
            r.0 == value,
    {
        Secret(value)
    }
}

impl<T> vstd::std_specs::convert::FromSpecImpl<T> for Secret<T> {
    open spec fn obeys_from_spec() -> bool {
        true
    }

    open spec fn from_spec(v: T) -> Self {
        Secret(v)
    }
}

impl<T> Secret<T> {
    /// Reveals the wrapped value.
    pub fn expose(&self) -> (r: &T)
        ensures
            *r == self.0,
    {
        &self.0
    }

    /// The debug form: the same fixed text whatever the wrapped value is.
    pub fn debug_string(&self) -> (r: String)
        ensures
            r@ == redacted_text(),
    {
        String::from_str("Secret(\"*****\")")
    }

    /// The display form, identical to the debug form.
    pub fn to_string(&self) -> (r: String)
        ensures
            r@ == redacted_text(),
    {
        self.debug_string()
    }
}

} // verus!
