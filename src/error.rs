//! The single error kind of the locations endpoints.
use vstd::prelude::*;
use vstd::string::StringExecFns;

verus! {

/// The text placed before every error message when it is shown.
pub open spec fn error_prefix() -> Seq<char> {
    "A validation error occured on the input: "@
}

/// A failed request: carries a human-readable message and nothing else.
#[derive(Debug, Clone, PartialEq, Eq)]
pub struct LocationsError(pub String);

impl View for LocationsError {
    type V = Seq<char>;

    open spec fn view(&self) -> Seq<char> {
        self.0@
    }
}

impl LocationsError {
    /// Builds the error from a message.
    pub fn new(message: &str) -> (r: LocationsError)
        ensures
            r@ == message@,
    {
        LocationsError(String::from_str(message))
    }

    /// The text shown for this error: a fixed prefix, then the message.
    pub fn describe(&self) -> (r: String)
        ensures
            r@ == error_prefix() + self@,
    {
        let prefix = String::from_str("A validation error occured on the input: ");
        prefix.concat(self.0.as_str())
    }
}

} // verus!
