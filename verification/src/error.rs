//! Error taxonomy: every fallible operation of the crate reports a typed error
//! with enough context to diagnose a markup-format drift without a debugger.

use vstd::prelude::*;

verus! {

/// An expected structural element was absent from a scraped document.
///
/// Carries a description of what was expected, because markup drift in the
/// remote platform is the dominant failure mode and must be diagnosable from
/// the error alone.
#[derive(Debug, Clone, PartialEq, Eq)]
pub struct ParseError {
    pub expected: String,
}

impl ParseError {
    pub fn new(expected: &str) -> (r: ParseError)
        ensures
            r.expected@ == expected@,
    {
        ParseError { expected: expected.to_owned() }
    }

    /// Human-readable description of the missing structural element.
    pub fn message(&self) -> (r: String)
        ensures
            r@ == self.expected@,
    {
        self.expected.clone()
    }
}

/// No id-bearing pattern matched a query path.
#[derive(Debug, Clone, PartialEq, Eq)]
pub struct AddressParseError {
    pub querypath: String,
}

/// A step of the federated-login handshake failed.
#[derive(Debug, Clone, PartialEq, Eq)]
pub enum AuthError {
    /// The continuation page carried no signed assertion token.
    AssertionNotFound,
    /// The login page's credential form had no action endpoint.
    MissingFormAction,
    /// The CSRF input was present but carried no value.
    MissingCsrfValue,
    /// The final response status was not a success.
    LoginRejected,
}

/// Misuse of a lazy reference.
#[derive(Debug, Clone, PartialEq, Eq)]
pub enum ReferenceError {
    /// The reference's parent determined that no such resource exists.
    Unavailable,
}

} // verus!
