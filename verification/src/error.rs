//! The error triple reported by the foreign engine: a domain, a code and a
//! message, carried through unmodified.

use vstd::prelude::*;

verus! {

/// An error reported by the engine, as an independently owned value.
#[derive(Debug)]
pub struct Error {
    /// The domain the error belongs to.
    pub domain: u32,
    /// The error code within its domain.
    pub code: i32,
    /// The human-readable message.
    pub message: String,
}

impl Error {
    pub fn new(domain: u32, code: i32, message: &str) -> (e: Error)
        ensures
            e.domain == domain,
            e.code == code,
            e.message@ == message@,
    {
        Error { domain, code, message: message.to_owned() }
    }

    pub fn message(&self) -> (m: &str)
        ensures
            m@ == self.message@,
    {
        self.message.as_str()
    }

    pub fn code(&self) -> (c: i32)
        ensures
            c == self.code,
    {
        self.code
    }

    pub fn domain(&self) -> (d: u32)
        ensures
            d == self.domain,
    {
        self.domain
    }

    /// An independently owned copy.
    pub fn duplicate(&self) -> (e: Error)
        ensures
            e.domain == self.domain,
            e.code == self.code,
            e.message@ == self.message@,
    {
        Error { domain: self.domain, code: self.code, message: self.message.clone() }
    }
}

impl PartialEq for Error {
    fn eq(&self, other: &Error) -> (r: bool) {
        self.domain == other.domain && self.code == other.code && self.message == other.message
    }
}

impl vstd::std_specs::cmp::PartialEqSpecImpl for Error {
    open spec fn obeys_eq_spec() -> bool {
        true
    }

    open spec fn eq_spec(&self, other: &Error) -> bool {
        self.domain == other.domain && self.code == other.code && self.message@ == other.message@
    }
}

} // verus!
