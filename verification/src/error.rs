//! The error returned when a free-form string names no known hardfork.

use vstd::prelude::*;

verus! {

/// Error produced when parsing a hardfork name fails.  It carries a
/// descriptive message that includes the offending text.
#[derive(Debug)]
pub struct ParseHardforkError {
    msg: String,
}

impl ParseHardforkError {
    /// Creates a new hardfork parse error with the given message.
    pub fn new(msg: String) -> (r: ParseHardforkError)
        ensures
            r.spec_message() == msg@,
    {
        ParseHardforkError { msg }
    }

    /// The error message, as a sequence of characters.
    pub closed spec fn spec_message(&self) -> Seq<char> {
        self.msg@
    }

    /// Returns the error message.
    pub fn message(&self) -> (r: &str)
        ensures
            r@ == self.spec_message(),
    {
        self.msg.as_str()
    }
}

} // verus!
