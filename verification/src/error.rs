//! The error the request-extraction layer reports when no language
//! identifier can be drawn from a request.

use vstd::prelude::*;
use vstd::string::StringExecFns;

verus! {

/// Failure to extract a language identifier from a request.
#[derive(Debug)]
pub struct LanguageIdentifierExtractorError {}

impl LanguageIdentifierExtractorError {
    /// A human-readable description of the failure.
    pub fn message(&self) -> (r: String)
        ensures
            r@ == "Failed to extract language identifier from request."@,
    {
        String::from_str("Failed to extract language identifier from request.")
    }
}

} // verus!
