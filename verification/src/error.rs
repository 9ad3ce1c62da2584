//! Error values surfaced to callers: plain application errors
//! (configuration and protocol failures) and structured errors decoded
//! from a rejecting backend response.

use vstd::prelude::*;
use vstd::string::StringExecFns;

verus! {

/// A single-line, human-readable application error.
#[derive(Debug)]
pub struct ApplicationError {
    pub message: String,
}

/// The `{code, message}` envelope of a rejecting backend response,
/// surfaced verbatim.
#[derive(Debug)]
pub struct ApiResultError {
    pub code: String,
    pub message: String,
}

impl ApplicationError {
    /// Builds an error from its message.
    pub fn new(message: &str) -> (r: ApplicationError)
        ensures
            r.message@ == message@,
    {
        ApplicationError { message: message.to_owned() }
    }

    /// The error text shown to the user.
    pub fn describe(&self) -> (r: String)
        ensures
            r@ == self.message@,
    {
        self.message.clone()
    }
}

impl ApiResultError {
    /// Builds an error from the decoded code and message.
    pub fn new(code: &str, message: &str) -> (r: ApiResultError)
        ensures
            r.code@ == code@,
            r.message@ == message@,
    {
        ApiResultError { code: code.to_owned(), message: message.to_owned() }
    }

    /// The error text shown to the user: the code, then the message.
    pub fn describe(&self) -> (r: String)
        ensures
            r@ == self.code@ + ": "@ + self.message@,
    {
        let mut r = self.code.clone();
        r.append(": ");
        r.append(self.message.as_str());
        r
    }
}

} // verus!
