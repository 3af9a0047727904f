//! What an HTTP client reports when a call, or the reading of a response,
//! fails.

use vstd::prelude::*;

verus! {

/// `reqwest::Error`, the error type of the HTTP client. Nothing inside it is
/// visible here.
#[verifier::external_type_specification]
#[verifier::external_body]
pub struct ExClientError(reqwest::Error);

/// `reqwest::Error::is_timeout` tells whether the error goes back to a
/// deadline that ran out. It walks the error's chain of causes and returns;
/// nothing is claimed of its answer.
pub assume_specification[ reqwest::Error::is_timeout ](error: &reqwest::Error) -> (timed_out: bool)
;

/// A failure of the HTTP client, in plain values.
#[derive(Debug, PartialEq, Eq)]
pub struct Fault {
    /// A connect or read deadline ran out.
    pub timed_out: bool,
    /// The client's own description of the failure.
    pub detail: String,
}

impl Fault {
    /// Reads off a client error what the classification goes by: whether the
    /// client puts it down to a deadline, and the client's description of it.
    ///
    /// The description is the text that the error displays as. Which errors
    /// the client puts down to a deadline is the client's affair, and nothing
    /// is promised of it here.
    pub fn observe(error: &reqwest::Error) -> (fault: Fault)
        ensures
            vstd::string::to_string_from_display_ensures::<reqwest::Error>(error, fault.detail),
    {
        let timed_out = error.is_timeout();
        let detail = error.to_string();
        Fault { timed_out, detail }
    }
}

} // verus!
