//! Session error values.
//!
//! An error either tears the session down with a close reason, or asks the
//! caller to skip the offending frame and continue.

use vstd::prelude::*;

verus! {

/// A session-level error.  `close` says whether the session must end; the
/// optional `reason` becomes the payload of the close frame shown to the
/// client.
#[derive(Debug)]
pub struct Error {
    pub close: bool,
    pub reason: Option<String>,
}

impl Error {
    /// A transient error: skip the frame and continue.
    pub fn ignore() -> (r: Error)
        ensures
            !r.close,
            r.reason is None,
    {
        Error { close: false, reason: None }
    }

    /// A fatal error carrying the close reason for the client.
    pub fn fatal(reason: String) -> (r: Error)
        ensures
            r.close,
            r.reason matches Some(s) && s@ == reason@,
    {
        Error { close: true, reason: Some(reason) }
    }

    /// Replace the human-readable context of the error, keeping its severity.
    pub fn ctx(self, context: &str) -> (r: Error)
        ensures
            r.close == self.close,
            r.reason matches Some(s) && s@ == context@,
    {
        Error { close: self.close, reason: Some(context.to_owned()) }
    }

    /// The text shown for this error: its reason, or `Unknown`.
    pub fn message(&self) -> (r: String)
        ensures
            match self.reason {
                Some(s) => r@ == s@,
                None => r@ == "Unknown"@,
            },
    {
        match &self.reason {
            Some(s) => s.clone(),
            None => "Unknown".to_owned(),
        }
    }
}

} // verus!
