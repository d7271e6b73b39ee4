//! Error kinds surfaced by the client's core flow.

use vstd::prelude::*;
use vstd::string::StringExecFns;

verus! {

/// Every failure the core flow can report to its caller.
///
/// `Cancelled` is the user declining a selection: callers treat it as a
/// graceful end of the flow, though it travels on the error channel.
pub enum ClientError {
    /// The user aborted a selection screen (Escape or `q`).
    Cancelled,
    /// A network or read failure during an HTTP call, with its description.
    TransportError(String),
    /// The download endpoint served an HTML error page; the payload is the
    /// page body, kept verbatim as the human-readable detail.
    ServerReportedError(String),
    /// A selector was about to be opened over zero items.
    EmptyCollection,
}

impl ClientError {
    /// The message shown to the user for this error.
    pub fn message(&self) -> (m: String)
        ensures
            self is Cancelled ==> m@ == "Selection aborted"@,
            self matches ClientError::TransportError(d) ==> m@ == d@,
            self matches ClientError::ServerReportedError(b) ==> m@ == "Failed to download backup: "@
                + b@,
            self is EmptyCollection ==> m@ == "No items to select from"@,
    {
        match self {
            ClientError::Cancelled => "Selection aborted".to_owned(),
            ClientError::TransportError(d) => d.clone(),
            ClientError::ServerReportedError(b) => "Failed to download backup: ".to_owned().concat(
                b.as_str(),
            ),
            ClientError::EmptyCollection => "No items to select from".to_owned(),
        }
    }
}

} // verus!
