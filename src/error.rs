use vstd::prelude::*;

verus! {

/// What can stop the monitor before its loop starts.
#[derive(Debug, Clone, PartialEq, Eq)]
pub enum MonitorError {
    /// A target URL could not be built; holds the text that failed.
    InvalidUrl(String),
    /// The HTTP client could not be set up; holds its message.
    Request(String),
}

} // verus!
