use vstd::prelude::*;

verus! {

/// What went wrong with an action call.
///
/// `status_code` is only present when the remote service answered with a
/// non-success HTTP status; transport and decode failures carry no status.
#[derive(Clone, Debug)]
pub struct Error {
    /// A status code, only available if the request gets denied.
    pub status_code: Option<u16>,
    /// A human-readable description of the failure.
    pub error: String,
}

} // verus!
