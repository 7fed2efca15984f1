//! The HTTP client handle that providers carry, and the status classes they act on.
use vstd::prelude::*;

verus! {

/// The HTTP client of `reqwest`.
#[verifier::external_type_specification]
#[verifier::external_body]
pub struct ExReqwestClient(reqwest::Client);

/// Calls `reqwest::Client::new`, which builds a client with default settings. Nothing is
/// stated of the client. The outside function panics when no TLS backend or resolver
/// configuration can be loaded, which depends on the machine, not on an argument.
#[verifier::external_body]
pub(crate) fn new_http_client() -> reqwest::Client {
    reqwest::Client::new()
}

/// A 2xx status, as `StatusCode::is_success` tells.
pub open spec fn is_success_status(status: u16) -> bool {
    200 <= status <= 299
}

} // verus!
