//! Classification of the transport outcome of the status request.
//!
//! The request itself is network work and stays outside the library; the
//! caller hands in either the received status code and body, or the
//! description of a transport failure. The rule proved here is the one
//! the client lives by: any received response is reported by its body
//! alone, whatever its status code, and only a transport failure is
//! reported as an error.

use vstd::prelude::*;

verus! {

/// What one status request came to: the response body as text, or the
/// description of a transport failure.
#[derive(Debug, PartialEq, Eq)]
pub enum FetchOutcome {
    /// The body of a received response, whatever its status code.
    Response(String),
    /// A transport failure: no response was received.
    NetworkError(String),
}

/// The reported outcome for a transport result: the body of any received
/// response, the failure's description otherwise. The status code plays
/// no part.
pub open spec fn spec_outcome(transport: Result<(u16, String), String>) -> FetchOutcome {
    match transport {
        Ok(p) => FetchOutcome::Response(p.1),
        Err(e) => FetchOutcome::NetworkError(e),
    }
}

/// Turns the transport result of the status request into the reported
/// outcome.
pub fn classify_response(transport: Result<(u16, String), String>) -> (r: FetchOutcome)
    ensures
        r == spec_outcome(transport),
{
    match transport {
        Ok(p) => FetchOutcome::Response(p.1),
        Err(e) => FetchOutcome::NetworkError(e),
    }
}

/// The status code has no effect on the outcome: two responses with the
/// same body are reported alike, whatever their codes.
pub proof fn lemma_status_ignored(a: u16, b: u16, body: String)
    ensures
        spec_outcome(Ok((a, body))) == spec_outcome(Ok((b, body))),
{
}

/// A transport failure is reported as a network error carrying its
/// description, never as a response body.
pub proof fn lemma_transport_failure_no_body(e: String)
    ensures
        spec_outcome(Err(e)) == FetchOutcome::NetworkError(e),
        !(spec_outcome(Err(e)) is Response),
{
}

} // verus!
