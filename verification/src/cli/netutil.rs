//! The outcome of pinging a URI.
use vstd::prelude::*;
use std::time::Duration;
use crate::text::owned;

verus! {

/// The outcome of one ping: the status text, the time taken, and the error
/// of a failed request.
#[derive(Debug)]
pub struct PingResult {
    pub status_text: String,
    pub latency: Duration,
    pub error: Option<String>,
}

/// The status a failed ping reports: `Gateway Timeout` for a timeout,
/// `Bad Gateway` otherwise.
pub fn failure_status(is_timeout: bool) -> (r: &'static str)
    ensures
        r@ == (if is_timeout {
            "Gateway Timeout"@
        } else {
            "Bad Gateway"@
        }),
{
    if is_timeout {
        "Gateway Timeout"
    } else {
        "Bad Gateway"
    }
}

impl PingResult {
    /// A ping answered with `status_text`.
    pub fn answered(status_text: String, latency: Duration) -> (r: PingResult)
        ensures
            r.status_text == status_text,
            r.latency == latency,
            r.error is None,
    {
        PingResult { status_text, latency, error: None }
    }

    /// A ping that failed with `error`, timed out or not.
    pub fn failed(is_timeout: bool, latency: Duration, error: String) -> (r: PingResult)
        ensures
            r.status_text@ == (if is_timeout {
                "Gateway Timeout"@
            } else {
                "Bad Gateway"@
            }),
            r.latency == latency,
            r.error == Some(error),
    {
        PingResult { status_text: owned(failure_status(is_timeout)), latency, error: Some(error) }
    }
}

} // verus!
