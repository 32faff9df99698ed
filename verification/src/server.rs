//! Per-request logic of the greeting web server. The listener, the route
//! table registration and the logging/metrics middleware live in the binary;
//! what each request is answered with, and which requests the metrics
//! middleware must skip, is decided here.

use vstd::prelude::*;
use vstd::string::*;
use crate::greeting;

verus! {

/// The fixed loopback endpoint the server binds to.
pub fn bind_address() -> (r: &'static str)
    ensures
        r@ == "127.0.0.1:8080"@,
{
    "127.0.0.1:8080"
}

/// HTTP status code for a successful response.
pub const STATUS_OK: u16 = 200;

/// What a greeting route answers: a status code and a plain-text body.
pub struct Response {
    pub status: u16,
    pub body: String,
}

/// Answers one greeting request. `name` is the captured path segment: absent
/// for the root route, present (already path-decoded) for the single-segment
/// route. Every request succeeds: status 200 and the greeting as body.
pub fn handle_greet(name: Option<String>) -> (r: Response)
    ensures
        r.status == STATUS_OK,
        r.body@ == greeting::spec_greet(name.deep_view()),
{
    Response { status: STATUS_OK, body: greeting::greet(name) }
}

/// The metrics scrape endpoint is left out of request instrumentation, so
/// that scraping the metrics does not itself move the metrics: exactly the
/// `GET` requests for `/metrics` are excluded.
pub fn excluded_from_metrics(path: &String, is_get: bool) -> (r: bool)
    ensures
        r == (path@ == "/metrics"@ && is_get),
{
    is_get && *path == String::from_str("/metrics")
}

} // verus!
