use vstd::prelude::*;

use crate::text::str_starts_with;

verus! {

/// Connect, read and write timeout of one probe, in milliseconds.
pub const PROBE_IO_TIMEOUT_MS: u64 = 300;

/// A response reports a healthy backend exactly when its status line
/// starts with an HTTP/1.1 or HTTP/1.0 `200` status.
pub open spec fn healthy_response(response: Seq<char>) -> bool {
    "HTTP/1.1 200"@.is_prefix_of(response) || "HTTP/1.0 200"@.is_prefix_of(response)
}

/// The fixed local address probed for backend health.
pub fn health_address() -> (r: String)
    ensures
        r@ == "127.0.0.1:8000"@,
{
    String::from_str("127.0.0.1:8000")
}

/// The single bounded HTTP request sent by one health probe: a GET for
/// the fixed health path, closing the connection after the response.
pub fn health_request() -> (r: String)
    ensures
        r@ == "GET /health HTTP/1.1\r\nHost: 127.0.0.1:8000\r\nConnection: close\r\n\r\n"@,
{
    String::from_str("GET /health HTTP/1.1\r\nHost: 127.0.0.1:8000\r\nConnection: close\r\n\r\n")
}

/// Classifies the bytes read back by one probe.  Success is determined
/// solely by the status line prefix; the body is ignored, and an empty
/// response is unhealthy.
pub fn response_indicates_healthy(response: &str) -> (r: bool)
    ensures
        r == healthy_response(response@),
{
    str_starts_with(response, "HTTP/1.1 200") || str_starts_with(response, "HTTP/1.0 200")
}

} // verus!
