//! The boundary to the HTTP transport (the `ureq` crate). Everything the
//! library learns from the network arrives here as plain values; nothing
//! is assumed about what a call returns.

use vstd::prelude::*;

verus! {

/// `ureq::Agent` carries connection state for the transport; the library
/// only stores it and hands it to the wrappers below.
#[verifier::external_type_specification]
#[verifier::external_body]
pub struct ExAgent(ureq::Agent);

/// `ureq::Request` is a request under construction, built by the wrappers
/// below from the library's request plan.
#[verifier::external_type_specification]
#[verifier::external_body]
pub struct ExRequest(ureq::Request);

/// `ureq::Response` is a raw HTTP response; the wrappers below read it
/// out into plain values.
#[verifier::external_type_specification]
#[verifier::external_body]
pub struct ExResponse(ureq::Response);

/// An HTTP response reduced to plain values: the status code, the three
/// rate-limit headers (absent where the server did not send them), and
/// the body text.
#[derive(Debug)]
pub struct RawHttpResponse {
    pub status: u16,
    pub rate_limit: Option<String>,
    pub rate_limit_remaining: Option<String>,
    pub rate_limit_reset: Option<String>,
    pub body: String,
}

/// The HTTP methods the API is called with.
#[derive(Clone, Copy, PartialEq, Eq, Structural, Debug)]
pub enum HttpMethod {
    Get,
    Post,
    Put,
    Delete,
}

pub open spec fn spec_method_name(m: HttpMethod) -> Seq<char> {
    match m {
        HttpMethod::Get => "GET"@,
        HttpMethod::Post => "POST"@,
        HttpMethod::Put => "PUT"@,
        HttpMethod::Delete => "DELETE"@,
    }
}

/// The request line name of a method.
pub fn method_name(m: HttpMethod) -> (r: &'static str)
    ensures
        r@ == spec_method_name(m),
{
    match m {
        HttpMethod::Get => "GET",
        HttpMethod::Post => "POST",
        HttpMethod::Put => "PUT",
        HttpMethod::Delete => "DELETE",
    }
}

/// Relies on `ureq::Agent::new`: an agent with default settings.
#[verifier::external_body]
pub(crate) fn new_agent() -> ureq::Agent {
    ureq::Agent::new()
}

/// Relies on `ureq::builder` and `ureq::AgentBuilder::timeout`: an agent
/// whose calls give up after the given number of seconds.
#[verifier::external_body]
pub(crate) fn new_agent_with_timeout(timeout_seconds: u64) -> ureq::Agent {
    ureq::builder().timeout(core::time::Duration::from_secs(timeout_seconds)).build()
}

/// Relies on `ureq::Agent::request`: a request builder for the given
/// method name and URL.
#[verifier::external_body]
pub(crate) fn request_new(agent: &ureq::Agent, method: &str, url: &str) -> ureq::Request {
    agent.request(method, url)
}

/// Relies on `ureq::Request::set`: the same request with one header set.
#[verifier::external_body]
pub(crate) fn request_set(q: ureq::Request, header: &str, value: &str) -> ureq::Request {
    q.set(header, value)
}

/// Relies on `ureq::Request::call` and `ureq::OrAnyStatus::or_any_status`:
/// performs one blocking round trip without a body. An HTTP error status
/// still yields a response; only a transport fault is an error, reported
/// as its text.
#[verifier::external_body]
pub(crate) fn request_call(q: ureq::Request) -> Result<ureq::Response, String> {
    match ureq::OrAnyStatus::or_any_status(q.call()) {
        Ok(r) => Ok(r),
        Err(e) => Err(e.to_string()),
    }
}

/// Relies on `ureq::Request::send_string`: as `request_call`, sending the
/// given text as the request body.
#[verifier::external_body]
pub(crate) fn request_send_string(q: ureq::Request, body: &str) -> Result<ureq::Response, String> {
    match ureq::OrAnyStatus::or_any_status(q.send_string(body)) {
        Ok(r) => Ok(r),
        Err(e) => Err(e.to_string()),
    }
}

/// Relies on `ureq::Response::status`: the HTTP status code.
#[verifier::external_body]
pub(crate) fn response_status(r: &ureq::Response) -> u16 {
    r.status()
}

/// Relies on `ureq::Response::header`: the value of the named header,
/// where the response carries it.
#[verifier::external_body]
pub(crate) fn response_header(r: &ureq::Response, name: &str) -> Option<String> {
    match r.header(name) {
        Some(v) => Some(v.to_string()),
        None => None,
    }
}

/// Relies on `ureq::Response::into_string`: the body read as text, or the
/// read error reported as its text.
#[verifier::external_body]
pub(crate) fn response_into_string(r: ureq::Response) -> Result<String, String> {
    match r.into_string() {
        Ok(s) => Ok(s),
        Err(e) => Err(e.to_string()),
    }
}

} // verus!
