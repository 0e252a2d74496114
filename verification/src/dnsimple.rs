//! Client configuration for the DNSimple API and the uniform response
//! envelope shared by every endpoint.

use vstd::prelude::*;

use crate::dnsimple::http::{HttpMethod, RawHttpResponse};

pub mod accounts;
pub mod domains;
pub mod http;
pub mod identity;
pub mod json;
pub mod oauth;
pub mod registrar_name_servers;
pub mod text;
pub mod tlds;
pub mod vanity_name_servers;

verus! {

pub const VERSION: &'static str = "0.1.0";

pub const DEFAULT_USER_AGENT: &'static str = "dnsimple-rust/";

pub const API_VERSION: &'static str = "v2";

pub const DEFAULT_BASE_URL: &'static str = "https://api.dnsimple.com";

pub const DEFAULT_SANDBOX_URL: &'static str = "https://api.sandbox.dnsimple.com";

/// The entry point to the DNSimple API: connection-level configuration
/// (base URL, bearer token, user agent) together with the HTTP agent that
/// performs the calls. A client is safe to reuse across sequential
/// calls; it is not meant for concurrent mutation of the base URL.
pub struct Client {
    pub base_url: String,
    pub user_agent: String,
    pub auth_token: String,
    pub agent: ureq::Agent,
}

impl Client {
    /// The versioned root of the API: the base URL followed by "/v2".
    pub open spec fn spec_versioned_url(&self) -> Seq<char> {
        self.base_url@ + "/"@ + API_VERSION@
    }

    /// The full URL of an endpoint: the versioned root followed by the path.
    pub open spec fn spec_url(&self, path: Seq<char>) -> Seq<char> {
        self.spec_versioned_url() + path
    }

    /// Changes the base URL at runtime (used to route calls to another
    /// host, for example a sandbox while testing).
    pub fn set_base_url(&mut self, url: &str)
        ensures
            final(self).base_url@ == url@,
            final(self).user_agent == old(self).user_agent,
            final(self).auth_token == old(self).auth_token,
            final(self).agent == old(self).agent,
    {
        self.base_url = String::from_str(url);
    }

    /// Builder-style alternative to `set_base_url`: a client equal to
    /// this one but for the base URL, leaving no shared state mutated.
    pub fn with_base_url(self, url: &str) -> (r: Client)
        ensures
            r.base_url@ == url@,
            r.user_agent == self.user_agent,
            r.auth_token == self.auth_token,
            r.agent == self.agent,
    {
        Client { base_url: String::from_str(url), ..self }
    }

    /// Returns the current url (including the `API_VERSION` as part of
    /// the path).
    pub fn versioned_url(&self) -> (url: String)
        ensures
            url@ == self.spec_versioned_url(),
    {
        let mut url = String::from_str(self.base_url.as_str());
        url.append("/");
        url.append(API_VERSION);
        url
    }

    fn url(&self, path: &str) -> (url: String)
        ensures
            url@ == self.spec_url(path@),
    {
        let mut url = self.versioned_url();
        url.append(path);
        url
    }

    /// Returns the `accounts` service attached to this client.
    pub fn accounts(&self) -> (s: accounts::Accounts<'_>)
        ensures
            s.client == self,
    {
        accounts::Accounts { client: self }
    }

    /// Returns the `identity` service attached to this client.
    pub fn identity(&self) -> (s: identity::Identity<'_>)
        ensures
            s.client == self,
    {
        identity::Identity { client: self }
    }

    /// Returns the `domains` service attached to this client.
    pub fn domains(&self) -> (s: domains::Domains<'_>)
        ensures
            s.client == self,
    {
        domains::Domains { client: self }
    }

    /// Returns the `oauth` service attached to this client.
    pub fn oauth(&self) -> (s: oauth::Oauth<'_>)
        ensures
            s.client == self,
    {
        oauth::Oauth { client: self }
    }

    /// Returns the `tlds` service attached to this client.
    pub fn tlds(&self) -> (s: tlds::Tlds<'_>)
        ensures
            s.client == self,
    {
        tlds::Tlds { client: self }
    }

    /// Returns the `vanity name servers` service attached to this
    /// client.
    pub fn vanity_name_servers(&self) -> (s: vanity_name_servers::VanityNameServers<'_>)
        ensures
            s.client == self,
    {
        vanity_name_servers::VanityNameServers { client: self }
    }

    /// The value of the Authorization header: the bearer token.
    pub open spec fn spec_authorization(&self) -> Seq<char> {
        "Bearer "@ + self.auth_token@
    }

    /// The request plan a builder hands to the dispatcher, checked field
    /// by field: the full URL, the configured user agent, and the bearer
    /// authorization.
    pub open spec fn spec_request(&self, req: ApiRequest, method: HttpMethod, path: Seq<char>) -> bool {
        &&& req.method == method
        &&& req.url@ == self.spec_url(path)
        &&& req.user_agent@ == self.user_agent@
        &&& req.authorization@ == self.spec_authorization()
    }

    fn build_get_request(&self, path: &str) -> (req: ApiRequest)
        ensures
            self.spec_request(req, HttpMethod::Get, path@),
            req.body is None,
    {
        let request = ApiRequest {
            method: HttpMethod::Get,
            url: self.url(path),
            user_agent: self.user_agent.clone(),
            authorization: String::new(),
            body: None,
        };
        self.add_headers_to_request(request)
    }

    fn build_post_request(&self, path: &str, data: &str) -> (req: ApiRequest)
        ensures
            self.spec_request(req, HttpMethod::Post, path@),
            req.body matches Some(b) && b@ == data@,
    {
        let request = ApiRequest {
            method: HttpMethod::Post,
            url: self.url(path),
            user_agent: self.user_agent.clone(),
            authorization: String::new(),
            body: Some(String::from_str(data)),
        };
        self.add_headers_to_request(request)
    }

    fn build_put_request(&self, path: &str, data: &str) -> (req: ApiRequest)
        ensures
            self.spec_request(req, HttpMethod::Put, path@),
            req.body matches Some(b) && b@ == data@,
    {
        let request = ApiRequest {
            method: HttpMethod::Put,
            url: self.url(path),
            user_agent: self.user_agent.clone(),
            authorization: String::new(),
            body: Some(String::from_str(data)),
        };
        self.add_headers_to_request(request)
    }

    fn build_delete_request(&self, path: &str) -> (req: ApiRequest)
        ensures
            self.spec_request(req, HttpMethod::Delete, path@),
            req.body is None,
    {
        let request = ApiRequest {
            method: HttpMethod::Delete,
            url: self.url(path),
            user_agent: self.user_agent.clone(),
            authorization: String::new(),
            body: None,
        };
        self.add_headers_to_request(request)
    }

    fn add_headers_to_request(&self, request: ApiRequest) -> (req: ApiRequest)
        ensures
            req.authorization@ == self.spec_authorization(),
            req.method == request.method,
            req.url == request.url,
            req.user_agent == request.user_agent,
            req.body == request.body,
    {
        let auth_token = String::from_str("Bearer ").concat(self.auth_token.as_str());
        ApiRequest { authorization: auth_token, ..request }
    }

    /// Performs one HTTP round trip for the given plan. Nothing is known
    /// of the network, so nothing is promised of a returned response; a
    /// failure is always a transport failure.
    fn dispatch(&self, req: &ApiRequest) -> (r: Result<RawHttpResponse, DNSimpleError>)
        ensures
            r matches Err(e) ==> e is Transport,
    {
        let q = http::request_new(&self.agent, http::method_name(req.method), req.url.as_str());
        let q = http::request_set(q, "User-Agent", req.user_agent.as_str());
        let q = http::request_set(q, "Accept", "application/json");
        let q = http::request_set(q, "Authorization", req.authorization.as_str());
        let outcome = match &req.body {
            Some(b) => http::request_send_string(q, b.as_str()),
            None => http::request_call(q),
        };
        match outcome {
            Ok(resp) => {
                let status = http::response_status(&resp);
                let rate_limit = http::response_header(&resp, "X-RateLimit-Limit");
                let rate_limit_remaining = http::response_header(&resp, "X-RateLimit-Remaining");
                let rate_limit_reset = http::response_header(&resp, "X-RateLimit-Reset");
                match http::response_into_string(resp) {
                    Ok(body) => Ok(
                        RawHttpResponse {
                            status,
                            rate_limit,
                            rate_limit_remaining,
                            rate_limit_reset,
                            body,
                        },
                    ),
                    Err(detail) => Err(DNSimpleError::Transport { detail }),
                }
            },
            Err(detail) => Err(DNSimpleError::Transport { detail }),
        }
    }

    /// Sends a GET request to the DNSimple API.
    pub fn get<T>(&self, path: &str) -> (r: Result<APIResponse<T>, DNSimpleError>)
        ensures
            r matches Ok(a) ==> spec_envelope_matches(a.response, a.raw_http_response)
                && a.response.data is None && a.response.message is None,
            r matches Err(e) ==> e is Transport,
    {
        let request = self.build_get_request(path);
        match self.dispatch(&request) {
            Ok(raw) => {
                let response = Self::build_dnsimple_response(&raw);
                Ok(APIResponse { response, raw_http_response: raw })
            },
            Err(e) => Err(e),
        }
    }

    /// Sends a POST request to the DNSimple API; `data` is the JSON text
    /// of the payload.
    pub fn post<T>(&self, path: &str, data: &str) -> (r: Result<APIResponse<T>, DNSimpleError>)
        ensures
            r matches Ok(a) ==> spec_envelope_matches(a.response, a.raw_http_response)
                && a.response.data is None && a.response.message is None,
            r matches Err(e) ==> e is Transport,
    {
        let request = self.build_post_request(path, data);
        match self.dispatch(&request) {
            Ok(raw) => {
                let response = Self::build_dnsimple_response(&raw);
                Ok(APIResponse { response, raw_http_response: raw })
            },
            Err(e) => Err(e),
        }
    }

    /// Sends a PUT request to the DNSimple API; `data` is the JSON text
    /// of the payload.
    pub fn put<T>(&self, path: &str, data: &str) -> (r: Result<APIResponse<T>, DNSimpleError>)
        ensures
            r matches Ok(a) ==> spec_envelope_matches(a.response, a.raw_http_response)
                && a.response.data is None && a.response.message is None,
            r matches Err(e) ==> e is Transport,
    {
        let request = self.build_put_request(path, data);
        match self.dispatch(&request) {
            Ok(raw) => {
                let response = Self::build_dnsimple_response(&raw);
                Ok(APIResponse { response, raw_http_response: raw })
            },
            Err(e) => Err(e),
        }
    }

    /// Sends a DELETE request to the DNSimple API. No body is expected
    /// back, so the envelope can hold neither a payload nor an error.
    pub fn delete(&self, path: &str) -> (r: Result<DNSimpleEmptyResponse, DNSimpleError>)
        ensures
            r matches Err(e) ==> e is Transport,
    {
        let request = self.build_delete_request(path);
        match self.dispatch(&request) {
            Ok(raw) => Ok(Self::build_empty_dnsimple_response(&raw)),
            Err(e) => Err(e),
        }
    }

    /// Builds the uniform envelope from a raw response, regardless of the
    /// payload type: rate-limit headers (empty where absent) and status
    /// are copied; the payload and message slots start empty.
    pub fn build_dnsimple_response<T>(raw: &RawHttpResponse) -> (r: DNSimpleResponse<T>)
        ensures
            spec_envelope_matches(r, *raw),
            r.data is None,
            r.message is None,
    {
        DNSimpleResponse {
            rate_limit: header_or_empty(&raw.rate_limit),
            rate_limit_remaining: header_or_empty(&raw.rate_limit_remaining),
            rate_limit_reset: header_or_empty(&raw.rate_limit_reset),
            status: raw.status,
            data: None,
            message: None,
        }
    }

    /// As `build_dnsimple_response`, for operations that return no body:
    /// the resulting envelope has no payload slot and no error slot at
    /// all, whatever the status.
    pub fn build_empty_dnsimple_response(raw: &RawHttpResponse) -> (r: DNSimpleEmptyResponse)
        ensures
            spec_empty_envelope_matches(r, *raw),
    {
        DNSimpleEmptyResponse {
            rate_limit: header_or_empty(&raw.rate_limit),
            rate_limit_remaining: header_or_empty(&raw.rate_limit_remaining),
            rate_limit_reset: header_or_empty(&raw.rate_limit_reset),
            status: raw.status,
        }
    }
}

/// How an operation fails without an HTTP response to show for it: the
/// transport failed, or a success response carried a payload that does
/// not match the endpoint's shape.
#[derive(Debug, PartialEq, Eq)]
pub enum DNSimpleError {
    Transport { detail: String },
    Decode,
}

/// Represents the error message payload returned by the DNSimple API.
#[derive(Debug, PartialEq, Eq)]
pub struct APIErrorMessage {
    pub error: String,
    pub error_description: String,
}

/// The mathematical content of an `APIErrorMessage`.
pub struct APIErrorMessageView {
    pub error: Seq<char>,
    pub error_description: Seq<char>,
}

impl View for APIErrorMessage {
    type V = APIErrorMessageView;

    open spec fn view(&self) -> APIErrorMessageView {
        APIErrorMessageView { error: self.error@, error_description: self.error_description@ }
    }
}

/// Represents a response from the DNSimple API.
#[derive(Debug)]
pub struct DNSimpleResponse<T> {
    pub rate_limit: String,
    pub rate_limit_remaining: String,
    pub rate_limit_reset: String,
    pub status: u16,
    pub data: Option<T>,
    pub message: Option<APIErrorMessage>,
}

/// Represents an empty response from the DNSimple API (these happen when
/// issuing DELETE commands, for example): by construction it carries
/// neither a payload nor an error message.
#[derive(Debug)]
pub struct DNSimpleEmptyResponse {
    pub rate_limit: String,
    pub rate_limit_remaining: String,
    pub rate_limit_reset: String,
    pub status: u16,
}

/// Wrapper around a `DNSimpleResponse` and the raw HTTP response it was
/// built from.
pub struct APIResponse<T> {
    pub response: DNSimpleResponse<T>,
    pub raw_http_response: RawHttpResponse,
}

/// A fully assembled request: the method, the complete URL, and the
/// standard headers the dispatcher will attach.
pub struct ApiRequest {
    pub method: HttpMethod,
    pub url: String,
    pub user_agent: String,
    pub authorization: String,
    pub body: Option<String>,
}

/// The sort parameter of a list endpoint: the field to sort by.
#[derive(Debug)]
pub struct Sort {
    pub sort_by: String,
}

/// The pagination parameters of a list endpoint.
#[derive(Debug)]
pub struct Paginate {
    pub per_page: u64,
    pub page: u64,
}

/// The value an envelope records for a rate-limit header: the header's
/// text, or empty where the server did not send it.
pub open spec fn spec_rate(h: Option<String>) -> Seq<char> {
    match h {
        Some(s) => s@,
        None => Seq::empty(),
    }
}

/// A status in the 2xx class.
pub open spec fn spec_is_success(status: u16) -> bool {
    200 <= status < 300
}

/// The envelope fields that every response records, whatever its payload:
/// the three rate-limit headers and the status of the raw response.
pub open spec fn spec_envelope_matches<T>(env: DNSimpleResponse<T>, raw: RawHttpResponse) -> bool {
    &&& env.rate_limit@ == spec_rate(raw.rate_limit)
    &&& env.rate_limit_remaining@ == spec_rate(raw.rate_limit_remaining)
    &&& env.rate_limit_reset@ == spec_rate(raw.rate_limit_reset)
    &&& env.status == raw.status
}

/// As `spec_envelope_matches`, for the envelope without payload.
pub open spec fn spec_empty_envelope_matches(env: DNSimpleEmptyResponse, raw: RawHttpResponse) -> bool {
    &&& env.rate_limit@ == spec_rate(raw.rate_limit)
    &&& env.rate_limit_remaining@ == spec_rate(raw.rate_limit_remaining)
    &&& env.rate_limit_reset@ == spec_rate(raw.rate_limit_reset)
    &&& env.status == raw.status
}

/// Whether the text holds a blank-line separator.
pub open spec fn spec_has_sep(s: Seq<char>) -> bool
    decreases s.len(),
{
    s.len() >= 2 && ((s[0] == '\n' && s[1] == '\n') || spec_has_sep(s.drop_first()))
}

/// The text after the first blank-line separator.
pub open spec fn spec_after_first_sep(s: Seq<char>) -> Seq<char>
    decreases s.len(),
{
    if s.len() < 2 {
        s
    } else if s[0] == '\n' && s[1] == '\n' {
        s.skip(2)
    } else {
        spec_after_first_sep(s.drop_first())
    }
}

/// The last segment of the text when split on blank lines (the whole
/// text where it has none): where an error body carries a preamble, the
/// JSON error object is this trailing segment.
pub open spec fn spec_last_segment(s: Seq<char>) -> Seq<char>
    decreases s.len(),
    via spec_last_segment_decreases
{
    if spec_has_sep(s) {
        spec_last_segment(spec_after_first_sep(s))
    } else {
        s
    }
}

proof fn lemma_after_first_sep_shrinks(s: Seq<char>)
    requires
        spec_has_sep(s),
    ensures
        spec_after_first_sep(s).len() < s.len(),
    decreases s.len(),
{
    if s[0] == '\n' && s[1] == '\n' {
    } else {
        lemma_after_first_sep_shrinks(s.drop_first());
    }
}

#[via_fn]
proof fn spec_last_segment_decreases(s: Seq<char>) {
    if spec_has_sep(s) {
        lemma_after_first_sep_shrinks(s);
    }
}

proof fn lemma_first_sep(t: Seq<char>, p: int)
    requires
        0 <= p,
        p + 2 <= t.len(),
        t[p] == '\n',
        t[p + 1] == '\n',
        forall|k: int| 0 <= k < p ==> !(#[trigger] t[k] == '\n' && t[k + 1] == '\n'),
    ensures
        spec_has_sep(t),
        spec_after_first_sep(t) == t.skip(p + 2),
    decreases p,
{
    if p == 0 {
    } else {
        assert(!(t[0] == '\n' && t[1] == '\n'));
        assert forall|k: int| 0 <= k < p - 1 implies !(#[trigger] t.drop_first()[k] == '\n'
            && t.drop_first()[k + 1] == '\n') by {
            assert(t.drop_first()[k] == t[k + 1]);
            assert(t.drop_first()[k + 1] == t[k + 2]);
        }
        lemma_first_sep(t.drop_first(), p - 1);
        assert(t.drop_first().skip(p + 1) =~= t.skip(p + 2));
    }
}

proof fn lemma_no_sep(t: Seq<char>)
    requires
        forall|k: int| 0 <= k < t.len() - 1 ==> !(#[trigger] t[k] == '\n' && t[k + 1] == '\n'),
    ensures
        !spec_has_sep(t),
        spec_last_segment(t) == t,
    decreases t.len(),
{
    if t.len() >= 2 {
        assert forall|k: int| 0 <= k < t.drop_first().len() - 1 implies !(#[trigger] t.drop_first()[k] == '\n'
            && t.drop_first()[k + 1] == '\n') by {
            assert(t.drop_first()[k] == t[k + 1]);
            assert(t.drop_first()[k + 1] == t[k + 2]);
        }
        lemma_no_sep(t.drop_first());
    }
}

/// The index where the last blank-line-delimited segment starts.
fn last_segment_start(v: &Vec<char>) -> (r: usize)
    ensures
        r <= v@.len(),
        spec_last_segment(v@) == v@.skip(r as int),
{
    proof {
        assert(v@.skip(0) =~= v@);
    }
    let mut seg: usize = 0;
    let mut i: usize = 0;
    while i < v.len() && i + 1 < v.len()
        invariant
            seg <= i,
            i <= v@.len(),
            spec_last_segment(v@) == spec_last_segment(v@.skip(seg as int)),
            forall|k: int|
                seg <= k < i && k + 1 < v@.len() ==> !(#[trigger] v@[k] == '\n' && v@[k + 1] == '\n'),
        decreases v@.len() - i,
    {
        if v[i] == '\n' && v[i + 1] == '\n' {
            proof {
                let t = v@.skip(seg as int);
                let p = i - seg;
                assert forall|k: int| 0 <= k < p implies !(#[trigger] t[k] == '\n' && t[k + 1] == '\n') by {
                    assert(t[k] == v@[seg + k]);
                    assert(t[k + 1] == v@[seg + k + 1]);
                }
                assert(t[p] == v@[i as int]);
                assert(t[p + 1] == v@[i as int + 1]);
                lemma_first_sep(t, p);
                assert(t.skip(p + 2) =~= v@.skip(i as int + 2));
            }
            i = i + 2;
            seg = i;
        } else {
            i = i + 1;
        }
    }
    proof {
        let t = v@.skip(seg as int);
        assert forall|k: int| 0 <= k < t.len() - 1 implies !(#[trigger] t[k] == '\n' && t[k + 1] == '\n') by {
            assert(t[k] == v@[seg + k]);
            assert(t[k + 1] == v@[seg + k + 1]);
        }
        lemma_no_sep(t);
    }
    seg
}

/// The structured error held by a failed response's body: the last
/// blank-line-delimited segment, read as a JSON object with string
/// fields `error` and `error_description`. Any other shape yields
/// nothing.
pub open spec fn spec_error_from(body: Seq<char>) -> Option<APIErrorMessageView> {
    match json::json_of(spec_last_segment(body)) {
        Some(j) => match (json::spec_get_string(j, "error"@), json::spec_get_string(
            j,
            "error_description"@,
        )) {
            (Some(e), Some(d)) => Some(APIErrorMessageView { error: e, error_description: d }),
            _ => None,
        },
        None => None,
    }
}

/// Helper function that extracts the `APIErrorMessage` from the body of
/// a failed response. A body with no parseable trailing JSON error
/// object yields `None` rather than a failure.
pub fn dnsimple_error_from(body: &str) -> (r: Option<APIErrorMessage>)
    ensures
        match r {
            Some(m) => spec_error_from(body@) == Some(m@),
            None => spec_error_from(body@) is None,
        },
{
    let chars = text::str_chars(body);
    let start = last_segment_start(&chars);
    let mut seg: Vec<char> = Vec::new();
    let mut i: usize = start;
    while i < chars.len()
        invariant
            start <= i,
            i <= chars@.len(),
            seg@ =~= chars@.subrange(start as int, i as int),
        decreases chars@.len() - i,
    {
        seg.push(chars[i]);
        proof {
            assert(chars@.subrange(start as int, i + 1) =~= chars@.subrange(
                start as int,
                i as int,
            ).push(chars@[i as int]));
        }
        i = i + 1;
    }
    proof {
        assert(seg@ =~= chars@.skip(start as int));
    }
    let seg_text = text::chars_to_string(&seg);
    match json::parse_json(seg_text.as_str()) {
        Some(j) => match (json::get_string(&j, "error"), json::get_string(
            &j,
            "error_description",
        )) {
            (Some(error), Some(error_description)) => Some(
                APIErrorMessage { error, error_description },
            ),
            _ => None,
        },
        None => None,
    }
}

fn header_or_empty(h: &Option<String>) -> (r: String)
    ensures
        r@ == spec_rate(*h),
{
    match h {
        Some(s) => s.clone(),
        None => String::new(),
    }
}

/// Law: changing the base URL routes every request built afterwards to
/// the new host, and the versioned path is the base URL followed by
/// "/v2" and the resource path.
pub proof fn lemma_rebase_routes_requests(client: Client, base: Seq<char>, path: Seq<char>)
    requires
        client.base_url@ == base,
    ensures
        client.spec_url(path) == base + "/v2"@ + path,
        client.spec_versioned_url() == base + "/v2"@,
{
    reveal_strlit("/");
    reveal_strlit("v2");
    reveal_strlit("/v2");
    assert(client.spec_versioned_url() =~= base + "/v2"@);
    assert(client.spec_url(path) =~= base + "/v2"@ + path);
}

/// Helper function to create a new client.
///
/// `sandbox` selects the sandbox host instead of the production host;
/// `token` is the bearer authentication token.
pub fn new_client(sandbox: bool, token: String) -> (client: Client)
    ensures
        client.base_url@ == if sandbox { DEFAULT_SANDBOX_URL@ } else { DEFAULT_BASE_URL@ },
        client.user_agent@ == DEFAULT_USER_AGENT@ + VERSION@,
        client.auth_token == token,
{
    let mut url = DEFAULT_BASE_URL;
    if sandbox {
        url = DEFAULT_SANDBOX_URL;
    }
    Client {
        base_url: String::from_str(url),
        user_agent: String::from_str(DEFAULT_USER_AGENT).concat(VERSION),
        auth_token: token,
        agent: http::new_agent(),
    }
}

/// As `new_client`, with a timeout in seconds after which a call gives
/// up instead of blocking indefinitely.
pub fn new_client_with_timeout(sandbox: bool, token: String, timeout_seconds: u64) -> (client:
    Client)
    ensures
        client.base_url@ == if sandbox { DEFAULT_SANDBOX_URL@ } else { DEFAULT_BASE_URL@ },
        client.user_agent@ == DEFAULT_USER_AGENT@ + VERSION@,
        client.auth_token == token,
{
    let mut url = DEFAULT_BASE_URL;
    if sandbox {
        url = DEFAULT_SANDBOX_URL;
    }
    Client {
        base_url: String::from_str(url),
        user_agent: String::from_str(DEFAULT_USER_AGENT).concat(VERSION),
        auth_token: token,
        agent: http::new_agent_with_timeout(timeout_seconds),
    }
}

} // verus!
