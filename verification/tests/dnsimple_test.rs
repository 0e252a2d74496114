use dnsimple_rust::dnsimple::http::RawHttpResponse;
use dnsimple_rust::dnsimple::{
    dnsimple_error_from, new_client, Client, DNSimpleError, DEFAULT_SANDBOX_URL,
    DEFAULT_USER_AGENT, VERSION,
};

fn raw(status: u16, body: &str) -> RawHttpResponse {
    RawHttpResponse {
        status,
        rate_limit: Some(String::from("4000")),
        rate_limit_remaining: Some(String::from("3999")),
        rate_limit_reset: Some(String::from("1450451976")),
        body: String::from(body),
    }
}

#[test]
fn creates_a_client() {
    let token = "some-auth-token";
    let client = new_client(true, String::from(token));

    assert_eq!(client.base_url, DEFAULT_SANDBOX_URL);
    assert_eq!(client.user_agent, DEFAULT_USER_AGENT.to_owned() + VERSION);
    assert_eq!(client.auth_token, token);
}

#[test]
fn can_change_the_base_url() {
    let mut client = new_client(true, String::from("token"));
    client.set_base_url("https://example.com");

    assert_eq!(client.versioned_url(), "https://example.com/v2");
}

#[test]
fn envelope_copies_rate_limit_headers_and_status() {
    let response = Client::build_dnsimple_response::<u64>(&raw(200, "{}"));

    assert_eq!(response.rate_limit, "4000");
    assert_eq!(response.rate_limit_remaining, "3999");
    assert_eq!(response.rate_limit_reset, "1450451976");
    assert_eq!(response.status, 200);
    assert!(response.data.is_none());
    assert!(response.message.is_none());
}

#[test]
fn envelope_defaults_missing_rate_limit_headers_to_empty() {
    let bare = RawHttpResponse {
        status: 200,
        rate_limit: None,
        rate_limit_remaining: None,
        rate_limit_reset: None,
        body: String::from("{}"),
    };
    let response = Client::build_dnsimple_response::<u64>(&bare);

    assert_eq!(response.rate_limit, "");
    assert_eq!(response.rate_limit_remaining, "");
    assert_eq!(response.rate_limit_reset, "");
}

#[test]
fn with_base_url_returns_a_rerouted_client() {
    let client = new_client(true, String::from("token"));
    let rerouted = client.with_base_url("https://example.com");

    assert_eq!(rerouted.versioned_url(), "https://example.com/v2");
    assert_eq!(rerouted.auth_token, "token");
}

#[test]
fn creates_a_client_with_a_timeout() {
    let client =
        dnsimple_rust::dnsimple::new_client_with_timeout(false, String::from("token"), 5);

    assert_eq!(client.base_url, "https://api.dnsimple.com");
    assert_eq!(client.user_agent, DEFAULT_USER_AGENT.to_owned() + VERSION);
    assert_eq!(client.auth_token, "token");
}

#[test]
fn transport_failure_surfaces_as_transport_error() {
    // The transport is built without TLS support here, so an https call
    // fails before touching the network; the failure must come back as
    // a transport error, never a panic.
    let client = new_client(true, String::from("some-token"));

    match client.identity().whoami() {
        Err(DNSimpleError::Transport { detail }) => assert!(!detail.is_empty()),
        other => panic!("expected a transport error, got {:?}", other.is_ok()),
    }
    match client.domains().delete_domain(1385, 181984) {
        Err(DNSimpleError::Transport { detail }) => assert!(!detail.is_empty()),
        other => panic!("expected a transport error, got {:?}", other.is_ok()),
    }
}

#[test]
fn error_extracted_from_trailing_json_segment() {
    let body = "HTTP/1.1 401 Unauthorized\nContent-Type: application/json\n\n{\"error\":\"invalid_request\",\"error_description\":\"Invalid refresh token\"}";
    let message = dnsimple_error_from(body).unwrap();

    assert_eq!(message.error, "invalid_request");
    assert_eq!(message.error_description, "Invalid refresh token");
}

#[test]
fn error_extracted_from_plain_json_body() {
    let body = "{\"error\":\"not_found\",\"error_description\":\"Domain not found\"}";
    let message = dnsimple_error_from(body).unwrap();

    assert_eq!(message.error, "not_found");
    assert_eq!(message.error_description, "Domain not found");
}

#[test]
fn error_takes_last_of_several_segments() {
    let body = "preamble\n\nmiddle\n\n{\"error\":\"a\",\"error_description\":\"b\"}";
    let message = dnsimple_error_from(body).unwrap();

    assert_eq!(message.error, "a");
    assert_eq!(message.error_description, "b");
}

#[test]
fn error_with_unparseable_trailing_segment_is_none() {
    assert!(dnsimple_error_from("HTTP/1.1 502 Bad Gateway\n\nupstream error").is_none());
    assert!(dnsimple_error_from("{\"message\":\"wrong shape\"}").is_none());
    assert!(dnsimple_error_from("").is_none());
}
