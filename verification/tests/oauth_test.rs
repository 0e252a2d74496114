use dnsimple_rust::dnsimple::http::RawHttpResponse;
use dnsimple_rust::dnsimple::oauth::{access_token_from_raw, oauth_exchange_body, OAuthTokenPayload};

fn raw(status: u16, body: &str) -> RawHttpResponse {
    RawHttpResponse {
        status,
        rate_limit: Some(String::from("4000")),
        rate_limit_remaining: Some(String::from("3999")),
        rate_limit_reset: Some(String::from("1450451976")),
        body: String::from(body),
    }
}

#[test]
fn oauth_exchange_body_holds_the_payload() {
    let payload = OAuthTokenPayload {
        client_id: String::from("id"),
        client_secret: String::from("secret"),
        code: String::from("super-code"),
        redirect_uri: String::from("https://example.com/callback"),
        state: String::from("state-token"),
    };

    assert_eq!(
        oauth_exchange_body(&payload),
        "{\"client_id\":\"id\",\"client_secret\":\"secret\",\"code\":\"super-code\",\
         \"redirect_uri\":\"https://example.com/callback\",\"state\":\"state-token\",\
         \"grant_type\":\"authorization_code\"}"
    );
}

#[test]
fn exchange_decodes_an_access_token() {
    let body = "{\"access_token\":\"zKQ7OLqF5N1gylcJweA9WodA000BUNJD\",\
        \"token_type\":\"Bearer\",\"scope\":null,\"account_id\":1}";
    let response = access_token_from_raw(&raw(200, body)).unwrap();
    let token = response.data.unwrap();

    assert_eq!(token.access_token, "zKQ7OLqF5N1gylcJweA9WodA000BUNJD");
    assert_eq!(token.token_type, "Bearer");
    assert_eq!(token.scope, None);
    assert_eq!(token.account_id, 1);
}

#[test]
fn exchange_error_attaches_structured_error() {
    let body = "{\"error\":\"invalid_request\",\"error_description\":\
        \"Invalid \\\"state\\\": value doesn't match the \\\"state\\\" in the authorization request\"}";
    let response = access_token_from_raw(&raw(400, body)).unwrap();

    assert!(response.data.is_none());
    let message = response.message.unwrap();
    assert_eq!(message.error, "invalid_request");
    assert_eq!(
        message.error_description,
        "Invalid \"state\": value doesn't match the \"state\" in the authorization request"
    );
}
