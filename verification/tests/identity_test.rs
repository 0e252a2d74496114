use dnsimple_rust::dnsimple::http::RawHttpResponse;
use dnsimple_rust::dnsimple::identity::{self, whoami_from_raw};
use dnsimple_rust::dnsimple::DNSimpleError;

fn raw(status: u16, body: &str) -> RawHttpResponse {
    RawHttpResponse {
        status,
        rate_limit: Some(String::from("4000")),
        rate_limit_remaining: Some(String::from("3999")),
        rate_limit_reset: Some(String::from("1450451976")),
        body: String::from(body),
    }
}

#[test]
fn user_fields() {
    let user = identity::User {
        id: 12,
        email: String::from("testing@dnsimple.com"),
        created_at: String::from("some_time_ago"),
        updated_at: String::from("recently"),
    };

    assert_eq!("testing@dnsimple.com", user.email)
}

#[test]
fn account_fields() {
    let account = identity::Account {
        id: 14,
        email: String::from("account@dnsimple.com"),
        plan_identifier: String::from("testing_plan"),
        created_at: String::from("some_time_ago"),
        updated_at: String::from("recently"),
    };

    assert_eq!("testing_plan", account.plan_identifier)
}

#[test]
fn whoami_decodes_an_account() {
    let body = "{\"data\":{\"account\":{\"id\":1,\"email\":\"example-account@example.com\",\"plan_identifier\":\"dnsimple-professional\",\"created_at\":\"2015-09-18T23:04:37Z\",\"updated_at\":\"2016-06-09T20:03:39Z\"},\"user\":null}}";
    let response = whoami_from_raw(&raw(200, body)).unwrap();

    assert_eq!(response.status, 200);
    let data = response.data.unwrap().data;
    assert!(data.user.is_none());
    let account = data.account.unwrap();
    assert_eq!(account.id, 1);
    assert_eq!(account.email, "example-account@example.com");
    assert_eq!(account.plan_identifier, "dnsimple-professional");
    assert!(response.message.is_none());
}

#[test]
fn whoami_decodes_a_user_without_account() {
    let body = "{\"data\":{\"account\":null,\"user\":{\"id\":12,\"email\":\"testing@dnsimple.com\",\"created_at\":\"2015-09-18T23:04:37Z\",\"updated_at\":\"2016-06-09T20:03:39Z\"}}}";
    let response = whoami_from_raw(&raw(200, body)).unwrap();

    let data = response.data.unwrap().data;
    assert!(data.account.is_none());
    assert_eq!(data.user.unwrap().id, 12);
}

#[test]
fn whoami_error_status_attaches_structured_error() {
    let body = "HTTP/1.1 401 Unauthorized\n\n{\"error\":\"invalid_request\",\"error_description\":\"Invalid refresh token\"}";
    let response = whoami_from_raw(&raw(401, body)).unwrap();

    assert_eq!(response.status, 401);
    assert!(response.data.is_none());
    let message = response.message.unwrap();
    assert_eq!(message.error, "invalid_request");
    assert_eq!(message.error_description, "Invalid refresh token");
}

#[test]
fn whoami_reports_decode_failure_on_malformed_success_body() {
    let result = whoami_from_raw(&raw(200, "not json at all"));
    assert_eq!(result.unwrap_err(), DNSimpleError::Decode);

    let wrong_shape = whoami_from_raw(&raw(200, "{\"data\":{\"account\":{\"id\":\"one\"}}}"));
    assert_eq!(wrong_shape.unwrap_err(), DNSimpleError::Decode);
}
