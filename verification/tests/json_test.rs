use dnsimple_rust::dnsimple::accounts::account_list_from_raw;
use dnsimple_rust::dnsimple::http::RawHttpResponse;
use dnsimple_rust::dnsimple::json::json_string_object;
use dnsimple_rust::dnsimple::registrar_name_servers::name_server_list_from_raw;
use dnsimple_rust::dnsimple::vanity_name_servers::vanity_path;
use dnsimple_rust::dnsimple::DNSimpleError;

fn raw(status: u16, body: &str) -> RawHttpResponse {
    RawHttpResponse {
        status,
        rate_limit: Some(String::from("4000")),
        rate_limit_remaining: Some(String::from("3999")),
        rate_limit_reset: Some(String::from("1450451976")),
        body: String::from(body),
    }
}

#[test]
fn json_string_object_builds_the_payload() {
    assert_eq!(json_string_object("name", "example-beta.com"), "{\"name\":\"example-beta.com\"}");
    assert_eq!(
        json_string_object("email", "existing-user@example.com"),
        "{\"email\":\"existing-user@example.com\"}"
    );
}

#[test]
fn json_string_object_escapes_special_characters() {
    assert_eq!(json_string_object("name", "a\"b\\c"), "{\"name\":\"a\\\"b\\\\c\"}");
    assert_eq!(json_string_object("name", "a\nb\tc\rd"), "{\"name\":\"a\\nb\\tc\\rd\"}");
}

#[test]
fn list_accounts_decodes_every_record() {
    let body = "{\"data\":[\
        {\"id\":123,\"email\":\"john@example.com\",\"plan_identifier\":\"dnsimple-personal\",\
         \"created_at\":\"2011-09-11T17:15:58Z\",\"updated_at\":\"2016-06-03T15:02:26Z\"},\
        {\"id\":456,\"email\":\"ops@company.com\",\"plan_identifier\":\"dnsimple-professional\",\
         \"created_at\":\"2012-03-16T16:02:54Z\",\"updated_at\":\"2016-06-14T11:23:16Z\"}]}";
    let response = account_list_from_raw(&raw(200, body)).unwrap();
    let accounts = response.data.unwrap();

    assert_eq!(2, accounts.len());
    assert_eq!(123, accounts.first().unwrap().id);
    assert_eq!("john@example.com", accounts.first().unwrap().email);
    assert_eq!("dnsimple-professional", accounts.last().unwrap().plan_identifier);
}

#[test]
fn list_accounts_rejects_a_malformed_record() {
    let body = "{\"data\":[{\"id\":\"not-a-number\"}]}";
    let result = account_list_from_raw(&raw(200, body));

    assert_eq!(result.unwrap_err(), DNSimpleError::Decode);
}

#[test]
fn enable_vanity_name_servers_path_and_decode() {
    assert_eq!(vanity_path(1385, "example.com"), "/1385/vanity/example.com");

    let body = "{\"data\":[\
        {\"id\":1,\"name\":\"ns1.example.com\",\"ipv4\":\"127.0.0.1\",\"ipv6\":\"::1\",\
         \"created_at\":\"2016-07-14T13:22:17Z\",\"updated_at\":\"2016-07-14T13:22:17Z\"},\
        {\"id\":2,\"name\":\"ns2.example.com\",\"ipv4\":\"127.0.0.1\",\"ipv6\":\"::1\",\
         \"created_at\":\"2016-07-14T13:22:17Z\",\"updated_at\":\"2016-07-14T13:22:17Z\"},\
        {\"id\":3,\"name\":\"ns3.example.com\",\"ipv4\":\"127.0.0.1\",\"ipv6\":\"::1\",\
         \"created_at\":\"2016-07-14T13:22:17Z\",\"updated_at\":\"2016-07-14T13:22:17Z\"},\
        {\"id\":4,\"name\":\"ns4.example.com\",\"ipv4\":\"127.0.0.1\",\"ipv6\":\"::1\",\
         \"created_at\":\"2016-07-14T13:22:17Z\",\"updated_at\":\"2016-07-14T13:22:17Z\"}]}";
    let response = name_server_list_from_raw(&raw(200, body)).unwrap();
    let servers = response.data.unwrap();

    assert_eq!(4, servers.len());
    assert_eq!("ns1.example.com", servers.first().unwrap().name);
    assert_eq!(4, servers.last().unwrap().id);
}

#[test]
fn json_string_object_with_empty_value() {
    assert_eq!(json_string_object("name", ""), "{\"name\":\"\"}");
}

#[test]
fn paths_render_the_largest_account_id() {
    assert_eq!(
        dnsimple_rust::dnsimple::domains::domains_path(u64::MAX),
        "/18446744073709551615/domains"
    );
}

#[test]
fn numbers_outside_u64_are_rejected() {
    let body = "{\"data\":[{\"id\":1.5,\"email\":\"x\",\"plan_identifier\":\"y\",\
        \"created_at\":\"z\",\"updated_at\":\"w\"}]}";
    let result = account_list_from_raw(&raw(200, body));

    assert_eq!(result.unwrap_err(), DNSimpleError::Decode);
}
