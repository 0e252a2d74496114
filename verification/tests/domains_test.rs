use dnsimple_rust::dnsimple::domains::{
    collaborator_from_raw, collaborator_list_from_raw, collaborator_path, collaborators_path,
    domain_from_raw, domain_list_from_raw, domain_path, domains_path,
};
use dnsimple_rust::dnsimple::http::RawHttpResponse;
use dnsimple_rust::dnsimple::Client;

fn raw(status: u16, body: &str) -> RawHttpResponse {
    RawHttpResponse {
        status,
        rate_limit: Some(String::from("4000")),
        rate_limit_remaining: Some(String::from("3999")),
        rate_limit_reset: Some(String::from("1450451976")),
        body: String::from(body),
    }
}

fn first_domain_json() -> String {
    String::from(
        "{\"id\":181984,\"account_id\":1385,\"registrant_id\":2715,\
         \"name\":\"example-alpha.com\",\"unicode_name\":\"example-alpha.com\",\
         \"state\":\"registered\",\"auto_renew\":false,\"private_whois\":false,\
         \"expires_on\":\"2021-06-05\",\"expires_at\":\"2021-06-05T02:15:00Z\",\
         \"created_at\":\"2020-06-04T19:15:14Z\",\"updated_at\":\"2020-06-04T19:15:21Z\"}",
    )
}

fn second_domain_json() -> String {
    String::from(
        "{\"id\":181985,\"account_id\":1385,\"registrant_id\":null,\
         \"name\":\"example-beta.com\",\"unicode_name\":\"example-beta.com\",\
         \"state\":\"hosted\",\"auto_renew\":false,\"private_whois\":false,\
         \"expires_on\":null,\"expires_at\":null,\
         \"created_at\":\"2020-06-04T19:47:05Z\",\"updated_at\":\"2020-06-04T19:47:05Z\"}",
    )
}

fn existing_collaborator_json() -> String {
    String::from(
        "{\"id\":100,\"domain_id\":1,\"domain_name\":\"example.com\",\
         \"user_id\":999,\"user_email\":\"existing-user@example.com\",\"invitation\":false,\
         \"created_at\":\"2016-10-07T08:53:41Z\",\"updated_at\":\"2016-10-07T08:53:41Z\",\
         \"accepted_at\":\"2016-10-07T08:53:41Z\"}",
    )
}

fn invited_collaborator_json() -> String {
    String::from(
        "{\"id\":101,\"domain_id\":1,\"domain_name\":\"example.com\",\
         \"user_id\":null,\"user_email\":\"invited-user@example.com\",\"invitation\":true,\
         \"created_at\":\"2016-10-07T08:51:12Z\",\"updated_at\":\"2016-10-07T08:51:12Z\",\
         \"accepted_at\":null}",
    )
}

#[test]
fn list_domains_test() {
    let account_id = 1385;
    assert_eq!(domains_path(account_id), "/1385/domains");

    let body = format!("{{\"data\":[{},{}]}}", first_domain_json(), second_domain_json());
    let domains_data = domain_list_from_raw(&raw(200, &body)).unwrap();
    let domains = domains_data.data.unwrap();

    assert_eq!(2, domains.len());

    let first_domain = domains.first().unwrap();
    assert_eq!(181984, first_domain.id);
    assert_eq!(account_id, first_domain.account_id);
    assert_eq!(2715, first_domain.registrant_id.unwrap());
    assert_eq!("example-alpha.com", first_domain.name);
    assert_eq!("example-alpha.com", first_domain.unicode_name);
    assert_eq!("registered", first_domain.state);
    assert_eq!(false, first_domain.auto_renew);
    assert_eq!(false, first_domain.private_whois);
    assert_eq!("2021-06-05", first_domain.expires_on.as_ref().unwrap());
    assert_eq!("2021-06-05T02:15:00Z", first_domain.expires_at.as_ref().unwrap());
    assert_eq!("2020-06-04T19:15:14Z", first_domain.created_at);
    assert_eq!("2020-06-04T19:15:21Z", first_domain.updated_at);
}

#[test]
fn create_domain_test() {
    let account_id = 1385;
    assert_eq!(domains_path(account_id), "/1385/domains");

    let body = format!("{{\"data\":{}}}", second_domain_json());
    let domain = domain_from_raw(&raw(201, &body)).unwrap().data.unwrap();

    assert_eq!(domain.id, 181985);
    assert_eq!(domain.account_id, account_id);
    assert_eq!(domain.registrant_id, None);
    assert_eq!(domain.name, "example-beta.com");
    assert_eq!(domain.unicode_name, "example-beta.com");
    assert_eq!(domain.state, "hosted");
    assert_eq!(domain.auto_renew, false);
    assert_eq!(domain.private_whois, false);
    assert_eq!(domain.expires_on, None);
    assert_eq!(domain.expires_at, None);
    assert_eq!(domain.created_at, "2020-06-04T19:47:05Z");
    assert_eq!(domain.updated_at, "2020-06-04T19:47:05Z");
}

#[test]
fn test_get_domain() {
    let account_id = 1385 as u64;
    let domain_id = 181984 as u64;
    assert_eq!(domain_path(account_id, domain_id), "/1385/domains/181984");

    let body = format!("{{\"data\":{}}}", first_domain_json());
    let domain = domain_from_raw(&raw(200, &body)).unwrap().data.unwrap();

    assert_eq!(domain_id, domain.id);
    assert_eq!(account_id, domain.account_id);
    assert_eq!(2715, domain.registrant_id.unwrap());
    assert_eq!("example-alpha.com", domain.name);
    assert_eq!("example-alpha.com", domain.unicode_name);
    assert_eq!("registered", domain.state);
    assert_eq!(false, domain.auto_renew);
    assert_eq!(false, domain.private_whois);
    assert_eq!("2021-06-05", domain.expires_on.unwrap());
    assert_eq!("2021-06-05T02:15:00Z", domain.expires_at.unwrap());
    assert_eq!("2020-06-04T19:15:14Z", domain.created_at);
    assert_eq!("2020-06-04T19:15:21Z", domain.updated_at);
}

#[test]
fn test_delete_domain() {
    let account_id = 1385 as u64;
    let domain_id = 181984 as u64;
    assert_eq!(domain_path(account_id, domain_id), "/1385/domains/181984");

    let response = Client::build_empty_dnsimple_response(&raw(204, ""));

    assert_eq!(response.status, 204);
}

#[test]
fn test_list_collaborators() {
    let account_id = 1385 as u64;
    let domain_id = 1 as u64;
    assert_eq!(collaborators_path(account_id, domain_id), "/1385/domains/1/collaborators");

    let body = format!(
        "{{\"data\":[{},{}]}}",
        existing_collaborator_json(),
        invited_collaborator_json()
    );
    let response = collaborator_list_from_raw(&raw(200, &body));
    let collaborators = response.unwrap().data.unwrap();

    assert_eq!(2, collaborators.len());
    let first_collaborator = collaborators.first().unwrap();
    let second_collaborator = collaborators.last().unwrap();

    assert_eq!(100, first_collaborator.id);
    assert_eq!(domain_id, first_collaborator.domain_id);
    assert_eq!("example.com", first_collaborator.domain_name);
    assert_eq!(999, first_collaborator.user_id.unwrap());
    assert_eq!(None, second_collaborator.user_id);
    assert_eq!("existing-user@example.com", first_collaborator.user_email);
    assert_eq!("invited-user@example.com", second_collaborator.user_email);
    assert_eq!(false, first_collaborator.invitation);
    assert_eq!(true, second_collaborator.invitation);
    assert_eq!("2016-10-07T08:53:41Z", first_collaborator.created_at);
    assert_eq!("2016-10-07T08:53:41Z", first_collaborator.updated_at);
    assert_eq!("2016-10-07T08:53:41Z", first_collaborator.accepted_at.as_ref().unwrap());
    assert_eq!(None, second_collaborator.accepted_at);
}

#[test]
fn test_add_collaborator_success() {
    let account_id = 1385 as u64;
    let domain_id = 1 as u64;
    assert_eq!(collaborators_path(account_id, domain_id), "/1385/domains/1/collaborators");

    let body = format!("{{\"data\":{}}}", existing_collaborator_json());
    let collaborator = collaborator_from_raw(&raw(201, &body)).unwrap().data.unwrap();

    assert_eq!(100, collaborator.id);
    assert_eq!(domain_id, collaborator.domain_id);
    assert_eq!("example.com", collaborator.domain_name);
    assert_eq!(999, collaborator.user_id.unwrap());
    assert_eq!("existing-user@example.com", collaborator.user_email);
    assert_eq!(false, collaborator.invitation);
    assert_eq!("2016-10-07T08:53:41Z", collaborator.created_at);
    assert_eq!("2016-10-07T08:53:41Z", collaborator.updated_at);
    assert_eq!("2016-10-07T08:53:41Z", collaborator.accepted_at.as_ref().unwrap());
}

#[test]
fn test_add_collaborator_invite_success() {
    let account_id = 1385 as u64;
    let domain_id = 1 as u64;
    assert_eq!(collaborators_path(account_id, domain_id), "/1385/domains/1/collaborators");

    let body = format!("{{\"data\":{}}}", invited_collaborator_json());
    let collaborator = collaborator_from_raw(&raw(201, &body)).unwrap().data.unwrap();

    assert_eq!(101, collaborator.id);
    assert_eq!(domain_id, collaborator.domain_id);
    assert_eq!("example.com", collaborator.domain_name);
    assert_eq!(None, collaborator.user_id);
    assert_eq!("invited-user@example.com", collaborator.user_email);
    assert_eq!(true, collaborator.invitation);
    assert_eq!("2016-10-07T08:51:12Z", collaborator.created_at);
    assert_eq!("2016-10-07T08:51:12Z", collaborator.updated_at);
    assert_eq!(None, collaborator.accepted_at.as_ref());
}

#[test]
fn test_remove_collaborator() {
    let account_id = 1385 as u64;
    let domain_id = 1 as u64;
    assert_eq!(
        collaborator_path(account_id, domain_id, 100),
        "/1385/domains/1/collaborators/100"
    );

    let response = Client::build_empty_dnsimple_response(&raw(204, ""));

    assert_eq!(response.status, 204);
}
