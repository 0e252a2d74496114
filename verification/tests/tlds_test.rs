use dnsimple_rust::dnsimple::http::RawHttpResponse;
use dnsimple_rust::dnsimple::tlds::{
    attribute_list_from_raw, tld_extended_attributes_path, tld_from_raw, tld_list_from_raw,
    tld_path, tlds_path,
};
use dnsimple_rust::dnsimple::{Paginate, Sort};

fn raw(status: u16, body: &str) -> RawHttpResponse {
    RawHttpResponse {
        status,
        rate_limit: Some(String::from("4000")),
        rate_limit_remaining: Some(String::from("3999")),
        rate_limit_reset: Some(String::from("1450451976")),
        body: String::from(body),
    }
}

#[test]
fn test_list_tlds() {
    let sort = Sort { sort_by: "".to_string() };
    let paginate = Paginate { per_page: 30, page: 1 };
    assert_eq!(tlds_path(&sort, &paginate), "/tlds?sort=&per_page=30&page=1");

    let body = "{\"data\":[\
        {\"tld\":\"ac\",\"tld_type\":2,\"whois_privacy\":false,\"auto_renew_only\":true,\
         \"idn\":false,\"minimum_registration\":1,\"registration_enabled\":true,\
         \"renewal_enabled\":true,\"transfer_enabled\":false,\"dnssec_interface_type\":\"ds\"},\
        {\"tld\":\"ad\",\"tld_type\":2,\"whois_privacy\":false,\"auto_renew_only\":false,\
         \"idn\":false,\"minimum_registration\":1,\"registration_enabled\":false,\
         \"renewal_enabled\":false,\"transfer_enabled\":false,\"dnssec_interface_type\":\"ds\"}]}";
    let response = tld_list_from_raw(&raw(200, body)).unwrap();
    let tlds = response.data.unwrap();

    assert_eq!(2, tlds.len());

    let tld = tlds.first().unwrap();

    assert_eq!("ac", tld.tld);
    assert_eq!(2, tld.tld_type);
    assert_eq!(false, tld.whois_privacy);
    assert_eq!(true, tld.auto_renew_only);
    assert_eq!(false, tld.idn);
    assert_eq!(1, tld.minimum_registration);
    assert_eq!(true, tld.registration_enabled);
    assert_eq!(true, tld.renewal_enabled);
    assert_eq!(false, tld.transfer_enabled);
    assert_eq!("ds", tld.dnssec_interface_type);
}

#[test]
fn test_get_tld() {
    let tld = String::from("com");
    assert_eq!(tld_path(&tld), "/tlds/com");

    let body = "{\"data\":{\"tld\":\"com\",\"tld_type\":1,\"whois_privacy\":true,\
        \"auto_renew_only\":false,\"idn\":true,\"minimum_registration\":1,\
        \"registration_enabled\":true,\"renewal_enabled\":true,\"transfer_enabled\":true,\
        \"dnssec_interface_type\":\"ds\"}}";
    let tld = tld_from_raw(&raw(200, body)).unwrap().data.unwrap();

    assert_eq!("com", tld.tld);
    assert_eq!(1, tld.tld_type);
    assert_eq!(true, tld.whois_privacy);
    assert_eq!(false, tld.auto_renew_only);
    assert_eq!(true, tld.idn);
    assert_eq!(1, tld.minimum_registration);
    assert_eq!(true, tld.registration_enabled);
    assert_eq!(true, tld.renewal_enabled);
    assert_eq!(true, tld.transfer_enabled);
    assert_eq!("ds", tld.dnssec_interface_type);
}

#[test]
fn test_get_tld_extended_attributes() {
    let tld = String::from("com");
    assert_eq!(tld_extended_attributes_path(&tld), "/tlds/com/extended_attributes");

    let mut options = String::from(
        "{\"title\":\"UK Individual\",\"value\":\"IND\",\
         \"description\":\"UK Individual (our default value)\"}",
    );
    for i in 0..16 {
        options.push_str(&format!(
            ",{{\"title\":\"Option {i}\",\"value\":\"OPT{i}\",\"description\":\"Choice {i}\"}}"
        ));
    }
    let first_attribute = format!(
        "{{\"name\":\"uk_legal_type\",\"description\":\"Legal type of registrant contact\",\
         \"required\":false,\"options\":[{options}]}}"
    );
    let mut attributes = first_attribute;
    for i in 0..3 {
        attributes.push_str(&format!(
            ",{{\"name\":\"uk_reg_opt_out_{i}\",\"description\":\"Another attribute\",\
             \"required\":false,\"options\":[]}}"
        ));
    }
    let body = format!("{{\"data\":[{attributes}]}}");

    let response = attribute_list_from_raw(&raw(200, &body)).unwrap();
    let extended_attributes = response.data.unwrap();

    assert_eq!(4, extended_attributes.len());

    let extended_attribute = extended_attributes.first().unwrap();
    assert_eq!("uk_legal_type", extended_attribute.name);
    assert_eq!("Legal type of registrant contact", extended_attribute.description);
    assert_eq!(false, extended_attribute.required);

    let options = &extended_attribute.options;

    assert_eq!(17, options.len());

    let option = options.first().unwrap();
    assert_eq!("UK Individual", option.title);
    assert_eq!("IND", option.value);
    assert_eq!("UK Individual (our default value)", option.description);
}
