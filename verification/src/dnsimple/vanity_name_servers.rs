//! The vanity name-server endpoints of the DNSimple API: enabling and
//! disabling vanity name servers for a domain.

use vstd::prelude::*;

use crate::dnsimple::registrar_name_servers::{name_server_list_from_raw, VanityNameServer};
use crate::dnsimple::text;
use crate::dnsimple::{
    spec_is_success, Client, DNSimpleEmptyResponse, DNSimpleError, DNSimpleResponse,
};

verus! {

/// The path of a domain's vanity name-server state.
pub fn vanity_path(account_id: u64, domain: &str) -> (r: String)
    ensures
        r@ == "/"@ + text::spec_u64_decimal(account_id as nat) + "/vanity/"@ + domain@,
{
    let aid = text::u64_to_string(account_id);
    String::from_str("/").concat(aid.as_str()).concat("/vanity/").concat(domain)
}

/// The Vanity Name Servers Service handles the vanity name-server
/// endpoints of the DNSimple API.
pub struct VanityNameServers<'a> {
    pub client: &'a Client,
}

impl VanityNameServers<'_> {
    /// Enables vanity name servers for the domain (named by name or ID)
    /// under the account, returning the name servers put in place.
    pub fn enable_vanity_name_servers(&self, account_id: u64, domain: String) -> (r: Result<
        DNSimpleResponse<Vec<VanityNameServer>>,
        DNSimpleError,
    >)
        ensures
            r matches Ok(env) ==> (env.data is Some ==> spec_is_success(env.status)
                && env.message is None),
            r matches Ok(env) ==> (env.message is Some ==> !spec_is_success(env.status)
                && env.data is None),
    {
        let path = vanity_path(account_id, domain.as_str());
        let api = self.client.put::<Vec<VanityNameServer>>(path.as_str(), "null")?;
        name_server_list_from_raw(&api.raw_http_response)
    }

    /// Disables vanity name servers for the domain under the account:
    /// no body comes back, so the envelope can hold neither a payload
    /// nor an error.
    pub fn disable_vanity_name_servers(&self, account_id: u64, domain: String) -> (r: Result<
        DNSimpleEmptyResponse,
        DNSimpleError,
    >)
        ensures
            r matches Err(e) ==> e is Transport,
    {
        let path = vanity_path(account_id, domain.as_str());
        self.client.delete(path.as_str())
    }
}

} // verus!
