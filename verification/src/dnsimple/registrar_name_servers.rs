//! Name-server records shared by the vanity and registrar name-server
//! endpoints of the DNSimple API.

use vstd::prelude::*;

use crate::dnsimple::http::RawHttpResponse;
use crate::dnsimple::json::{self, JsonValue};
use crate::dnsimple::{
    spec_envelope_matches, spec_error_from, spec_is_success, Client, DNSimpleError,
    DNSimpleResponse,
};

verus! {

/// Represents a vanity name server.
#[derive(Debug)]
pub struct VanityNameServer {
    /// The name server ID in DNSimple
    pub id: u64,
    /// The name server name
    pub name: String,
    /// The IPv4 address of the name server
    pub ipv4: String,
    /// The IPv6 address of the name server
    pub ipv6: String,
    /// When the name server was created in DNSimple
    pub created_at: String,
    /// When the name server was last updated in DNSimple
    pub updated_at: String,
}

/// The mathematical content of a `VanityNameServer`.
pub struct VanityNameServerView {
    pub id: u64,
    pub name: Seq<char>,
    pub ipv4: Seq<char>,
    pub ipv6: Seq<char>,
    pub created_at: Seq<char>,
    pub updated_at: Seq<char>,
}

impl View for VanityNameServer {
    type V = VanityNameServerView;

    open spec fn view(&self) -> VanityNameServerView {
        VanityNameServerView {
            id: self.id,
            name: self.name@,
            ipv4: self.ipv4@,
            ipv6: self.ipv6@,
            created_at: self.created_at@,
            updated_at: self.updated_at@,
        }
    }
}

/// A name-server object: all six fields present with their types.
pub open spec fn spec_name_server(j: JsonValue) -> Option<VanityNameServerView> {
    if json::spec_get_u64(j, "id"@) is Some && json::spec_get_string(j, "name"@) is Some
        && json::spec_get_string(j, "ipv4"@) is Some && json::spec_get_string(j, "ipv6"@) is Some
        && json::spec_get_string(j, "created_at"@) is Some && json::spec_get_string(
        j,
        "updated_at"@,
    ) is Some {
        Some(
            VanityNameServerView {
                id: json::spec_get_u64(j, "id"@).unwrap(),
                name: json::spec_get_string(j, "name"@).unwrap(),
                ipv4: json::spec_get_string(j, "ipv4"@).unwrap(),
                ipv6: json::spec_get_string(j, "ipv6"@).unwrap(),
                created_at: json::spec_get_string(j, "created_at"@).unwrap(),
                updated_at: json::spec_get_string(j, "updated_at"@).unwrap(),
            },
        )
    } else {
        None
    }
}

pub fn name_server_from_json(j: &JsonValue) -> (r: Option<VanityNameServer>)
    ensures
        match r {
            Some(s) => spec_name_server(*j) == Some(s@),
            None => spec_name_server(*j) is None,
        },
{
    let id = match json::get_u64(j, "id") {
        Some(v) => v,
        None => { return None; },
    };
    let name = match json::get_string(j, "name") {
        Some(v) => v,
        None => { return None; },
    };
    let ipv4 = match json::get_string(j, "ipv4") {
        Some(v) => v,
        None => { return None; },
    };
    let ipv6 = match json::get_string(j, "ipv6") {
        Some(v) => v,
        None => { return None; },
    };
    let created_at = match json::get_string(j, "created_at") {
        Some(v) => v,
        None => { return None; },
    };
    let updated_at = match json::get_string(j, "updated_at") {
        Some(v) => v,
        None => { return None; },
    };
    Some(VanityNameServer { id, name, ipv4, ipv6, created_at, updated_at })
}

/// The name servers of a JSON array, where every element decodes.
pub open spec fn spec_name_server_list(a: Seq<JsonValue>) -> Option<Seq<VanityNameServerView>>
    decreases a.len(),
{
    if a.len() == 0 {
        Some(Seq::empty())
    } else {
        match (spec_name_server_list(a.drop_last()), spec_name_server(a.last())) {
            (Some(rest), Some(s)) => Some(rest.push(s)),
            _ => None,
        }
    }
}

proof fn lemma_name_server_list_none(a: Seq<JsonValue>, i: int)
    requires
        0 <= i <= a.len(),
        spec_name_server_list(a.take(i)) is None,
    ensures
        spec_name_server_list(a) is None,
    decreases a.len() - i,
{
    if i < a.len() {
        assert(a.take(i + 1).drop_last() =~= a.take(i));
        lemma_name_server_list_none(a, i + 1);
    } else {
        assert(a.take(i) =~= a);
    }
}

/// Law: a decoded name-server list holds exactly one record per
/// element of the JSON array it came from.
pub proof fn lemma_name_server_list_len(a: Seq<JsonValue>)
    ensures
        spec_name_server_list(a) matches Some(s) ==> s.len() == a.len(),
    decreases a.len(),
{
    if a.len() > 0 {
        lemma_name_server_list_len(a.drop_last());
    }
}

/// The contents of a vector of name servers.
pub open spec fn spec_name_server_views(v: Seq<VanityNameServer>) -> Seq<VanityNameServerView> {
    v.map_values(|s: VanityNameServer| s@)
}

/// Decodes a JSON array of name servers; the result holds exactly one
/// record per array element.
pub fn name_servers_from_json(a: &Vec<JsonValue>) -> (r: Option<Vec<VanityNameServer>>)
    ensures
        match r {
            Some(v) => spec_name_server_list(a@) == Some(spec_name_server_views(v@)) && v@.len()
                == a@.len(),
            None => spec_name_server_list(a@) is None,
        },
{
    let mut out: Vec<VanityNameServer> = Vec::new();
    let n = a.len();
    proof {
        assert(a@.take(0) =~= Seq::<JsonValue>::empty());
        assert(spec_name_server_views(out@) =~= Seq::<VanityNameServerView>::empty());
    }
    let mut i: usize = 0;
    while i < n
        invariant
            n == a@.len(),
            i <= n,
            out@.len() == i,
            spec_name_server_list(a@.take(i as int)) == Some(spec_name_server_views(out@)),
        decreases n - i,
    {
        let ghost prev = out@;
        proof {
            assert(a@.take(i + 1).drop_last() =~= a@.take(i as int));
            assert(a@.take(i + 1).last() == a@[i as int]);
        }
        match name_server_from_json(&a[i]) {
            Some(s) => {
                out.push(s);
                proof {
                    assert(spec_name_server_views(out@) =~= spec_name_server_views(prev).push(
                        out@.last()@,
                    ));
                }
            },
            None => {
                proof {
                    lemma_name_server_list_none(a@, i + 1);
                }
                return None;
            },
        }
        i = i + 1;
    }
    proof {
        assert(a@.take(n as int) =~= a@);
    }
    Some(out)
}

/// What a name-server-list body decodes to.
pub open spec fn spec_name_server_list_payload(body: Seq<char>) -> Option<
    Seq<VanityNameServerView>,
> {
    match json::json_of(body) {
        Some(j) => match json::spec_get_arr(j, "data"@) {
            Some(a) => spec_name_server_list(a),
            None => None,
        },
        None => None,
    }
}

/// Builds the name-server-list envelope from a raw HTTP response, as
/// the other list builders.
pub fn name_server_list_from_raw(raw: &RawHttpResponse) -> (r: Result<
    DNSimpleResponse<Vec<VanityNameServer>>,
    DNSimpleError,
>)
    ensures
        spec_is_success(raw.status) ==> match spec_name_server_list_payload(raw.body@) {
            Some(view) => r matches Ok(env) && spec_envelope_matches(env, *raw) && (
            env.data matches Some(v) && spec_name_server_views(v@) == view && v@.len()
                == view.len()) && env.message is None,
            None => r == Err::<DNSimpleResponse<Vec<VanityNameServer>>, DNSimpleError>(
                DNSimpleError::Decode,
            ),
        },
        !spec_is_success(raw.status) ==> (r matches Ok(env) && spec_envelope_matches(env, *raw)
            && env.data is None && (match env.message {
            Some(m) => spec_error_from(raw.body@) == Some(m@),
            None => spec_error_from(raw.body@) is None,
        })),
{
    let mut env = Client::build_dnsimple_response::<Vec<VanityNameServer>>(raw);
    if 200 <= raw.status && raw.status < 300 {
        match json::parse_json(raw.body.as_str()) {
            Some(j) => match json::get_arr(&j, "data") {
                Some(a) => match name_servers_from_json(a) {
                    Some(v) => {
                        env.data = Some(v);
                        Ok(env)
                    },
                    None => Err(DNSimpleError::Decode),
                },
                None => Err(DNSimpleError::Decode),
            },
            None => Err(DNSimpleError::Decode),
        }
    } else {
        env.message = crate::dnsimple::dnsimple_error_from(raw.body.as_str());
        Ok(env)
    }
}

} // verus!
