//! The domains endpoints of the DNSimple API: domain CRUD and domain
//! collaborators, decoded from response bodies.

use vstd::prelude::*;

use crate::dnsimple::http::RawHttpResponse;
use crate::dnsimple::json::{self, JsonValue};
use crate::dnsimple::text;
use crate::dnsimple::{
    spec_envelope_matches, spec_error_from, spec_is_success, Client, DNSimpleEmptyResponse,
    DNSimpleError, DNSimpleResponse,
};

verus! {

/// Represents a domain attached to an account.
#[derive(Debug)]
pub struct Domain {
    /// The domain ID in DNSimple
    pub id: u64,
    /// The ID of the account holding the domain
    pub account_id: u64,
    /// The ID of the registrant contact, if the domain has one
    pub registrant_id: Option<u64>,
    /// The domain name
    pub name: String,
    /// The domain name, unicode
    pub unicode_name: String,
    /// The state the domain is in
    pub state: String,
    /// Whether the domain renews automatically
    pub auto_renew: bool,
    /// Whether the domain has WHOIS privacy
    pub private_whois: bool,
    /// The day the domain expires, if known
    pub expires_on: Option<String>,
    /// The instant the domain expires, if known
    pub expires_at: Option<String>,
    /// When the domain was created in DNSimple
    pub created_at: String,
    /// When the domain was last updated in DNSimple
    pub updated_at: String,
}

/// The mathematical content of a `Domain`.
pub struct DomainView {
    pub id: u64,
    pub account_id: u64,
    pub registrant_id: Option<u64>,
    pub name: Seq<char>,
    pub unicode_name: Seq<char>,
    pub state: Seq<char>,
    pub auto_renew: bool,
    pub private_whois: bool,
    pub expires_on: Option<Seq<char>>,
    pub expires_at: Option<Seq<char>>,
    pub created_at: Seq<char>,
    pub updated_at: Seq<char>,
}

impl View for Domain {
    type V = DomainView;

    open spec fn view(&self) -> DomainView {
        DomainView {
            id: self.id,
            account_id: self.account_id,
            registrant_id: self.registrant_id,
            name: self.name@,
            unicode_name: self.unicode_name@,
            state: self.state@,
            auto_renew: self.auto_renew,
            private_whois: self.private_whois,
            expires_on: json::spec_view_opt_string(self.expires_on),
            expires_at: json::spec_view_opt_string(self.expires_at),
            created_at: self.created_at@,
            updated_at: self.updated_at@,
        }
    }
}

/// A domain object: the required fields present with their types, the
/// nullable fields absent, null, or of their types.
pub open spec fn spec_domain(j: JsonValue) -> Option<DomainView> {
    if json::spec_get_u64(j, "id"@) is Some && json::spec_get_u64(j, "account_id"@) is Some
        && json::spec_get_nullable_u64(j, "registrant_id"@) is Some && json::spec_get_string(
        j,
        "name"@,
    ) is Some && json::spec_get_string(j, "unicode_name"@) is Some && json::spec_get_string(
        j,
        "state"@,
    ) is Some && json::spec_get_bool(j, "auto_renew"@) is Some && json::spec_get_bool(
        j,
        "private_whois"@,
    ) is Some && json::spec_get_nullable_string(j, "expires_on"@) is Some
        && json::spec_get_nullable_string(j, "expires_at"@) is Some && json::spec_get_string(
        j,
        "created_at"@,
    ) is Some && json::spec_get_string(j, "updated_at"@) is Some {
        Some(
            DomainView {
                id: json::spec_get_u64(j, "id"@).unwrap(),
                account_id: json::spec_get_u64(j, "account_id"@).unwrap(),
                registrant_id: json::spec_get_nullable_u64(j, "registrant_id"@).unwrap(),
                name: json::spec_get_string(j, "name"@).unwrap(),
                unicode_name: json::spec_get_string(j, "unicode_name"@).unwrap(),
                state: json::spec_get_string(j, "state"@).unwrap(),
                auto_renew: json::spec_get_bool(j, "auto_renew"@).unwrap(),
                private_whois: json::spec_get_bool(j, "private_whois"@).unwrap(),
                expires_on: json::spec_get_nullable_string(j, "expires_on"@).unwrap(),
                expires_at: json::spec_get_nullable_string(j, "expires_at"@).unwrap(),
                created_at: json::spec_get_string(j, "created_at"@).unwrap(),
                updated_at: json::spec_get_string(j, "updated_at"@).unwrap(),
            },
        )
    } else {
        None
    }
}

/// Decodes one domain. The two clauses on the nullable fields state the
/// optional-field mapping: a present value comes from a number or string
/// in the source, an absent one from a missing or null field.
pub fn domain_from_json(j: &JsonValue) -> (r: Option<Domain>)
    ensures
        match r {
            Some(d) => spec_domain(*j) == Some(d@),
            None => spec_domain(*j) is None,
        },
        r matches Some(d) ==> json::spec_get_nullable_u64(*j, "registrant_id"@) == Some(
            d.registrant_id,
        ),
        r matches Some(d) ==> json::spec_get_nullable_string(*j, "expires_on"@) == Some(
            d@.expires_on,
        ),
{
    let id = match json::get_u64(j, "id") {
        Some(v) => v,
        None => { return None; },
    };
    let account_id = match json::get_u64(j, "account_id") {
        Some(v) => v,
        None => { return None; },
    };
    let registrant_id = match json::get_nullable_u64(j, "registrant_id") {
        Some(v) => v,
        None => { return None; },
    };
    let name = match json::get_string(j, "name") {
        Some(v) => v,
        None => { return None; },
    };
    let unicode_name = match json::get_string(j, "unicode_name") {
        Some(v) => v,
        None => { return None; },
    };
    let state = match json::get_string(j, "state") {
        Some(v) => v,
        None => { return None; },
    };
    let auto_renew = match json::get_bool(j, "auto_renew") {
        Some(v) => v,
        None => { return None; },
    };
    let private_whois = match json::get_bool(j, "private_whois") {
        Some(v) => v,
        None => { return None; },
    };
    let expires_on = match json::get_nullable_string(j, "expires_on") {
        Some(v) => v,
        None => { return None; },
    };
    let expires_at = match json::get_nullable_string(j, "expires_at") {
        Some(v) => v,
        None => { return None; },
    };
    let created_at = match json::get_string(j, "created_at") {
        Some(v) => v,
        None => { return None; },
    };
    let updated_at = match json::get_string(j, "updated_at") {
        Some(v) => v,
        None => { return None; },
    };
    Some(
        Domain {
            id,
            account_id,
            registrant_id,
            name,
            unicode_name,
            state,
            auto_renew,
            private_whois,
            expires_on,
            expires_at,
            created_at,
            updated_at,
        },
    )
}

/// The domains of a JSON array, where every element decodes.
pub open spec fn spec_domain_list(a: Seq<JsonValue>) -> Option<Seq<DomainView>>
    decreases a.len(),
{
    if a.len() == 0 {
        Some(Seq::empty())
    } else {
        match (spec_domain_list(a.drop_last()), spec_domain(a.last())) {
            (Some(rest), Some(d)) => Some(rest.push(d)),
            _ => None,
        }
    }
}

proof fn lemma_domain_list_none(a: Seq<JsonValue>, i: int)
    requires
        0 <= i <= a.len(),
        spec_domain_list(a.take(i)) is None,
    ensures
        spec_domain_list(a) is None,
    decreases a.len() - i,
{
    if i < a.len() {
        assert(a.take(i + 1).drop_last() =~= a.take(i));
        lemma_domain_list_none(a, i + 1);
    } else {
        assert(a.take(i) =~= a);
    }
}

/// Law: a decoded domain list holds exactly one record per element of
/// the JSON array it came from.
pub proof fn lemma_domain_list_len(a: Seq<JsonValue>)
    ensures
        spec_domain_list(a) matches Some(s) ==> s.len() == a.len(),
    decreases a.len(),
{
    if a.len() > 0 {
        lemma_domain_list_len(a.drop_last());
    }
}

/// The contents of a vector of domains.
pub open spec fn spec_domain_views(v: Seq<Domain>) -> Seq<DomainView> {
    v.map_values(|d: Domain| d@)
}

/// Decodes a JSON array of domains; the result holds exactly one record
/// per array element.
pub fn domains_from_json(a: &Vec<JsonValue>) -> (r: Option<Vec<Domain>>)
    ensures
        match r {
            Some(v) => spec_domain_list(a@) == Some(spec_domain_views(v@)) && v@.len()
                == a@.len(),
            None => spec_domain_list(a@) is None,
        },
{
    let mut out: Vec<Domain> = Vec::new();
    let n = a.len();
    proof {
        assert(a@.take(0) =~= Seq::<JsonValue>::empty());
        assert(spec_domain_views(out@) =~= Seq::<DomainView>::empty());
    }
    let mut i: usize = 0;
    while i < n
        invariant
            n == a@.len(),
            i <= n,
            out@.len() == i,
            spec_domain_list(a@.take(i as int)) == Some(spec_domain_views(out@)),
        decreases n - i,
    {
        let ghost prev = out@;
        proof {
            assert(a@.take(i + 1).drop_last() =~= a@.take(i as int));
            assert(a@.take(i + 1).last() == a@[i as int]);
        }
        match domain_from_json(&a[i]) {
            Some(d) => {
                out.push(d);
                proof {
                    assert(spec_domain_views(out@) =~= spec_domain_views(prev).push(out@.last()@));
                }
            },
            None => {
                proof {
                    lemma_domain_list_none(a@, i + 1);
                }
                return None;
            },
        }
        i = i + 1;
    }
    proof {
        assert(a@.take(n as int) =~= a@);
    }
    Some(out)
}

/// What a domain-list body decodes to: the `data` field as an array of
/// domains.
pub open spec fn spec_domain_list_payload(body: Seq<char>) -> Option<Seq<DomainView>> {
    match json::json_of(body) {
        Some(j) => match json::spec_get_arr(j, "data"@) {
            Some(a) => spec_domain_list(a),
            None => None,
        },
        None => None,
    }
}

/// What a single-domain body decodes to: the `data` field as a domain.
pub open spec fn spec_domain_payload(body: Seq<char>) -> Option<DomainView> {
    match json::json_of(body) {
        Some(j) => match json::spec_get(j, "data"@) {
            Some(d) => spec_domain(d),
            None => None,
        },
        None => None,
    }
}

/// Builds the domain-list envelope from a raw HTTP response. On a
/// success status the payload holds one record per element of the
/// body's `data` array; on an error status the payload stays empty and
/// the structured error is taken from the body where it parses.
pub fn domain_list_from_raw(raw: &RawHttpResponse) -> (r: Result<
    DNSimpleResponse<Vec<Domain>>,
    DNSimpleError,
>)
    ensures
        spec_is_success(raw.status) ==> match spec_domain_list_payload(raw.body@) {
            Some(view) => r matches Ok(env) && spec_envelope_matches(env, *raw) && (
            env.data matches Some(v) && spec_domain_views(v@) == view && v@.len() == view.len())
                && env.message is None,
            None => r == Err::<DNSimpleResponse<Vec<Domain>>, DNSimpleError>(DNSimpleError::Decode),
        },
        !spec_is_success(raw.status) ==> (r matches Ok(env) && spec_envelope_matches(env, *raw)
            && env.data is None && (match env.message {
            Some(m) => spec_error_from(raw.body@) == Some(m@),
            None => spec_error_from(raw.body@) is None,
        })),
{
    let mut env = Client::build_dnsimple_response::<Vec<Domain>>(raw);
    if 200 <= raw.status && raw.status < 300 {
        match json::parse_json(raw.body.as_str()) {
            Some(j) => match json::get_arr(&j, "data") {
                Some(a) => match domains_from_json(a) {
                    Some(v) => {
                        env.data = Some(v);
                        Ok(env)
                    },
                    None => Err(DNSimpleError::Decode),
                },
                None => Err(DNSimpleError::Decode),
            },
            None => Err(DNSimpleError::Decode),
        }
    } else {
        env.message = crate::dnsimple::dnsimple_error_from(raw.body.as_str());
        Ok(env)
    }
}

/// Builds a single-domain envelope from a raw HTTP response, as
/// `domain_list_from_raw` with a single record in `data`.
pub fn domain_from_raw(raw: &RawHttpResponse) -> (r: Result<
    DNSimpleResponse<Domain>,
    DNSimpleError,
>)
    ensures
        spec_is_success(raw.status) ==> match spec_domain_payload(raw.body@) {
            Some(view) => r matches Ok(env) && spec_envelope_matches(env, *raw) && (
            env.data matches Some(d) && d@ == view) && env.message is None,
            None => r == Err::<DNSimpleResponse<Domain>, DNSimpleError>(DNSimpleError::Decode),
        },
        !spec_is_success(raw.status) ==> (r matches Ok(env) && spec_envelope_matches(env, *raw)
            && env.data is None && (match env.message {
            Some(m) => spec_error_from(raw.body@) == Some(m@),
            None => spec_error_from(raw.body@) is None,
        })),
{
    let mut env = Client::build_dnsimple_response::<Domain>(raw);
    if 200 <= raw.status && raw.status < 300 {
        match json::parse_json(raw.body.as_str()) {
            Some(j) => match json::obj_get(&j, "data") {
                Some(d) => match domain_from_json(d) {
                    Some(d) => {
                        env.data = Some(d);
                        Ok(env)
                    },
                    None => Err(DNSimpleError::Decode),
                },
                None => Err(DNSimpleError::Decode),
            },
            None => Err(DNSimpleError::Decode),
        }
    } else {
        env.message = crate::dnsimple::dnsimple_error_from(raw.body.as_str());
        Ok(env)
    }
}

/// Represents a collaborator on a domain.
#[derive(Debug)]
pub struct Collaborator {
    /// The collaborator ID in DNSimple
    pub id: u64,
    /// The ID of the domain collaborated on
    pub domain_id: u64,
    /// The name of the domain collaborated on
    pub domain_name: String,
    /// The ID of the collaborating user, once the user exists
    pub user_id: Option<u64>,
    /// The email of the collaborating user
    pub user_email: String,
    /// Whether the collaborator was invited rather than added directly
    pub invitation: bool,
    /// When the collaborator was created in DNSimple
    pub created_at: String,
    /// When the collaborator was last updated in DNSimple
    pub updated_at: String,
    /// When the invitation was accepted, if it was
    pub accepted_at: Option<String>,
}

/// The mathematical content of a `Collaborator`.
pub struct CollaboratorView {
    pub id: u64,
    pub domain_id: u64,
    pub domain_name: Seq<char>,
    pub user_id: Option<u64>,
    pub user_email: Seq<char>,
    pub invitation: bool,
    pub created_at: Seq<char>,
    pub updated_at: Seq<char>,
    pub accepted_at: Option<Seq<char>>,
}

impl View for Collaborator {
    type V = CollaboratorView;

    open spec fn view(&self) -> CollaboratorView {
        CollaboratorView {
            id: self.id,
            domain_id: self.domain_id,
            domain_name: self.domain_name@,
            user_id: self.user_id,
            user_email: self.user_email@,
            invitation: self.invitation,
            created_at: self.created_at@,
            updated_at: self.updated_at@,
            accepted_at: json::spec_view_opt_string(self.accepted_at),
        }
    }
}

/// A collaborator object, as `spec_domain` for its fields.
pub open spec fn spec_collaborator(j: JsonValue) -> Option<CollaboratorView> {
    if json::spec_get_u64(j, "id"@) is Some && json::spec_get_u64(j, "domain_id"@) is Some
        && json::spec_get_string(j, "domain_name"@) is Some && json::spec_get_nullable_u64(
        j,
        "user_id"@,
    ) is Some && json::spec_get_string(j, "user_email"@) is Some && json::spec_get_bool(
        j,
        "invitation"@,
    ) is Some && json::spec_get_string(j, "created_at"@) is Some && json::spec_get_string(
        j,
        "updated_at"@,
    ) is Some && json::spec_get_nullable_string(j, "accepted_at"@) is Some {
        Some(
            CollaboratorView {
                id: json::spec_get_u64(j, "id"@).unwrap(),
                domain_id: json::spec_get_u64(j, "domain_id"@).unwrap(),
                domain_name: json::spec_get_string(j, "domain_name"@).unwrap(),
                user_id: json::spec_get_nullable_u64(j, "user_id"@).unwrap(),
                user_email: json::spec_get_string(j, "user_email"@).unwrap(),
                invitation: json::spec_get_bool(j, "invitation"@).unwrap(),
                created_at: json::spec_get_string(j, "created_at"@).unwrap(),
                updated_at: json::spec_get_string(j, "updated_at"@).unwrap(),
                accepted_at: json::spec_get_nullable_string(j, "accepted_at"@).unwrap(),
            },
        )
    } else {
        None
    }
}

/// Decodes one collaborator; the clauses on `user_id` and `accepted_at`
/// state the optional-field mapping.
pub fn collaborator_from_json(j: &JsonValue) -> (r: Option<Collaborator>)
    ensures
        match r {
            Some(c) => spec_collaborator(*j) == Some(c@),
            None => spec_collaborator(*j) is None,
        },
        r matches Some(c) ==> json::spec_get_nullable_u64(*j, "user_id"@) == Some(c.user_id),
        r matches Some(c) ==> json::spec_get_nullable_string(*j, "accepted_at"@) == Some(
            c@.accepted_at,
        ),
{
    let id = match json::get_u64(j, "id") {
        Some(v) => v,
        None => { return None; },
    };
    let domain_id = match json::get_u64(j, "domain_id") {
        Some(v) => v,
        None => { return None; },
    };
    let domain_name = match json::get_string(j, "domain_name") {
        Some(v) => v,
        None => { return None; },
    };
    let user_id = match json::get_nullable_u64(j, "user_id") {
        Some(v) => v,
        None => { return None; },
    };
    let user_email = match json::get_string(j, "user_email") {
        Some(v) => v,
        None => { return None; },
    };
    let invitation = match json::get_bool(j, "invitation") {
        Some(v) => v,
        None => { return None; },
    };
    let created_at = match json::get_string(j, "created_at") {
        Some(v) => v,
        None => { return None; },
    };
    let updated_at = match json::get_string(j, "updated_at") {
        Some(v) => v,
        None => { return None; },
    };
    let accepted_at = match json::get_nullable_string(j, "accepted_at") {
        Some(v) => v,
        None => { return None; },
    };
    Some(
        Collaborator {
            id,
            domain_id,
            domain_name,
            user_id,
            user_email,
            invitation,
            created_at,
            updated_at,
            accepted_at,
        },
    )
}

/// The collaborators of a JSON array, where every element decodes.
pub open spec fn spec_collaborator_list(a: Seq<JsonValue>) -> Option<Seq<CollaboratorView>>
    decreases a.len(),
{
    if a.len() == 0 {
        Some(Seq::empty())
    } else {
        match (spec_collaborator_list(a.drop_last()), spec_collaborator(a.last())) {
            (Some(rest), Some(c)) => Some(rest.push(c)),
            _ => None,
        }
    }
}

proof fn lemma_collaborator_list_none(a: Seq<JsonValue>, i: int)
    requires
        0 <= i <= a.len(),
        spec_collaborator_list(a.take(i)) is None,
    ensures
        spec_collaborator_list(a) is None,
    decreases a.len() - i,
{
    if i < a.len() {
        assert(a.take(i + 1).drop_last() =~= a.take(i));
        lemma_collaborator_list_none(a, i + 1);
    } else {
        assert(a.take(i) =~= a);
    }
}

/// Law: a decoded collaborator list holds exactly one record per
/// element of the JSON array it came from.
pub proof fn lemma_collaborator_list_len(a: Seq<JsonValue>)
    ensures
        spec_collaborator_list(a) matches Some(s) ==> s.len() == a.len(),
    decreases a.len(),
{
    if a.len() > 0 {
        lemma_collaborator_list_len(a.drop_last());
    }
}

/// The contents of a vector of collaborators.
pub open spec fn spec_collaborator_views(v: Seq<Collaborator>) -> Seq<CollaboratorView> {
    v.map_values(|c: Collaborator| c@)
}

/// Decodes a JSON array of collaborators; the result holds exactly one
/// record per array element.
pub fn collaborators_from_json(a: &Vec<JsonValue>) -> (r: Option<Vec<Collaborator>>)
    ensures
        match r {
            Some(v) => spec_collaborator_list(a@) == Some(spec_collaborator_views(v@))
                && v@.len() == a@.len(),
            None => spec_collaborator_list(a@) is None,
        },
{
    let mut out: Vec<Collaborator> = Vec::new();
    let n = a.len();
    proof {
        assert(a@.take(0) =~= Seq::<JsonValue>::empty());
        assert(spec_collaborator_views(out@) =~= Seq::<CollaboratorView>::empty());
    }
    let mut i: usize = 0;
    while i < n
        invariant
            n == a@.len(),
            i <= n,
            out@.len() == i,
            spec_collaborator_list(a@.take(i as int)) == Some(spec_collaborator_views(out@)),
        decreases n - i,
    {
        let ghost prev = out@;
        proof {
            assert(a@.take(i + 1).drop_last() =~= a@.take(i as int));
            assert(a@.take(i + 1).last() == a@[i as int]);
        }
        match collaborator_from_json(&a[i]) {
            Some(c) => {
                out.push(c);
                proof {
                    assert(spec_collaborator_views(out@) =~= spec_collaborator_views(prev).push(
                        out@.last()@,
                    ));
                }
            },
            None => {
                proof {
                    lemma_collaborator_list_none(a@, i + 1);
                }
                return None;
            },
        }
        i = i + 1;
    }
    proof {
        assert(a@.take(n as int) =~= a@);
    }
    Some(out)
}

/// What a collaborator-list body decodes to.
pub open spec fn spec_collaborator_list_payload(body: Seq<char>) -> Option<Seq<CollaboratorView>> {
    match json::json_of(body) {
        Some(j) => match json::spec_get_arr(j, "data"@) {
            Some(a) => spec_collaborator_list(a),
            None => None,
        },
        None => None,
    }
}

/// What a single-collaborator body decodes to.
pub open spec fn spec_collaborator_payload(body: Seq<char>) -> Option<CollaboratorView> {
    match json::json_of(body) {
        Some(j) => match json::spec_get(j, "data"@) {
            Some(c) => spec_collaborator(c),
            None => None,
        },
        None => None,
    }
}

/// Builds the collaborator-list envelope from a raw HTTP response, as
/// `domain_list_from_raw`.
pub fn collaborator_list_from_raw(raw: &RawHttpResponse) -> (r: Result<
    DNSimpleResponse<Vec<Collaborator>>,
    DNSimpleError,
>)
    ensures
        spec_is_success(raw.status) ==> match spec_collaborator_list_payload(raw.body@) {
            Some(view) => r matches Ok(env) && spec_envelope_matches(env, *raw) && (
            env.data matches Some(v) && spec_collaborator_views(v@) == view && v@.len()
                == view.len()) && env.message is None,
            None => r == Err::<DNSimpleResponse<Vec<Collaborator>>, DNSimpleError>(
                DNSimpleError::Decode,
            ),
        },
        !spec_is_success(raw.status) ==> (r matches Ok(env) && spec_envelope_matches(env, *raw)
            && env.data is None && (match env.message {
            Some(m) => spec_error_from(raw.body@) == Some(m@),
            None => spec_error_from(raw.body@) is None,
        })),
{
    let mut env = Client::build_dnsimple_response::<Vec<Collaborator>>(raw);
    if 200 <= raw.status && raw.status < 300 {
        match json::parse_json(raw.body.as_str()) {
            Some(j) => match json::get_arr(&j, "data") {
                Some(a) => match collaborators_from_json(a) {
                    Some(v) => {
                        env.data = Some(v);
                        Ok(env)
                    },
                    None => Err(DNSimpleError::Decode),
                },
                None => Err(DNSimpleError::Decode),
            },
            None => Err(DNSimpleError::Decode),
        }
    } else {
        env.message = crate::dnsimple::dnsimple_error_from(raw.body.as_str());
        Ok(env)
    }
}

/// Builds a single-collaborator envelope from a raw HTTP response, as
/// `domain_from_raw`.
pub fn collaborator_from_raw(raw: &RawHttpResponse) -> (r: Result<
    DNSimpleResponse<Collaborator>,
    DNSimpleError,
>)
    ensures
        spec_is_success(raw.status) ==> match spec_collaborator_payload(raw.body@) {
            Some(view) => r matches Ok(env) && spec_envelope_matches(env, *raw) && (
            env.data matches Some(c) && c@ == view) && env.message is None,
            None => r == Err::<DNSimpleResponse<Collaborator>, DNSimpleError>(
                DNSimpleError::Decode,
            ),
        },
        !spec_is_success(raw.status) ==> (r matches Ok(env) && spec_envelope_matches(env, *raw)
            && env.data is None && (match env.message {
            Some(m) => spec_error_from(raw.body@) == Some(m@),
            None => spec_error_from(raw.body@) is None,
        })),
{
    let mut env = Client::build_dnsimple_response::<Collaborator>(raw);
    if 200 <= raw.status && raw.status < 300 {
        match json::parse_json(raw.body.as_str()) {
            Some(j) => match json::obj_get(&j, "data") {
                Some(c) => match collaborator_from_json(c) {
                    Some(c) => {
                        env.data = Some(c);
                        Ok(env)
                    },
                    None => Err(DNSimpleError::Decode),
                },
                None => Err(DNSimpleError::Decode),
            },
            None => Err(DNSimpleError::Decode),
        }
    } else {
        env.message = crate::dnsimple::dnsimple_error_from(raw.body.as_str());
        Ok(env)
    }
}

/// The path of an account's domain list.
pub fn domains_path(account_id: u64) -> (r: String)
    ensures
        r@ == "/"@ + text::spec_u64_decimal(account_id as nat) + "/domains"@,
{
    let aid = text::u64_to_string(account_id);
    String::from_str("/").concat(aid.as_str()).concat("/domains")
}

/// The path of one domain.
pub fn domain_path(account_id: u64, domain_id: u64) -> (r: String)
    ensures
        r@ == "/"@ + text::spec_u64_decimal(account_id as nat) + "/domains/"@
            + text::spec_u64_decimal(domain_id as nat),
{
    let aid = text::u64_to_string(account_id);
    let did = text::u64_to_string(domain_id);
    String::from_str("/").concat(aid.as_str()).concat("/domains/").concat(did.as_str())
}

/// The path of a domain's collaborator list.
pub fn collaborators_path(account_id: u64, domain_id: u64) -> (r: String)
    ensures
        r@ == "/"@ + text::spec_u64_decimal(account_id as nat) + "/domains/"@
            + text::spec_u64_decimal(domain_id as nat) + "/collaborators"@,
{
    let aid = text::u64_to_string(account_id);
    let did = text::u64_to_string(domain_id);
    String::from_str("/").concat(aid.as_str()).concat("/domains/").concat(did.as_str()).concat(
        "/collaborators",
    )
}

/// The path of one collaborator of a domain.
pub fn collaborator_path(account_id: u64, domain_id: u64, collaborator_id: u64) -> (r: String)
    ensures
        r@ == "/"@ + text::spec_u64_decimal(account_id as nat) + "/domains/"@
            + text::spec_u64_decimal(domain_id as nat) + "/collaborators/"@
            + text::spec_u64_decimal(collaborator_id as nat),
{
    let aid = text::u64_to_string(account_id);
    let did = text::u64_to_string(domain_id);
    let cid = text::u64_to_string(collaborator_id);
    String::from_str("/").concat(aid.as_str()).concat("/domains/").concat(did.as_str()).concat(
        "/collaborators/",
    ).concat(cid.as_str())
}

/// The Domains Service handles the domains endpoints of the DNSimple
/// API.
pub struct Domains<'a> {
    pub client: &'a Client,
}

impl Domains<'_> {
    /// Lists the domains of the account.
    pub fn list_domains(&self, account_id: u64) -> (r: Result<
        DNSimpleResponse<Vec<Domain>>,
        DNSimpleError,
    >)
        ensures
            r matches Ok(env) ==> (env.data is Some ==> spec_is_success(env.status)
                && env.message is None),
            r matches Ok(env) ==> (env.message is Some ==> !spec_is_success(env.status)
                && env.data is None),
    {
        let path = domains_path(account_id);
        let api = self.client.get::<Vec<Domain>>(path.as_str())?;
        domain_list_from_raw(&api.raw_http_response)
    }

    /// Creates a domain under the account, posting its name.
    pub fn create_domain(&self, account_id: u64, domain_name: String) -> (r: Result<
        DNSimpleResponse<Domain>,
        DNSimpleError,
    >)
        ensures
            r matches Ok(env) ==> (env.data is Some ==> spec_is_success(env.status)
                && env.message is None),
            r matches Ok(env) ==> (env.message is Some ==> !spec_is_success(env.status)
                && env.data is None),
    {
        let path = domains_path(account_id);
        let body = json::json_string_object("name", domain_name.as_str());
        let api = self.client.post::<Domain>(path.as_str(), body.as_str())?;
        domain_from_raw(&api.raw_http_response)
    }

    /// Retrieves one domain of the account.
    pub fn get_domain(&self, account_id: u64, domain_id: u64) -> (r: Result<
        DNSimpleResponse<Domain>,
        DNSimpleError,
    >)
        ensures
            r matches Ok(env) ==> (env.data is Some ==> spec_is_success(env.status)
                && env.message is None),
            r matches Ok(env) ==> (env.message is Some ==> !spec_is_success(env.status)
                && env.data is None),
    {
        let path = domain_path(account_id, domain_id);
        let api = self.client.get::<Domain>(path.as_str())?;
        domain_from_raw(&api.raw_http_response)
    }

    /// Deletes one domain of the account: no body comes back, so the
    /// envelope can hold neither a payload nor an error.
    pub fn delete_domain(&self, account_id: u64, domain_id: u64) -> (r: Result<
        DNSimpleEmptyResponse,
        DNSimpleError,
    >)
        ensures
            r matches Err(e) ==> e is Transport,
    {
        let path = domain_path(account_id, domain_id);
        self.client.delete(path.as_str())
    }

    /// Lists the collaborators of a domain.
    pub fn list_collaborators(&self, account_id: u64, domain_id: u64) -> (r: Result<
        DNSimpleResponse<Vec<Collaborator>>,
        DNSimpleError,
    >)
        ensures
            r matches Ok(env) ==> (env.data is Some ==> spec_is_success(env.status)
                && env.message is None),
            r matches Ok(env) ==> (env.message is Some ==> !spec_is_success(env.status)
                && env.data is None),
    {
        let path = collaborators_path(account_id, domain_id);
        let api = self.client.get::<Vec<Collaborator>>(path.as_str())?;
        collaborator_list_from_raw(&api.raw_http_response)
    }

    /// Adds a collaborator to a domain, posting the collaborating
    /// user's email.
    pub fn add_collaborator(&self, account_id: u64, domain_id: u64, email: String) -> (r: Result<
        DNSimpleResponse<Collaborator>,
        DNSimpleError,
    >)
        ensures
            r matches Ok(env) ==> (env.data is Some ==> spec_is_success(env.status)
                && env.message is None),
            r matches Ok(env) ==> (env.message is Some ==> !spec_is_success(env.status)
                && env.data is None),
    {
        let path = collaborators_path(account_id, domain_id);
        let body = json::json_string_object("email", email.as_str());
        let api = self.client.post::<Collaborator>(path.as_str(), body.as_str())?;
        collaborator_from_raw(&api.raw_http_response)
    }

    /// Removes one collaborator from a domain, as `delete_domain`.
    pub fn remove_collaborator(
        &self,
        account_id: u64,
        domain_id: u64,
        collaborator_id: u64,
    ) -> (r: Result<DNSimpleEmptyResponse, DNSimpleError>)
        ensures
            r matches Err(e) ==> e is Transport,
    {
        let path = collaborator_path(account_id, domain_id, collaborator_id);
        self.client.delete(path.as_str())
    }
}

} // verus!
