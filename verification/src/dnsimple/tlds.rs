//! The TLD endpoints of the DNSimple API: TLD listing and lookup, and a
//! TLD's extended registration attributes.

use vstd::prelude::*;

use crate::dnsimple::http::RawHttpResponse;
use crate::dnsimple::json::{self, JsonValue};
use crate::dnsimple::text;
use crate::dnsimple::{
    spec_envelope_matches, spec_error_from, spec_is_success, Client, DNSimpleError,
    DNSimpleResponse, Paginate, Sort,
};

verus! {

/// Represents a top-level domain as the registry describes it.
#[derive(Debug)]
pub struct Tld {
    /// The TLD itself
    pub tld: String,
    /// The numbered type of the TLD (generic, country code, ...)
    pub tld_type: u64,
    /// Whether WHOIS privacy is available
    pub whois_privacy: bool,
    /// Whether the TLD only renews automatically
    pub auto_renew_only: bool,
    /// Whether the TLD supports internationalized names
    pub idn: bool,
    /// The minimum registration period, in years
    pub minimum_registration: u64,
    /// Whether registrations are possible
    pub registration_enabled: bool,
    /// Whether renewals are possible
    pub renewal_enabled: bool,
    /// Whether transfers are possible
    pub transfer_enabled: bool,
    /// How DNSSEC is interfaced for the TLD
    pub dnssec_interface_type: String,
}

/// The mathematical content of a `Tld`.
pub struct TldView {
    pub tld: Seq<char>,
    pub tld_type: u64,
    pub whois_privacy: bool,
    pub auto_renew_only: bool,
    pub idn: bool,
    pub minimum_registration: u64,
    pub registration_enabled: bool,
    pub renewal_enabled: bool,
    pub transfer_enabled: bool,
    pub dnssec_interface_type: Seq<char>,
}

impl View for Tld {
    type V = TldView;

    open spec fn view(&self) -> TldView {
        TldView {
            tld: self.tld@,
            tld_type: self.tld_type,
            whois_privacy: self.whois_privacy,
            auto_renew_only: self.auto_renew_only,
            idn: self.idn,
            minimum_registration: self.minimum_registration,
            registration_enabled: self.registration_enabled,
            renewal_enabled: self.renewal_enabled,
            transfer_enabled: self.transfer_enabled,
            dnssec_interface_type: self.dnssec_interface_type@,
        }
    }
}

/// A TLD object: all fields present with their types.
pub open spec fn spec_tld(j: JsonValue) -> Option<TldView> {
    if json::spec_get_string(j, "tld"@) is Some && json::spec_get_u64(j, "tld_type"@) is Some
        && json::spec_get_bool(j, "whois_privacy"@) is Some && json::spec_get_bool(
        j,
        "auto_renew_only"@,
    ) is Some && json::spec_get_bool(j, "idn"@) is Some && json::spec_get_u64(
        j,
        "minimum_registration"@,
    ) is Some && json::spec_get_bool(j, "registration_enabled"@) is Some && json::spec_get_bool(
        j,
        "renewal_enabled"@,
    ) is Some && json::spec_get_bool(j, "transfer_enabled"@) is Some && json::spec_get_string(
        j,
        "dnssec_interface_type"@,
    ) is Some {
        Some(
            TldView {
                tld: json::spec_get_string(j, "tld"@).unwrap(),
                tld_type: json::spec_get_u64(j, "tld_type"@).unwrap(),
                whois_privacy: json::spec_get_bool(j, "whois_privacy"@).unwrap(),
                auto_renew_only: json::spec_get_bool(j, "auto_renew_only"@).unwrap(),
                idn: json::spec_get_bool(j, "idn"@).unwrap(),
                minimum_registration: json::spec_get_u64(j, "minimum_registration"@).unwrap(),
                registration_enabled: json::spec_get_bool(j, "registration_enabled"@).unwrap(),
                renewal_enabled: json::spec_get_bool(j, "renewal_enabled"@).unwrap(),
                transfer_enabled: json::spec_get_bool(j, "transfer_enabled"@).unwrap(),
                dnssec_interface_type: json::spec_get_string(j, "dnssec_interface_type"@).unwrap(),
            },
        )
    } else {
        None
    }
}

pub fn tld_from_json(j: &JsonValue) -> (r: Option<Tld>)
    ensures
        match r {
            Some(t) => spec_tld(*j) == Some(t@),
            None => spec_tld(*j) is None,
        },
{
    let tld = match json::get_string(j, "tld") {
        Some(v) => v,
        None => { return None; },
    };
    let tld_type = match json::get_u64(j, "tld_type") {
        Some(v) => v,
        None => { return None; },
    };
    let whois_privacy = match json::get_bool(j, "whois_privacy") {
        Some(v) => v,
        None => { return None; },
    };
    let auto_renew_only = match json::get_bool(j, "auto_renew_only") {
        Some(v) => v,
        None => { return None; },
    };
    let idn = match json::get_bool(j, "idn") {
        Some(v) => v,
        None => { return None; },
    };
    let minimum_registration = match json::get_u64(j, "minimum_registration") {
        Some(v) => v,
        None => { return None; },
    };
    let registration_enabled = match json::get_bool(j, "registration_enabled") {
        Some(v) => v,
        None => { return None; },
    };
    let renewal_enabled = match json::get_bool(j, "renewal_enabled") {
        Some(v) => v,
        None => { return None; },
    };
    let transfer_enabled = match json::get_bool(j, "transfer_enabled") {
        Some(v) => v,
        None => { return None; },
    };
    let dnssec_interface_type = match json::get_string(j, "dnssec_interface_type") {
        Some(v) => v,
        None => { return None; },
    };
    Some(
        Tld {
            tld,
            tld_type,
            whois_privacy,
            auto_renew_only,
            idn,
            minimum_registration,
            registration_enabled,
            renewal_enabled,
            transfer_enabled,
            dnssec_interface_type,
        },
    )
}

/// The TLDs of a JSON array, where every element decodes.
pub open spec fn spec_tld_list(a: Seq<JsonValue>) -> Option<Seq<TldView>>
    decreases a.len(),
{
    if a.len() == 0 {
        Some(Seq::empty())
    } else {
        match (spec_tld_list(a.drop_last()), spec_tld(a.last())) {
            (Some(rest), Some(t)) => Some(rest.push(t)),
            _ => None,
        }
    }
}

proof fn lemma_tld_list_none(a: Seq<JsonValue>, i: int)
    requires
        0 <= i <= a.len(),
        spec_tld_list(a.take(i)) is None,
    ensures
        spec_tld_list(a) is None,
    decreases a.len() - i,
{
    if i < a.len() {
        assert(a.take(i + 1).drop_last() =~= a.take(i));
        lemma_tld_list_none(a, i + 1);
    } else {
        assert(a.take(i) =~= a);
    }
}

/// Law: a decoded TLD list holds exactly one record per element of the
/// JSON array it came from.
pub proof fn lemma_tld_list_len(a: Seq<JsonValue>)
    ensures
        spec_tld_list(a) matches Some(s) ==> s.len() == a.len(),
    decreases a.len(),
{
    if a.len() > 0 {
        lemma_tld_list_len(a.drop_last());
    }
}

/// The contents of a vector of TLDs.
pub open spec fn spec_tld_views(v: Seq<Tld>) -> Seq<TldView> {
    v.map_values(|t: Tld| t@)
}

/// Decodes a JSON array of TLDs; the result holds exactly one record
/// per array element.
pub fn tlds_from_json(a: &Vec<JsonValue>) -> (r: Option<Vec<Tld>>)
    ensures
        match r {
            Some(v) => spec_tld_list(a@) == Some(spec_tld_views(v@)) && v@.len() == a@.len(),
            None => spec_tld_list(a@) is None,
        },
{
    let mut out: Vec<Tld> = Vec::new();
    let n = a.len();
    proof {
        assert(a@.take(0) =~= Seq::<JsonValue>::empty());
        assert(spec_tld_views(out@) =~= Seq::<TldView>::empty());
    }
    let mut i: usize = 0;
    while i < n
        invariant
            n == a@.len(),
            i <= n,
            out@.len() == i,
            spec_tld_list(a@.take(i as int)) == Some(spec_tld_views(out@)),
        decreases n - i,
    {
        let ghost prev = out@;
        proof {
            assert(a@.take(i + 1).drop_last() =~= a@.take(i as int));
            assert(a@.take(i + 1).last() == a@[i as int]);
        }
        match tld_from_json(&a[i]) {
            Some(t) => {
                out.push(t);
                proof {
                    assert(spec_tld_views(out@) =~= spec_tld_views(prev).push(out@.last()@));
                }
            },
            None => {
                proof {
                    lemma_tld_list_none(a@, i + 1);
                }
                return None;
            },
        }
        i = i + 1;
    }
    proof {
        assert(a@.take(n as int) =~= a@);
    }
    Some(out)
}

/// Represents one choice offered by an extended attribute.
#[derive(Debug)]
pub struct TldExtendedAttributeOption {
    /// The human title of the choice
    pub title: String,
    /// The value sent for the choice
    pub value: String,
    /// A description of the choice
    pub description: String,
}

/// The mathematical content of a `TldExtendedAttributeOption`.
pub struct TldExtendedAttributeOptionView {
    pub title: Seq<char>,
    pub value: Seq<char>,
    pub description: Seq<char>,
}

impl View for TldExtendedAttributeOption {
    type V = TldExtendedAttributeOptionView;

    open spec fn view(&self) -> TldExtendedAttributeOptionView {
        TldExtendedAttributeOptionView {
            title: self.title@,
            value: self.value@,
            description: self.description@,
        }
    }
}

/// An extended-attribute option object: all three fields present.
pub open spec fn spec_attribute_option(j: JsonValue) -> Option<TldExtendedAttributeOptionView> {
    match (
        json::spec_get_string(j, "title"@),
        json::spec_get_string(j, "value"@),
        json::spec_get_string(j, "description"@),
    ) {
        (Some(title), Some(option_value), Some(description)) => Some(
            TldExtendedAttributeOptionView { title, value: option_value, description },
        ),
        _ => None,
    }
}

pub fn attribute_option_from_json(j: &JsonValue) -> (r: Option<TldExtendedAttributeOption>)
    ensures
        match r {
            Some(o) => spec_attribute_option(*j) == Some(o@),
            None => spec_attribute_option(*j) is None,
        },
{
    match (
        json::get_string(j, "title"),
        json::get_string(j, "value"),
        json::get_string(j, "description"),
    ) {
        (Some(title), Some(option_value), Some(description)) => Some(
            TldExtendedAttributeOption { title, value: option_value, description },
        ),
        _ => None,
    }
}

/// The options of a JSON array, where every element decodes.
pub open spec fn spec_option_list(a: Seq<JsonValue>) -> Option<
    Seq<TldExtendedAttributeOptionView>,
>
    decreases a.len(),
{
    if a.len() == 0 {
        Some(Seq::empty())
    } else {
        match (spec_option_list(a.drop_last()), spec_attribute_option(a.last())) {
            (Some(rest), Some(o)) => Some(rest.push(o)),
            _ => None,
        }
    }
}

proof fn lemma_option_list_none(a: Seq<JsonValue>, i: int)
    requires
        0 <= i <= a.len(),
        spec_option_list(a.take(i)) is None,
    ensures
        spec_option_list(a) is None,
    decreases a.len() - i,
{
    if i < a.len() {
        assert(a.take(i + 1).drop_last() =~= a.take(i));
        lemma_option_list_none(a, i + 1);
    } else {
        assert(a.take(i) =~= a);
    }
}

/// Law: a decoded option list holds exactly one record per element of
/// the JSON array it came from.
pub proof fn lemma_option_list_len(a: Seq<JsonValue>)
    ensures
        spec_option_list(a) matches Some(s) ==> s.len() == a.len(),
    decreases a.len(),
{
    if a.len() > 0 {
        lemma_option_list_len(a.drop_last());
    }
}

/// The contents of a vector of options.
pub open spec fn spec_option_views(v: Seq<TldExtendedAttributeOption>) -> Seq<
    TldExtendedAttributeOptionView,
> {
    v.map_values(|o: TldExtendedAttributeOption| o@)
}

pub fn attribute_options_from_json(a: &Vec<JsonValue>) -> (r: Option<
    Vec<TldExtendedAttributeOption>,
>)
    ensures
        match r {
            Some(v) => spec_option_list(a@) == Some(spec_option_views(v@)) && v@.len()
                == a@.len(),
            None => spec_option_list(a@) is None,
        },
{
    let mut out: Vec<TldExtendedAttributeOption> = Vec::new();
    let n = a.len();
    proof {
        assert(a@.take(0) =~= Seq::<JsonValue>::empty());
        assert(spec_option_views(out@) =~= Seq::<TldExtendedAttributeOptionView>::empty());
    }
    let mut i: usize = 0;
    while i < n
        invariant
            n == a@.len(),
            i <= n,
            out@.len() == i,
            spec_option_list(a@.take(i as int)) == Some(spec_option_views(out@)),
        decreases n - i,
    {
        let ghost prev = out@;
        proof {
            assert(a@.take(i + 1).drop_last() =~= a@.take(i as int));
            assert(a@.take(i + 1).last() == a@[i as int]);
        }
        match attribute_option_from_json(&a[i]) {
            Some(o) => {
                out.push(o);
                proof {
                    assert(spec_option_views(out@) =~= spec_option_views(prev).push(out@.last()@));
                }
            },
            None => {
                proof {
                    lemma_option_list_none(a@, i + 1);
                }
                return None;
            },
        }
        i = i + 1;
    }
    proof {
        assert(a@.take(n as int) =~= a@);
    }
    Some(out)
}

/// Represents an extended registration attribute a TLD may require.
#[derive(Debug)]
pub struct TldExtendedAttribute {
    /// The attribute name
    pub name: String,
    /// A description of the attribute
    pub description: String,
    /// Whether the attribute must be supplied
    pub required: bool,
    /// The choices the attribute offers
    pub options: Vec<TldExtendedAttributeOption>,
}

/// The mathematical content of a `TldExtendedAttribute`.
pub struct TldExtendedAttributeView {
    pub name: Seq<char>,
    pub description: Seq<char>,
    pub required: bool,
    pub options: Seq<TldExtendedAttributeOptionView>,
}

impl View for TldExtendedAttribute {
    type V = TldExtendedAttributeView;

    open spec fn view(&self) -> TldExtendedAttributeView {
        TldExtendedAttributeView {
            name: self.name@,
            description: self.description@,
            required: self.required,
            options: spec_option_views(self.options@),
        }
    }
}

/// An extended-attribute object: name, description and required flag
/// present, and an `options` array whose every element decodes.
pub open spec fn spec_attribute(j: JsonValue) -> Option<TldExtendedAttributeView> {
    match (
        json::spec_get_string(j, "name"@),
        json::spec_get_string(j, "description"@),
        json::spec_get_bool(j, "required"@),
        json::spec_get_arr(j, "options"@),
    ) {
        (Some(name), Some(description), Some(required), Some(options_arr)) => match spec_option_list(
            options_arr,
        ) {
            Some(options) => Some(
                TldExtendedAttributeView { name, description, required, options },
            ),
            None => None,
        },
        _ => None,
    }
}

pub fn attribute_from_json(j: &JsonValue) -> (r: Option<TldExtendedAttribute>)
    ensures
        match r {
            Some(e) => spec_attribute(*j) == Some(e@),
            None => spec_attribute(*j) is None,
        },
{
    let name = match json::get_string(j, "name") {
        Some(v) => v,
        None => { return None; },
    };
    let description = match json::get_string(j, "description") {
        Some(v) => v,
        None => { return None; },
    };
    let required = match json::get_bool(j, "required") {
        Some(v) => v,
        None => { return None; },
    };
    let options_arr = match json::get_arr(j, "options") {
        Some(v) => v,
        None => { return None; },
    };
    let options = match attribute_options_from_json(options_arr) {
        Some(v) => v,
        None => { return None; },
    };
    Some(TldExtendedAttribute { name, description, required, options })
}

/// The attributes of a JSON array, where every element decodes.
pub open spec fn spec_attribute_list(a: Seq<JsonValue>) -> Option<Seq<TldExtendedAttributeView>>
    decreases a.len(),
{
    if a.len() == 0 {
        Some(Seq::empty())
    } else {
        match (spec_attribute_list(a.drop_last()), spec_attribute(a.last())) {
            (Some(rest), Some(e)) => Some(rest.push(e)),
            _ => None,
        }
    }
}

proof fn lemma_attribute_list_none(a: Seq<JsonValue>, i: int)
    requires
        0 <= i <= a.len(),
        spec_attribute_list(a.take(i)) is None,
    ensures
        spec_attribute_list(a) is None,
    decreases a.len() - i,
{
    if i < a.len() {
        assert(a.take(i + 1).drop_last() =~= a.take(i));
        lemma_attribute_list_none(a, i + 1);
    } else {
        assert(a.take(i) =~= a);
    }
}

/// Law: a decoded attribute list holds exactly one record per element
/// of the JSON array it came from.
pub proof fn lemma_attribute_list_len(a: Seq<JsonValue>)
    ensures
        spec_attribute_list(a) matches Some(s) ==> s.len() == a.len(),
    decreases a.len(),
{
    if a.len() > 0 {
        lemma_attribute_list_len(a.drop_last());
    }
}

/// The contents of a vector of attributes.
pub open spec fn spec_attribute_views(v: Seq<TldExtendedAttribute>) -> Seq<
    TldExtendedAttributeView,
> {
    v.map_values(|e: TldExtendedAttribute| e@)
}

pub fn attributes_from_json(a: &Vec<JsonValue>) -> (r: Option<Vec<TldExtendedAttribute>>)
    ensures
        match r {
            Some(v) => spec_attribute_list(a@) == Some(spec_attribute_views(v@)) && v@.len()
                == a@.len(),
            None => spec_attribute_list(a@) is None,
        },
{
    let mut out: Vec<TldExtendedAttribute> = Vec::new();
    let n = a.len();
    proof {
        assert(a@.take(0) =~= Seq::<JsonValue>::empty());
        assert(spec_attribute_views(out@) =~= Seq::<TldExtendedAttributeView>::empty());
    }
    let mut i: usize = 0;
    while i < n
        invariant
            n == a@.len(),
            i <= n,
            out@.len() == i,
            spec_attribute_list(a@.take(i as int)) == Some(spec_attribute_views(out@)),
        decreases n - i,
    {
        let ghost prev = out@;
        proof {
            assert(a@.take(i + 1).drop_last() =~= a@.take(i as int));
            assert(a@.take(i + 1).last() == a@[i as int]);
        }
        match attribute_from_json(&a[i]) {
            Some(e) => {
                out.push(e);
                proof {
                    assert(spec_attribute_views(out@) =~= spec_attribute_views(prev).push(
                        out@.last()@,
                    ));
                }
            },
            None => {
                proof {
                    lemma_attribute_list_none(a@, i + 1);
                }
                return None;
            },
        }
        i = i + 1;
    }
    proof {
        assert(a@.take(n as int) =~= a@);
    }
    Some(out)
}

/// What a TLD-list body decodes to.
pub open spec fn spec_tld_list_payload(body: Seq<char>) -> Option<Seq<TldView>> {
    match json::json_of(body) {
        Some(j) => match json::spec_get_arr(j, "data"@) {
            Some(a) => spec_tld_list(a),
            None => None,
        },
        None => None,
    }
}

/// What a single-TLD body decodes to.
pub open spec fn spec_tld_payload(body: Seq<char>) -> Option<TldView> {
    match json::json_of(body) {
        Some(j) => match json::spec_get(j, "data"@) {
            Some(t) => spec_tld(t),
            None => None,
        },
        None => None,
    }
}

/// What an extended-attributes body decodes to.
pub open spec fn spec_attribute_list_payload(body: Seq<char>) -> Option<
    Seq<TldExtendedAttributeView>,
> {
    match json::json_of(body) {
        Some(j) => match json::spec_get_arr(j, "data"@) {
            Some(a) => spec_attribute_list(a),
            None => None,
        },
        None => None,
    }
}

/// Builds the TLD-list envelope from a raw HTTP response, as the other
/// list builders.
pub fn tld_list_from_raw(raw: &RawHttpResponse) -> (r: Result<
    DNSimpleResponse<Vec<Tld>>,
    DNSimpleError,
>)
    ensures
        spec_is_success(raw.status) ==> match spec_tld_list_payload(raw.body@) {
            Some(view) => r matches Ok(env) && spec_envelope_matches(env, *raw) && (
            env.data matches Some(v) && spec_tld_views(v@) == view && v@.len() == view.len())
                && env.message is None,
            None => r == Err::<DNSimpleResponse<Vec<Tld>>, DNSimpleError>(DNSimpleError::Decode),
        },
        !spec_is_success(raw.status) ==> (r matches Ok(env) && spec_envelope_matches(env, *raw)
            && env.data is None && (match env.message {
            Some(m) => spec_error_from(raw.body@) == Some(m@),
            None => spec_error_from(raw.body@) is None,
        })),
{
    let mut env = Client::build_dnsimple_response::<Vec<Tld>>(raw);
    if 200 <= raw.status && raw.status < 300 {
        match json::parse_json(raw.body.as_str()) {
            Some(j) => match json::get_arr(&j, "data") {
                Some(a) => match tlds_from_json(a) {
                    Some(v) => {
                        env.data = Some(v);
                        Ok(env)
                    },
                    None => Err(DNSimpleError::Decode),
                },
                None => Err(DNSimpleError::Decode),
            },
            None => Err(DNSimpleError::Decode),
        }
    } else {
        env.message = crate::dnsimple::dnsimple_error_from(raw.body.as_str());
        Ok(env)
    }
}

/// Builds a single-TLD envelope from a raw HTTP response.
pub fn tld_from_raw(raw: &RawHttpResponse) -> (r: Result<DNSimpleResponse<Tld>, DNSimpleError>)
    ensures
        spec_is_success(raw.status) ==> match spec_tld_payload(raw.body@) {
            Some(view) => r matches Ok(env) && spec_envelope_matches(env, *raw) && (
            env.data matches Some(t) && t@ == view) && env.message is None,
            None => r == Err::<DNSimpleResponse<Tld>, DNSimpleError>(DNSimpleError::Decode),
        },
        !spec_is_success(raw.status) ==> (r matches Ok(env) && spec_envelope_matches(env, *raw)
            && env.data is None && (match env.message {
            Some(m) => spec_error_from(raw.body@) == Some(m@),
            None => spec_error_from(raw.body@) is None,
        })),
{
    let mut env = Client::build_dnsimple_response::<Tld>(raw);
    if 200 <= raw.status && raw.status < 300 {
        match json::parse_json(raw.body.as_str()) {
            Some(j) => match json::obj_get(&j, "data") {
                Some(t) => match tld_from_json(t) {
                    Some(t) => {
                        env.data = Some(t);
                        Ok(env)
                    },
                    None => Err(DNSimpleError::Decode),
                },
                None => Err(DNSimpleError::Decode),
            },
            None => Err(DNSimpleError::Decode),
        }
    } else {
        env.message = crate::dnsimple::dnsimple_error_from(raw.body.as_str());
        Ok(env)
    }
}

/// Builds the extended-attributes envelope from a raw HTTP response.
pub fn attribute_list_from_raw(raw: &RawHttpResponse) -> (r: Result<
    DNSimpleResponse<Vec<TldExtendedAttribute>>,
    DNSimpleError,
>)
    ensures
        spec_is_success(raw.status) ==> match spec_attribute_list_payload(raw.body@) {
            Some(view) => r matches Ok(env) && spec_envelope_matches(env, *raw) && (
            env.data matches Some(v) && spec_attribute_views(v@) == view && v@.len()
                == view.len()) && env.message is None,
            None => r == Err::<DNSimpleResponse<Vec<TldExtendedAttribute>>, DNSimpleError>(
                DNSimpleError::Decode,
            ),
        },
        !spec_is_success(raw.status) ==> (r matches Ok(env) && spec_envelope_matches(env, *raw)
            && env.data is None && (match env.message {
            Some(m) => spec_error_from(raw.body@) == Some(m@),
            None => spec_error_from(raw.body@) is None,
        })),
{
    let mut env = Client::build_dnsimple_response::<Vec<TldExtendedAttribute>>(raw);
    if 200 <= raw.status && raw.status < 300 {
        match json::parse_json(raw.body.as_str()) {
            Some(j) => match json::get_arr(&j, "data") {
                Some(a) => match attributes_from_json(a) {
                    Some(v) => {
                        env.data = Some(v);
                        Ok(env)
                    },
                    None => Err(DNSimpleError::Decode),
                },
                None => Err(DNSimpleError::Decode),
            },
            None => Err(DNSimpleError::Decode),
        }
    } else {
        env.message = crate::dnsimple::dnsimple_error_from(raw.body.as_str());
        Ok(env)
    }
}

/// The path of the TLD list, with sort and pagination as query
/// parameters.
pub fn tlds_path(sort: &Sort, paginate: &Paginate) -> (r: String)
    ensures
        r@ == "/tlds?sort="@ + sort.sort_by@ + "&per_page="@ + text::spec_u64_decimal(
            paginate.per_page as nat,
        ) + "&page="@ + text::spec_u64_decimal(paginate.page as nat),
{
    let per_page = text::u64_to_string(paginate.per_page);
    let page = text::u64_to_string(paginate.page);
    String::from_str("/tlds?sort=").concat(sort.sort_by.as_str()).concat("&per_page=").concat(
        per_page.as_str(),
    ).concat("&page=").concat(page.as_str())
}

/// The path of one TLD.
pub fn tld_path(tld: &str) -> (r: String)
    ensures
        r@ == "/tlds/"@ + tld@,
{
    String::from_str("/tlds/").concat(tld)
}

/// The path of a TLD's extended attributes.
pub fn tld_extended_attributes_path(tld: &str) -> (r: String)
    ensures
        r@ == "/tlds/"@ + tld@ + "/extended_attributes"@,
{
    String::from_str("/tlds/").concat(tld).concat("/extended_attributes")
}

/// The Tlds Service handles the TLD endpoints of the DNSimple API.
pub struct Tlds<'a> {
    pub client: &'a Client,
}

impl Tlds<'_> {
    /// Lists the TLDs the registry offers, sorted and paginated as
    /// asked.
    pub fn list_tlds(&self, sort: Sort, paginate: Paginate) -> (r: Result<
        DNSimpleResponse<Vec<Tld>>,
        DNSimpleError,
    >)
        ensures
            r matches Ok(env) ==> (env.data is Some ==> spec_is_success(env.status)
                && env.message is None),
            r matches Ok(env) ==> (env.message is Some ==> !spec_is_success(env.status)
                && env.data is None),
    {
        let path = tlds_path(&sort, &paginate);
        let api = self.client.get::<Vec<Tld>>(path.as_str())?;
        tld_list_from_raw(&api.raw_http_response)
    }

    /// Retrieves one TLD.
    pub fn get_tld(&self, tld: String) -> (r: Result<DNSimpleResponse<Tld>, DNSimpleError>)
        ensures
            r matches Ok(env) ==> (env.data is Some ==> spec_is_success(env.status)
                && env.message is None),
            r matches Ok(env) ==> (env.message is Some ==> !spec_is_success(env.status)
                && env.data is None),
    {
        let path = tld_path(tld.as_str());
        let api = self.client.get::<Tld>(path.as_str())?;
        tld_from_raw(&api.raw_http_response)
    }

    /// Retrieves the extended registration attributes of one TLD.
    pub fn get_tld_extended_attributes(&self, tld: String) -> (r: Result<
        DNSimpleResponse<Vec<TldExtendedAttribute>>,
        DNSimpleError,
    >)
        ensures
            r matches Ok(env) ==> (env.data is Some ==> spec_is_success(env.status)
                && env.message is None),
            r matches Ok(env) ==> (env.message is Some ==> !spec_is_success(env.status)
                && env.data is None),
    {
        let path = tld_extended_attributes_path(tld.as_str());
        let api = self.client.get::<Vec<TldExtendedAttribute>>(path.as_str())?;
        attribute_list_from_raw(&api.raw_http_response)
    }
}

} // verus!
