//! The accounts endpoint of the DNSimple API: the accounts the current
//! credentials can reach.

use vstd::prelude::*;

use crate::dnsimple::http::RawHttpResponse;
use crate::dnsimple::identity::{spec_account, Account, AccountView};
use crate::dnsimple::json::{self, JsonValue};
use crate::dnsimple::{
    spec_envelope_matches, spec_error_from, spec_is_success, Client, DNSimpleError,
    DNSimpleResponse,
};

verus! {

/// The accounts of a JSON array, where every element decodes.
pub open spec fn spec_account_list(a: Seq<JsonValue>) -> Option<Seq<AccountView>>
    decreases a.len(),
{
    if a.len() == 0 {
        Some(Seq::empty())
    } else {
        match (spec_account_list(a.drop_last()), spec_account(a.last())) {
            (Some(rest), Some(acc)) => Some(rest.push(acc)),
            _ => None,
        }
    }
}

proof fn lemma_account_list_none(a: Seq<JsonValue>, i: int)
    requires
        0 <= i <= a.len(),
        spec_account_list(a.take(i)) is None,
    ensures
        spec_account_list(a) is None,
    decreases a.len() - i,
{
    if i < a.len() {
        assert(a.take(i + 1).drop_last() =~= a.take(i));
        lemma_account_list_none(a, i + 1);
    } else {
        assert(a.take(i) =~= a);
    }
}

/// Law: a decoded account list holds exactly one record per element of
/// the JSON array it came from.
pub proof fn lemma_account_list_len(a: Seq<JsonValue>)
    ensures
        spec_account_list(a) matches Some(s) ==> s.len() == a.len(),
    decreases a.len(),
{
    if a.len() > 0 {
        lemma_account_list_len(a.drop_last());
    }
}

/// The contents of a vector of accounts.
pub open spec fn spec_account_views(v: Seq<Account>) -> Seq<AccountView> {
    v.map_values(|a: Account| a@)
}

/// Decodes a JSON array of accounts; the result holds exactly one
/// record per array element.
pub fn accounts_from_json(a: &Vec<JsonValue>) -> (r: Option<Vec<Account>>)
    ensures
        match r {
            Some(v) => spec_account_list(a@) == Some(spec_account_views(v@)) && v@.len()
                == a@.len(),
            None => spec_account_list(a@) is None,
        },
{
    let mut out: Vec<Account> = Vec::new();
    let n = a.len();
    proof {
        assert(a@.take(0) =~= Seq::<JsonValue>::empty());
        assert(spec_account_views(out@) =~= Seq::<AccountView>::empty());
    }
    let mut i: usize = 0;
    while i < n
        invariant
            n == a@.len(),
            i <= n,
            out@.len() == i,
            spec_account_list(a@.take(i as int)) == Some(spec_account_views(out@)),
        decreases n - i,
    {
        let ghost prev = out@;
        proof {
            assert(a@.take(i + 1).drop_last() =~= a@.take(i as int));
            assert(a@.take(i + 1).last() == a@[i as int]);
        }
        match crate::dnsimple::identity::account_from_json(&a[i]) {
            Some(acc) => {
                out.push(acc);
                proof {
                    assert(spec_account_views(out@) =~= spec_account_views(prev).push(
                        out@.last()@,
                    ));
                }
            },
            None => {
                proof {
                    lemma_account_list_none(a@, i + 1);
                }
                return None;
            },
        }
        i = i + 1;
    }
    proof {
        assert(a@.take(n as int) =~= a@);
    }
    Some(out)
}

/// What an account-list body decodes to.
pub open spec fn spec_account_list_payload(body: Seq<char>) -> Option<Seq<AccountView>> {
    match json::json_of(body) {
        Some(j) => match json::spec_get_arr(j, "data"@) {
            Some(a) => spec_account_list(a),
            None => None,
        },
        None => None,
    }
}

/// Builds the account-list envelope from a raw HTTP response, as the
/// other list builders.
pub fn account_list_from_raw(raw: &RawHttpResponse) -> (r: Result<
    DNSimpleResponse<Vec<Account>>,
    DNSimpleError,
>)
    ensures
        spec_is_success(raw.status) ==> match spec_account_list_payload(raw.body@) {
            Some(view) => r matches Ok(env) && spec_envelope_matches(env, *raw) && (
            env.data matches Some(v) && spec_account_views(v@) == view && v@.len() == view.len())
                && env.message is None,
            None => r == Err::<DNSimpleResponse<Vec<Account>>, DNSimpleError>(
                DNSimpleError::Decode,
            ),
        },
        !spec_is_success(raw.status) ==> (r matches Ok(env) && spec_envelope_matches(env, *raw)
            && env.data is None && (match env.message {
            Some(m) => spec_error_from(raw.body@) == Some(m@),
            None => spec_error_from(raw.body@) is None,
        })),
{
    let mut env = Client::build_dnsimple_response::<Vec<Account>>(raw);
    if 200 <= raw.status && raw.status < 300 {
        match json::parse_json(raw.body.as_str()) {
            Some(j) => match json::get_arr(&j, "data") {
                Some(a) => match accounts_from_json(a) {
                    Some(v) => {
                        env.data = Some(v);
                        Ok(env)
                    },
                    None => Err(DNSimpleError::Decode),
                },
                None => Err(DNSimpleError::Decode),
            },
            None => Err(DNSimpleError::Decode),
        }
    } else {
        env.message = crate::dnsimple::dnsimple_error_from(raw.body.as_str());
        Ok(env)
    }
}

/// The Accounts Service handles the accounts endpoint of the DNSimple
/// API.
pub struct Accounts<'a> {
    pub client: &'a Client,
}

impl Accounts<'_> {
    /// Lists the accounts the current authenticated entity has access
    /// to.
    pub fn list_accounts(&self) -> (r: Result<DNSimpleResponse<Vec<Account>>, DNSimpleError>)
        ensures
            r matches Ok(env) ==> (env.data is Some ==> spec_is_success(env.status)
                && env.message is None),
            r matches Ok(env) ==> (env.message is Some ==> !spec_is_success(env.status)
                && env.data is None),
    {
        let api = self.client.get::<Vec<Account>>("/accounts")?;
        account_list_from_raw(&api.raw_http_response)
    }
}

} // verus!
