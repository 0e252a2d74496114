//! The identity (whoami) endpoint of the DNSimple API: the current
//! authenticated user or account, decoded from the response body.

use vstd::prelude::*;

use crate::dnsimple::http::RawHttpResponse;
use crate::dnsimple::json::{self, JsonValue};
use crate::dnsimple::{
    spec_envelope_matches, spec_error_from, spec_is_success, Client, DNSimpleError,
    DNSimpleResponse,
};

verus! {

/// Represents a User.
#[derive(Debug)]
pub struct User {
    /// The ID of the user in DNSimple
    pub id: u64,
    /// The users email
    pub email: String,
    /// When the user was created in DNSimple
    pub created_at: String,
    /// When the user was last updated in DNSimple
    pub updated_at: String,
}

/// The mathematical content of a `User`.
pub struct UserView {
    pub id: u64,
    pub email: Seq<char>,
    pub created_at: Seq<char>,
    pub updated_at: Seq<char>,
}

impl View for User {
    type V = UserView;

    open spec fn view(&self) -> UserView {
        UserView {
            id: self.id,
            email: self.email@,
            created_at: self.created_at@,
            updated_at: self.updated_at@,
        }
    }
}

/// Represents an Account.
#[derive(Debug)]
pub struct Account {
    /// The account ID in DNSimple
    pub id: u64,
    /// The account email
    pub email: String,
    /// The identifier of the plan the account is subscribed to
    pub plan_identifier: String,
    /// When the account was created in DNSimple
    pub created_at: String,
    /// When the account was last updated in DNSimple
    pub updated_at: String,
}

/// The mathematical content of an `Account`.
pub struct AccountView {
    pub id: u64,
    pub email: Seq<char>,
    pub plan_identifier: Seq<char>,
    pub created_at: Seq<char>,
    pub updated_at: Seq<char>,
}

impl View for Account {
    type V = AccountView;

    open spec fn view(&self) -> AccountView {
        AccountView {
            id: self.id,
            email: self.email@,
            plan_identifier: self.plan_identifier@,
            created_at: self.created_at@,
            updated_at: self.updated_at@,
        }
    }
}

/// Represents the structure holding a User or an Account.
#[derive(Debug)]
pub struct WhoamiData {
    /// The account, if present
    pub account: Option<Account>,
    /// The user, if present
    pub user: Option<User>,
}

/// The mathematical content of a `WhoamiData`.
pub struct WhoamiDataView {
    pub account: Option<AccountView>,
    pub user: Option<UserView>,
}

impl View for WhoamiData {
    type V = WhoamiDataView;

    open spec fn view(&self) -> WhoamiDataView {
        WhoamiDataView {
            account: match self.account {
                Some(a) => Some(a@),
                None => None,
            },
            user: match self.user {
                Some(u) => Some(u@),
                None => None,
            },
        }
    }
}

/// Represents the response with the identity (whoami) data.
#[derive(Debug)]
pub struct IdentityResponseData {
    /// The WhoamiData struct
    pub data: WhoamiData,
}

/// The mathematical content of an `IdentityResponseData`.
pub struct IdentityResponseDataView {
    pub data: WhoamiDataView,
}

impl View for IdentityResponseData {
    type V = IdentityResponseDataView;

    open spec fn view(&self) -> IdentityResponseDataView {
        IdentityResponseDataView { data: self.data@ }
    }
}

/// A user object: all four fields present with their types.
pub open spec fn spec_user(j: JsonValue) -> Option<UserView> {
    match (
        json::spec_get_u64(j, "id"@),
        json::spec_get_string(j, "email"@),
        json::spec_get_string(j, "created_at"@),
        json::spec_get_string(j, "updated_at"@),
    ) {
        (Some(id), Some(email), Some(created_at), Some(updated_at)) => Some(
            UserView { id, email, created_at, updated_at },
        ),
        _ => None,
    }
}

pub fn user_from_json(j: &JsonValue) -> (r: Option<User>)
    ensures
        match r {
            Some(u) => spec_user(*j) == Some(u@),
            None => spec_user(*j) is None,
        },
{
    match (
        json::get_u64(j, "id"),
        json::get_string(j, "email"),
        json::get_string(j, "created_at"),
        json::get_string(j, "updated_at"),
    ) {
        (Some(id), Some(email), Some(created_at), Some(updated_at)) => Some(
            User { id, email, created_at, updated_at },
        ),
        _ => None,
    }
}

/// An account object: all five fields present with their types.
pub open spec fn spec_account(j: JsonValue) -> Option<AccountView> {
    match (
        json::spec_get_u64(j, "id"@),
        json::spec_get_string(j, "email"@),
        json::spec_get_string(j, "plan_identifier"@),
        json::spec_get_string(j, "created_at"@),
        json::spec_get_string(j, "updated_at"@),
    ) {
        (Some(id), Some(email), Some(plan_identifier), Some(created_at), Some(updated_at)) => Some(
            AccountView { id, email, plan_identifier, created_at, updated_at },
        ),
        _ => None,
    }
}

pub fn account_from_json(j: &JsonValue) -> (r: Option<Account>)
    ensures
        match r {
            Some(a) => spec_account(*j) == Some(a@),
            None => spec_account(*j) is None,
        },
{
    match (
        json::get_u64(j, "id"),
        json::get_string(j, "email"),
        json::get_string(j, "plan_identifier"),
        json::get_string(j, "created_at"),
        json::get_string(j, "updated_at"),
    ) {
        (Some(id), Some(email), Some(plan_identifier), Some(created_at), Some(updated_at)) => Some(
            Account { id, email, plan_identifier, created_at, updated_at },
        ),
        _ => None,
    }
}

/// The whoami payload: an object whose `account` and `user` fields are
/// each absent, null, or a well-formed object of their kind.
pub open spec fn spec_whoami_data(j: JsonValue) -> Option<WhoamiDataView> {
    let account = match json::spec_get(j, "account"@) {
        None => Some(None),
        Some(JsonValue::Null) => Some(None),
        Some(v) => match spec_account(v) {
            Some(a) => Some(Some(a)),
            None => None,
        },
    };
    let user = match json::spec_get(j, "user"@) {
        None => Some(None),
        Some(JsonValue::Null) => Some(None),
        Some(v) => match spec_user(v) {
            Some(u) => Some(Some(u)),
            None => None,
        },
    };
    match (account, user) {
        (Some(account), Some(user)) => Some(WhoamiDataView { account, user }),
        _ => None,
    }
}

pub fn whoami_data_from_json(j: &JsonValue) -> (r: Option<WhoamiData>)
    ensures
        match r {
            Some(w) => spec_whoami_data(*j) == Some(w@),
            None => spec_whoami_data(*j) is None,
        },
{
    let account = match json::obj_get(j, "account") {
        None => Some(None),
        Some(JsonValue::Null) => Some(None),
        Some(v) => match account_from_json(v) {
            Some(a) => Some(Some(a)),
            None => None,
        },
    };
    let user = match json::obj_get(j, "user") {
        None => Some(None),
        Some(JsonValue::Null) => Some(None),
        Some(v) => match user_from_json(v) {
            Some(u) => Some(Some(u)),
            None => None,
        },
    };
    match (account, user) {
        (Some(account), Some(user)) => Some(WhoamiData { account, user }),
        _ => None,
    }
}

/// The whole whoami body: an object whose `data` field holds the
/// whoami payload.
pub open spec fn spec_identity_response_data(j: JsonValue) -> Option<IdentityResponseDataView> {
    match json::spec_get(j, "data"@) {
        Some(d) => match spec_whoami_data(d) {
            Some(w) => Some(IdentityResponseDataView { data: w }),
            None => None,
        },
        None => None,
    }
}

pub fn identity_response_from_json(j: &JsonValue) -> (r: Option<IdentityResponseData>)
    ensures
        match r {
            Some(d) => spec_identity_response_data(*j) == Some(d@),
            None => spec_identity_response_data(*j) is None,
        },
{
    match json::obj_get(j, "data") {
        Some(d) => match whoami_data_from_json(d) {
            Some(w) => Some(IdentityResponseData { data: w }),
            None => None,
        },
        None => None,
    }
}

/// What the whoami body decodes to, as a function of the body text.
pub open spec fn spec_whoami_payload(body: Seq<char>) -> Option<IdentityResponseDataView> {
    match json::json_of(body) {
        Some(j) => spec_identity_response_data(j),
        None => None,
    }
}

/// Builds the whoami envelope from a raw HTTP response: on a success
/// status the body must decode to the identity payload, else the call
/// reports a decode failure; on an error status the payload stays empty
/// and the structured error is taken from the body where it parses.
pub fn whoami_from_raw(raw: &RawHttpResponse) -> (r: Result<
    DNSimpleResponse<IdentityResponseData>,
    DNSimpleError,
>)
    ensures
        spec_is_success(raw.status) ==> match spec_whoami_payload(raw.body@) {
            Some(view) => r matches Ok(env) && spec_envelope_matches(env, *raw) && (
            env.data matches Some(d) && d@ == view) && env.message is None,
            None => r == Err::<DNSimpleResponse<IdentityResponseData>, DNSimpleError>(
                DNSimpleError::Decode,
            ),
        },
        !spec_is_success(raw.status) ==> (r matches Ok(env) && spec_envelope_matches(env, *raw)
            && env.data is None && (match env.message {
            Some(m) => spec_error_from(raw.body@) == Some(m@),
            None => spec_error_from(raw.body@) is None,
        })),
{
    let mut env = Client::build_dnsimple_response::<IdentityResponseData>(raw);
    if 200 <= raw.status && raw.status < 300 {
        match json::parse_json(raw.body.as_str()) {
            Some(j) => match identity_response_from_json(&j) {
                Some(d) => {
                    env.data = Some(d);
                    Ok(env)
                },
                None => Err(DNSimpleError::Decode),
            },
            None => Err(DNSimpleError::Decode),
        }
    } else {
        env.message = crate::dnsimple::dnsimple_error_from(raw.body.as_str());
        Ok(env)
    }
}

/// The Identity Service handles the identity (whoami) endpoint of the
/// DNSimple API.
pub struct Identity<'a> {
    pub client: &'a Client,
}

impl Identity<'_> {
    /// Retrieves the details about the current authenticated entity used
    /// to access the API.
    pub fn whoami(&self) -> (r: Result<DNSimpleResponse<IdentityResponseData>, DNSimpleError>)
        ensures
            r matches Ok(env) ==> (env.data is Some ==> spec_is_success(env.status)
                && env.message is None),
            r matches Ok(env) ==> (env.message is Some ==> !spec_is_success(env.status)
                && env.data is None),
    {
        let api = self.client.get::<IdentityResponseData>("/whoami")?;
        whoami_from_raw(&api.raw_http_response)
    }
}

} // verus!
