//! The OAuth endpoint of the DNSimple API: exchanging an authorization
//! code for an access token.

use vstd::prelude::*;

use crate::dnsimple::http::RawHttpResponse;
use crate::dnsimple::json::{self, spec_json_escape, JsonValue};
use crate::dnsimple::{
    spec_envelope_matches, spec_error_from, spec_is_success, Client, DNSimpleError,
    DNSimpleResponse,
};

verus! {

/// What is sent to exchange an authorization code for a token.
#[derive(Debug)]
pub struct OAuthTokenPayload {
    /// The client ID given when the application was registered
    pub client_id: String,
    /// The client secret given when the application was registered
    pub client_secret: String,
    /// The authorization code sent back by the authorization step
    pub code: String,
    /// The redirect URI the authorization step was started with
    pub redirect_uri: String,
    /// The state the authorization step was started with
    pub state: String,
}

/// Represents an access token issued by the API.
#[derive(Debug)]
pub struct AccessToken {
    /// The token itself
    pub access_token: String,
    /// The type of the token (the API issues bearer tokens)
    pub token_type: String,
    /// The scope of the token, if one was granted
    pub scope: Option<String>,
    /// The ID of the account the token belongs to
    pub account_id: u64,
}

/// The mathematical content of an `AccessToken`.
pub struct AccessTokenView {
    pub access_token: Seq<char>,
    pub token_type: Seq<char>,
    pub scope: Option<Seq<char>>,
    pub account_id: u64,
}

impl View for AccessToken {
    type V = AccessTokenView;

    open spec fn view(&self) -> AccessTokenView {
        AccessTokenView {
            access_token: self.access_token@,
            token_type: self.token_type@,
            scope: json::spec_view_opt_string(self.scope),
            account_id: self.account_id,
        }
    }
}

/// An access-token object: token, type and account present, the scope
/// absent, null, or a string. Unlike the resource endpoints, this body
/// is not wrapped in a `data` field.
pub open spec fn spec_access_token(j: JsonValue) -> Option<AccessTokenView> {
    if json::spec_get_string(j, "access_token"@) is Some && json::spec_get_string(
        j,
        "token_type"@,
    ) is Some && json::spec_get_nullable_string(j, "scope"@) is Some && json::spec_get_u64(
        j,
        "account_id"@,
    ) is Some {
        Some(
            AccessTokenView {
                access_token: json::spec_get_string(j, "access_token"@).unwrap(),
                token_type: json::spec_get_string(j, "token_type"@).unwrap(),
                scope: json::spec_get_nullable_string(j, "scope"@).unwrap(),
                account_id: json::spec_get_u64(j, "account_id"@).unwrap(),
            },
        )
    } else {
        None
    }
}

pub fn access_token_from_json(j: &JsonValue) -> (r: Option<AccessToken>)
    ensures
        match r {
            Some(t) => spec_access_token(*j) == Some(t@),
            None => spec_access_token(*j) is None,
        },
{
    let access_token = match json::get_string(j, "access_token") {
        Some(v) => v,
        None => { return None; },
    };
    let token_type = match json::get_string(j, "token_type") {
        Some(v) => v,
        None => { return None; },
    };
    let scope = match json::get_nullable_string(j, "scope") {
        Some(v) => v,
        None => { return None; },
    };
    let account_id = match json::get_u64(j, "account_id") {
        Some(v) => v,
        None => { return None; },
    };
    Some(AccessToken { access_token, token_type, scope, account_id })
}

/// What an access-token body decodes to.
pub open spec fn spec_access_token_payload(body: Seq<char>) -> Option<AccessTokenView> {
    match json::json_of(body) {
        Some(j) => spec_access_token(j),
        None => None,
    }
}

/// The JSON text posted for the exchange: the payload's five fields and
/// the fixed authorization-code grant type.
pub fn oauth_exchange_body(payload: &OAuthTokenPayload) -> (r: String)
    ensures
        r@ == "{\"client_id\":\""@ + spec_json_escape(payload.client_id@)
            + "\",\"client_secret\":\""@ + spec_json_escape(payload.client_secret@)
            + "\",\"code\":\""@ + spec_json_escape(payload.code@) + "\",\"redirect_uri\":\""@
            + spec_json_escape(payload.redirect_uri@) + "\",\"state\":\""@ + spec_json_escape(
            payload.state@,
        ) + "\",\"grant_type\":\"authorization_code\"}"@,
{
    let client_id = json::json_escape(payload.client_id.as_str());
    let client_secret = json::json_escape(payload.client_secret.as_str());
    let code = json::json_escape(payload.code.as_str());
    let redirect_uri = json::json_escape(payload.redirect_uri.as_str());
    let state = json::json_escape(payload.state.as_str());
    String::from_str("{\"client_id\":\"").concat(client_id.as_str()).concat(
        "\",\"client_secret\":\"",
    ).concat(client_secret.as_str()).concat("\",\"code\":\"").concat(code.as_str()).concat(
        "\",\"redirect_uri\":\"",
    ).concat(redirect_uri.as_str()).concat("\",\"state\":\"").concat(state.as_str()).concat(
        "\",\"grant_type\":\"authorization_code\"}",
    )
}

/// Builds the access-token envelope from a raw HTTP response, as the
/// resource builders.
pub fn access_token_from_raw(raw: &RawHttpResponse) -> (r: Result<
    DNSimpleResponse<AccessToken>,
    DNSimpleError,
>)
    ensures
        spec_is_success(raw.status) ==> match spec_access_token_payload(raw.body@) {
            Some(view) => r matches Ok(env) && spec_envelope_matches(env, *raw) && (
            env.data matches Some(t) && t@ == view) && env.message is None,
            None => r == Err::<DNSimpleResponse<AccessToken>, DNSimpleError>(DNSimpleError::Decode),
        },
        !spec_is_success(raw.status) ==> (r matches Ok(env) && spec_envelope_matches(env, *raw)
            && env.data is None && (match env.message {
            Some(m) => spec_error_from(raw.body@) == Some(m@),
            None => spec_error_from(raw.body@) is None,
        })),
{
    let mut env = Client::build_dnsimple_response::<AccessToken>(raw);
    if 200 <= raw.status && raw.status < 300 {
        match json::parse_json(raw.body.as_str()) {
            Some(j) => match access_token_from_json(&j) {
                Some(t) => {
                    env.data = Some(t);
                    Ok(env)
                },
                None => Err(DNSimpleError::Decode),
            },
            None => Err(DNSimpleError::Decode),
        }
    } else {
        env.message = crate::dnsimple::dnsimple_error_from(raw.body.as_str());
        Ok(env)
    }
}

/// The Oauth Service handles the OAuth endpoint of the DNSimple API.
pub struct Oauth<'a> {
    pub client: &'a Client,
}

impl Oauth<'_> {
    /// Exchanges an authorization code for an access token.
    pub fn exchange_authorization_for_token(&self, payload: OAuthTokenPayload) -> (r: Result<
        DNSimpleResponse<AccessToken>,
        DNSimpleError,
    >)
        ensures
            r matches Ok(env) ==> (env.data is Some ==> spec_is_success(env.status)
                && env.message is None),
            r matches Ok(env) ==> (env.message is Some ==> !spec_is_success(env.status)
                && env.data is None),
    {
        let body = oauth_exchange_body(&payload);
        let api = self.client.post::<AccessToken>("/oauth/access_token", body.as_str())?;
        access_token_from_raw(&api.raw_http_response)
    }
}

} // verus!
