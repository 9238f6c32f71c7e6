//! The GitHub OAuth application of the site: its fixed configuration, the
//! endpoints parsed into the forms the OAuth client takes, and the
//! authorization code that GitHub hands back to the callback page.
use vstd::prelude::*;
use leptos_router::params::ParamsMap;
use oauth2::url::ParseError;
use oauth2::basic::BasicClient;
use oauth2::{AuthUrl, ClientId, CsrfToken, RedirectUrl, Scope, TokenUrl};

verus! {

#[verifier::external_type_specification]
#[verifier::external_body]
pub struct ExAuthUrl(AuthUrl);

#[verifier::external_type_specification]
#[verifier::external_body]
pub struct ExTokenUrl(TokenUrl);

#[verifier::external_type_specification]
#[verifier::external_body]
pub struct ExRedirectUrl(RedirectUrl);

#[verifier::external_type_specification]
#[verifier::external_body]
pub struct ExParseError(ParseError);

#[verifier::external_type_specification]
#[verifier::external_body]
pub struct ExParamsMap(ParamsMap);

/// The client id of the site's GitHub OAuth application.
pub open spec fn client_id_text() -> Seq<char> {
    "Ov23li9etcgfYorMCgM1"@
}

/// GitHub's authorization endpoint.
pub open spec fn auth_url_text() -> Seq<char> {
    "https://github.com/login/oauth/authorize"@
}

/// GitHub's token endpoint.
pub open spec fn token_url_text() -> Seq<char> {
    "https://github.com/login/oauth/access_token"@
}

/// Where GitHub sends the browser back after sign-in.
pub open spec fn redirect_url_text() -> Seq<char> {
    "http://127.0.0.1:6767/oauth/github"@
}

/// The permission the site asks GitHub for.
pub open spec fn scope_text() -> Seq<char> {
    "user:email"@
}

/// The client id of the site's GitHub OAuth application.
pub fn github_client_id() -> (id: &'static str)
    ensures
        id@ == client_id_text(),
{
    "Ov23li9etcgfYorMCgM1"
}

/// GitHub's authorization endpoint.
pub fn github_auth_url() -> (url: &'static str)
    ensures
        url@ == auth_url_text(),
{
    "https://github.com/login/oauth/authorize"
}

/// GitHub's token endpoint.
pub fn github_token_url() -> (url: &'static str)
    ensures
        url@ == token_url_text(),
{
    "https://github.com/login/oauth/access_token"
}

/// Where GitHub sends the browser back after sign-in.
pub fn github_redirect_url() -> (url: &'static str)
    ensures
        url@ == redirect_url_text(),
{
    "http://127.0.0.1:6767/oauth/github"
}

/// The OAuth scope the sign-in page asks for.
pub fn github_scope() -> (scope: &'static str)
    ensures
        scope@ == scope_text(),
{
    "user:email"
}

/// The text that an `oauth2::AuthUrl` holds, which its `Deref` to `String` gives.
pub uninterp spec fn auth_url_text_of(u: AuthUrl) -> Seq<char>;

/// The text that an `oauth2::TokenUrl` holds, which its `Deref` to `String` gives.
pub uninterp spec fn token_url_text_of(u: TokenUrl) -> Seq<char>;

/// The text that an `oauth2::RedirectUrl` holds, which its `Deref` to `String` gives.
pub uninterp spec fn redirect_url_text_of(u: RedirectUrl) -> Seq<char>;

/// Whether `oauth2::AuthUrl::new` accepts a text (it parses it as a URL).
pub uninterp spec fn auth_url_accepts(text: Seq<char>) -> bool;

/// Whether `oauth2::TokenUrl::new` accepts a text (it parses it as a URL).
pub uninterp spec fn token_url_accepts(text: Seq<char>) -> bool;

/// Whether `oauth2::RedirectUrl::new` accepts a text (it parses it as a URL).
pub uninterp spec fn redirect_url_accepts(text: Seq<char>) -> bool;

/// Calls `oauth2::AuthUrl::new`, which parses the text with `url::Url::parse`
/// and keeps the text itself beside the parsed URL. Claimed: whether it
/// succeeds depends on the text alone, and the value it returns holds that text.
#[verifier::external_body]
fn parse_auth_url(text: &str) -> (r: Result<AuthUrl, ParseError>)
    ensures
        r is Ok <==> auth_url_accepts(text@),
        r matches Ok(u) ==> auth_url_text_of(u) == text@,
{
    AuthUrl::new(text.to_string())
}

/// Calls `oauth2::TokenUrl::new`, which parses the text with `url::Url::parse`
/// and keeps the text itself beside the parsed URL. Claimed: whether it
/// succeeds depends on the text alone, and the value it returns holds that text.
#[verifier::external_body]
fn parse_token_url(text: &str) -> (r: Result<TokenUrl, ParseError>)
    ensures
        r is Ok <==> token_url_accepts(text@),
        r matches Ok(u) ==> token_url_text_of(u) == text@,
{
    TokenUrl::new(text.to_string())
}

/// Calls `oauth2::RedirectUrl::new`, which parses the text with `url::Url::parse`
/// and keeps the text itself beside the parsed URL. Claimed: whether it
/// succeeds depends on the text alone, and the value it returns holds that text.
#[verifier::external_body]
fn parse_redirect_url(text: &str) -> (r: Result<RedirectUrl, ParseError>)
    ensures
        r is Ok <==> redirect_url_accepts(text@),
        r matches Ok(u) ==> redirect_url_text_of(u) == text@,
{
    RedirectUrl::new(text.to_string())
}

/// Which of the site's OAuth endpoints failed to parse.
#[derive(Debug, Clone, Copy, PartialEq, Eq)]
pub enum EndpointError {
    InvalidAuthorizationEndpoint,
    InvalidTokenEndpoint,
    InvalidRedirectUrl,
}

impl EndpointError {
    /// The message that goes with the error.
    pub fn message(&self) -> (m: &'static str)
        ensures
            m@ == (match *self {
                EndpointError::InvalidAuthorizationEndpoint => "Invalid authorization endpoint URL"@,
                EndpointError::InvalidTokenEndpoint => "Invalid token endpoint URL"@,
                EndpointError::InvalidRedirectUrl => "Invalid redirect URL"@,
            }),
    {
        match self {
            EndpointError::InvalidAuthorizationEndpoint => "Invalid authorization endpoint URL",
            EndpointError::InvalidTokenEndpoint => "Invalid token endpoint URL",
            EndpointError::InvalidRedirectUrl => "Invalid redirect URL",
        }
    }
}

/// The site's GitHub endpoints, parsed for the OAuth client.
pub struct GithubEndpoints {
    pub auth_url: AuthUrl,
    pub token_url: TokenUrl,
    pub redirect_url: RedirectUrl,
}

/// The endpoints hold exactly these three texts.
pub open spec fn endpoints_hold(e: GithubEndpoints, auth: Seq<char>, token: Seq<char>, redirect: Seq<char>) -> bool {
    &&& auth_url_text_of(e.auth_url) == auth
    &&& token_url_text_of(e.token_url) == token
    &&& redirect_url_text_of(e.redirect_url) == redirect
}

/// The error that parsing the three endpoint texts, in the order authorization,
/// token, redirect, stops at; `None` when all three parse.
pub open spec fn endpoints_outcome(auth: Seq<char>, token: Seq<char>, redirect: Seq<char>) -> Option<
    EndpointError,
> {
    if !auth_url_accepts(auth) {
        Some(EndpointError::InvalidAuthorizationEndpoint)
    } else if !token_url_accepts(token) {
        Some(EndpointError::InvalidTokenEndpoint)
    } else if !redirect_url_accepts(redirect) {
        Some(EndpointError::InvalidRedirectUrl)
    } else {
        None
    }
}

/// Parses the three endpoint texts in the order authorization, token,
/// redirect, and reports the first one that fails.
pub fn parse_endpoints(auth: &str, token: &str, redirect: &str) -> (r: Result<
    GithubEndpoints,
    EndpointError,
>)
    ensures
        match endpoints_outcome(auth@, token@, redirect@) {
            None => r matches Ok(e) && endpoints_hold(e, auth@, token@, redirect@),
            Some(e) => r == Err::<GithubEndpoints, EndpointError>(e),
        },
{
    let auth_url = match parse_auth_url(auth) {
        Ok(u) => u,
        Err(_) => return Err(EndpointError::InvalidAuthorizationEndpoint),
    };
    let token_url = match parse_token_url(token) {
        Ok(u) => u,
        Err(_) => return Err(EndpointError::InvalidTokenEndpoint),
    };
    let redirect_url = match parse_redirect_url(redirect) {
        Ok(u) => u,
        Err(_) => return Err(EndpointError::InvalidRedirectUrl),
    };
    Ok(GithubEndpoints { auth_url, token_url, redirect_url })
}

/// The site's own GitHub endpoints, parsed.
pub fn github_endpoints() -> (r: Result<GithubEndpoints, EndpointError>)
    ensures
        match endpoints_outcome(auth_url_text(), token_url_text(), redirect_url_text()) {
            None => r matches Ok(e) && endpoints_hold(
                e,
                auth_url_text(),
                token_url_text(),
                redirect_url_text(),
            ),
            Some(e) => r == Err::<GithubEndpoints, EndpointError>(e),
        },
{
    parse_endpoints(github_auth_url(), github_token_url(), github_redirect_url())
}

/// The authorization link that `oauth2::AuthorizationRequest::url` builds for
/// a client with the given authorization URL, client id and redirect URL, one
/// scope, and the CSRF state `state`: the authorization URL with the query
/// pairs `response_type=code`, `client_id`, `state`, `redirect_uri` and `scope`
/// added, form-encoded.
pub uninterp spec fn authorization_link_of(
    auth: Seq<char>,
    client_id: Seq<char>,
    redirect: Seq<char>,
    scope: Seq<char>,
    state: Seq<char>,
) -> Seq<char>;

/// A character of the URL-safe base64 alphabet.
pub open spec fn is_base64url_char(c: char) -> bool {
    ('A' <= c && c <= 'Z') || ('a' <= c && c <= 'z') || ('0' <= c && c <= '9') || c == '-' || c
        == '_'
}

/// A CSRF state as `oauth2::CsrfToken::new_random` makes it: sixteen random
/// bytes in URL-safe base64 without padding, so twenty-two characters.
pub open spec fn is_random_state(state: Seq<char>) -> bool {
    state.len() == 22 && forall|i: int| 0 <= i < state.len() ==> is_base64url_char(#[trigger] state[i])
}

/// Builds the GitHub sign-in link: an `oauth2::basic::BasicClient` for the
/// endpoints and client id, without a secret, asked for an authorization URL
/// with a fresh `CsrfToken::new_random` state and one scope
/// (`AuthorizationRequest::url`). Returns the link and the state.
/// Claimed: the state has the shape that `new_random` gives (its value is
/// random), and the link is `authorization_link_of` the endpoints' texts, the
/// client id, the scope and that state.
#[verifier::external_body]
fn authorization_link(client_id: &str, endpoints: &GithubEndpoints, scope: &str) -> (r: (
    String,
    String,
))
    ensures
        is_random_state(r.1@),
        r.0@ == authorization_link_of(
            auth_url_text_of(endpoints.auth_url),
            client_id@,
            redirect_url_text_of(endpoints.redirect_url),
            scope@,
            r.1@,
        ),
{
    let client = BasicClient::new(
        ClientId::new(client_id.to_string()),
        None,
        endpoints.auth_url.clone(),
        Some(endpoints.token_url.clone()),
    ).set_redirect_uri(endpoints.redirect_url.clone());
    let (url, state) = client.authorize_url(CsrfToken::new_random).add_scope(
        Scope::new(scope.to_string()),
    ).url();
    (url.to_string(), state.secret().clone())
}

/// The link of the sign-in page and the CSRF state in it: GitHub's
/// authorization URL with the site's client id, redirect URL and scope.
pub fn sign_in_link() -> (r: Result<(String, String), EndpointError>)
    ensures
        match endpoints_outcome(auth_url_text(), token_url_text(), redirect_url_text()) {
            None => r matches Ok((link, state)) && is_random_state(state@) && link@
                == authorization_link_of(
                auth_url_text(),
                client_id_text(),
                redirect_url_text(),
                scope_text(),
                state@,
            ),
            Some(e) => r == Err::<(String, String), EndpointError>(e),
        },
{
    let endpoints = match github_endpoints() {
        Ok(e) => e,
        Err(e) => return Err(e),
    };
    Ok(authorization_link(github_client_id(), &endpoints, github_scope()))
}

/// What a `leptos_router::params::ParamsMap` holds: its entries in order, each
/// a key and the values added under it, oldest first.
pub uninterp spec fn params_entries(map: ParamsMap) -> Seq<(Seq<char>, Seq<Seq<char>>)>;

/// The value that a lookup of `key` finds: the newest value of the first entry
/// under `key` that has any value.
pub open spec fn param_lookup(entries: Seq<(Seq<char>, Seq<Seq<char>>)>, key: Seq<char>) -> Option<
    Seq<char>,
>
    decreases entries.len(),
{
    if entries.len() == 0 {
        None
    } else if entries[0].0 == key && entries[0].1.len() > 0 {
        Some(entries[0].1.last())
    } else {
        param_lookup(entries.drop_first(), key)
    }
}

/// Calls `ParamsMap::get`. As its source shows, it returns the last value of
/// the first entry whose key equals `key` and whose values are not empty, and
/// `None` when there is none.
#[verifier::external_body]
fn params_get(map: &ParamsMap, key: &str) -> (r: Option<String>)
    ensures
        match r {
            Some(v) => param_lookup(params_entries(*map), key@) == Some(v@),
            None => param_lookup(params_entries(*map), key@) is None,
        },
{
    map.get(key)
}

/// The authorization code in the query of GitHub's callback, or the empty
/// text when there is none.
pub fn callback_code(query: &ParamsMap) -> (code: String)
    ensures
        code@ == match param_lookup(params_entries(*query), "code"@) {
            Some(v) => v,
            None => Seq::<char>::empty(),
        },
{
    match params_get(query, "code") {
        Some(v) => v,
        None => String::new(),
    }
}

} // verus!
