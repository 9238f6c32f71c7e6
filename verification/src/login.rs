//! The server side of GitHub sign-in: read the client secret, trade the
//! authorization code for an access token, then fetch the user's profile and
//! e-mail addresses from the GitHub API. The steps that talk to the outside
//! world are performed by the caller; this module decides what comes next.
use vstd::prelude::*;
use crate::github::{
    auth_url_text, client_id_text, github_auth_url, github_client_id, github_redirect_url,
    github_token_url, redirect_url_text, token_url_text,
};

verus! {

/// Where a sign-in stands.
#[derive(Debug, Clone, PartialEq, Eq)]
pub enum LoginState {
    /// The client secret is to be read; `code` is the authorization code that
    /// GitHub gave the browser.
    ReadingSecret { code: String },
    /// The code is being exchanged for an access token.
    ExchangingCode,
    /// The user's profile is being fetched.
    FetchingUser { access_token: String },
    /// The user's e-mail addresses are being fetched.
    FetchingEmails { access_token: String, user_info: String },
    /// The sign-in has answered.
    Finished,
}

/// What the outside world reports back.
#[derive(Debug, PartialEq, Eq)]
pub enum LoginEvent {
    /// The client secret from the environment, if it is set.
    SecretRead(Option<String>),
    /// The access token, or the message of the failed exchange.
    TokenReceived(Result<String, String>),
    /// The body of a GitHub API response, or the message of the failed request.
    BodyReceived(Result<String, String>),
}

/// A GET request to the GitHub API.
#[derive(Debug, Clone, PartialEq, Eq)]
pub struct GithubGet {
    pub url: String,
    /// The value of the `Authorization` header.
    pub authorization: String,
    /// The value of the `User-Agent` header.
    pub user_agent: String,
}

/// What the caller is to do next.
#[derive(Debug, PartialEq, Eq)]
pub enum LoginAction {
    /// Exchange `code` for an access token at `token_url`, as the OAuth client
    /// `client_id` with `client_secret`, whose authorization endpoint is
    /// `auth_url` and whose redirect URL is `redirect_url`.
    ExchangeCode {
        code: String,
        client_secret: String,
        client_id: String,
        auth_url: String,
        token_url: String,
        redirect_url: String,
    },
    /// Perform this request and report its body.
    Fetch(GithubGet),
    /// Answer the sign-in: the profile and the e-mail addresses, or an error message.
    Reply(Result<(String, String), String>),
}

/// [`LoginState`] with its texts as sequences of characters.
pub enum Stage {
    ReadingSecret { code: Seq<char> },
    ExchangingCode,
    FetchingUser { token: Seq<char> },
    FetchingEmails { token: Seq<char>, user_info: Seq<char> },
    Finished,
}

/// [`LoginEvent`] with its texts as sequences of characters.
pub enum Report {
    SecretRead(Option<Seq<char>>),
    TokenReceived(Result<Seq<char>, Seq<char>>),
    BodyReceived(Result<Seq<char>, Seq<char>>),
}

/// [`LoginAction`] with its texts as sequences of characters.
pub enum Step {
    ExchangeCode {
        code: Seq<char>,
        client_secret: Seq<char>,
        client_id: Seq<char>,
        auth_url: Seq<char>,
        token_url: Seq<char>,
        redirect_url: Seq<char>,
    },
    Fetch { url: Seq<char>, authorization: Seq<char>, user_agent: Seq<char> },
    Reply(Result<(Seq<char>, Seq<char>), Seq<char>>),
}

pub open spec fn opt_view(o: Option<String>) -> Option<Seq<char>> {
    match o {
        Some(s) => Some(s@),
        None => None,
    }
}

pub open spec fn res_view(r: Result<String, String>) -> Result<Seq<char>, Seq<char>> {
    match r {
        Ok(s) => Ok(s@),
        Err(e) => Err(e@),
    }
}

impl View for LoginState {
    type V = Stage;

    open spec fn view(&self) -> Stage {
        match self {
            LoginState::ReadingSecret { code } => Stage::ReadingSecret { code: code@ },
            LoginState::ExchangingCode => Stage::ExchangingCode,
            LoginState::FetchingUser { access_token } => Stage::FetchingUser { token: access_token@ },
            LoginState::FetchingEmails { access_token, user_info } => Stage::FetchingEmails {
                token: access_token@,
                user_info: user_info@,
            },
            LoginState::Finished => Stage::Finished,
        }
    }
}

impl View for LoginEvent {
    type V = Report;

    open spec fn view(&self) -> Report {
        match self {
            LoginEvent::SecretRead(s) => Report::SecretRead(opt_view(*s)),
            LoginEvent::TokenReceived(r) => Report::TokenReceived(res_view(*r)),
            LoginEvent::BodyReceived(r) => Report::BodyReceived(res_view(*r)),
        }
    }
}

impl View for LoginAction {
    type V = Step;

    open spec fn view(&self) -> Step {
        match self {
            LoginAction::ExchangeCode {
                code,
                client_secret,
                client_id,
                auth_url,
                token_url,
                redirect_url,
            } => Step::ExchangeCode {
                code: code@,
                client_secret: client_secret@,
                client_id: client_id@,
                auth_url: auth_url@,
                token_url: token_url@,
                redirect_url: redirect_url@,
            },
            LoginAction::Fetch(g) => Step::Fetch {
                url: g.url@,
                authorization: g.authorization@,
                user_agent: g.user_agent@,
            },
            LoginAction::Reply(Ok((a, b))) => Step::Reply(Ok((a@, b@))),
            LoginAction::Reply(Err(e)) => Step::Reply(Err(e@)),
        }
    }
}

/// The message when the client secret is not set.
pub open spec fn missing_secret_message() -> Seq<char> {
    "GITHUB_OAUTH_SECRET not set"@
}

/// The GitHub API endpoint of the signed-in user's profile.
pub open spec fn user_url() -> Seq<char> {
    "https://api.github.com/user"@
}

/// The GitHub API endpoint of the signed-in user's e-mail addresses.
pub open spec fn emails_url() -> Seq<char> {
    "https://api.github.com/user/emails"@
}

/// The `User-Agent` the site sends to GitHub.
pub open spec fn user_agent() -> Seq<char> {
    "Erudify"@
}

/// The `Authorization` header for an access token.
pub open spec fn bearer(token: Seq<char>) -> Seq<char> {
    "Bearer "@ + token
}

/// The request for `url` made with `token`.
pub open spec fn github_get(url: Seq<char>, token: Seq<char>) -> Step {
    Step::Fetch { url, authorization: bearer(token), user_agent: user_agent() }
}

/// The exchange of `code` with `secret`, as the site's OAuth client with the
/// site's GitHub endpoints.
pub open spec fn exchange_step(code: Seq<char>, secret: Seq<char>) -> Step {
    Step::ExchangeCode {
        code,
        client_secret: secret,
        client_id: client_id_text(),
        auth_url: auth_url_text(),
        token_url: token_url_text(),
        redirect_url: redirect_url_text(),
    }
}

/// Whether a report answers what a stage waits for.
pub open spec fn expects(stage: Stage, report: Report) -> bool {
    match (stage, report) {
        (Stage::ReadingSecret { .. }, Report::SecretRead(_)) => true,
        (Stage::ExchangingCode, Report::TokenReceived(_)) => true,
        (Stage::FetchingUser { .. }, Report::BodyReceived(_)) => true,
        (Stage::FetchingEmails { .. }, Report::BodyReceived(_)) => true,
        _ => false,
    }
}

/// The stage and the step that follow a stage on a report. A report that the
/// stage does not wait for ends the sign-in with an empty error message.
pub open spec fn next(stage: Stage, report: Report) -> (Stage, Step) {
    match (stage, report) {
        (Stage::ReadingSecret { code }, Report::SecretRead(secret)) => match secret {
            Some(s) => (Stage::ExchangingCode, exchange_step(code, s)),
            None => (Stage::Finished, Step::Reply(Err(missing_secret_message()))),
        },
        (Stage::ExchangingCode, Report::TokenReceived(r)) => match r {
            Ok(token) => (Stage::FetchingUser { token }, github_get(user_url(), token)),
            Err(e) => (Stage::Finished, Step::Reply(Err(e))),
        },
        (Stage::FetchingUser { token }, Report::BodyReceived(r)) => match r {
            Ok(info) => (
                Stage::FetchingEmails { token, user_info: info },
                github_get(emails_url(), token),
            ),
            Err(e) => (Stage::Finished, Step::Reply(Err(e))),
        },
        (Stage::FetchingEmails { token, user_info }, Report::BodyReceived(r)) => match r {
            Ok(emails) => (Stage::Finished, Step::Reply(Ok((user_info, emails)))),
            Err(e) => (Stage::Finished, Step::Reply(Err(e))),
        },
        _ => (Stage::Finished, Step::Reply(Err(Seq::empty()))),
    }
}

/// A request to the GitHub API made with an access token.
fn github_request(url: &str, token: &str) -> (g: GithubGet)
    ensures
        g.url@ == url@,
        g.authorization@ == bearer(token@),
        g.user_agent@ == user_agent(),
{
    let authorization = String::from_str("Bearer ").concat(token);
    GithubGet { url: String::from_str(url), authorization, user_agent: String::from_str("Erudify") }
}

impl LoginState {
    /// Whether the state waits for this kind of event.
    pub fn expects_event(&self, event: &LoginEvent) -> (b: bool)
        ensures
            b == expects(self@, event@),
            b <==> match (self, event) {
                (LoginState::ReadingSecret { .. }, LoginEvent::SecretRead(_)) => true,
                (LoginState::ExchangingCode, LoginEvent::TokenReceived(_)) => true,
                (LoginState::FetchingUser { .. }, LoginEvent::BodyReceived(_)) => true,
                (LoginState::FetchingEmails { .. }, LoginEvent::BodyReceived(_)) => true,
                _ => false,
            },
    {
        match (self, event) {
            (LoginState::ReadingSecret { .. }, LoginEvent::SecretRead(_)) => true,
            (LoginState::ExchangingCode, LoginEvent::TokenReceived(_)) => true,
            (LoginState::FetchingUser { .. }, LoginEvent::BodyReceived(_)) => true,
            (LoginState::FetchingEmails { .. }, LoginEvent::BodyReceived(_)) => true,
            _ => false,
        }
    }
}

/// The sign-in starting with the authorization code from the browser.
pub fn start_login(code: String) -> (s: LoginState)
    ensures
        s@ == (Stage::ReadingSecret { code: code@ }),
{
    LoginState::ReadingSecret { code }
}

/// Decides the next stage and step of a sign-in from what the last step
/// brought back.
pub fn login_step(state: LoginState, event: LoginEvent) -> (r: (LoginState, LoginAction))
    ensures
        (r.0@, r.1@) == next(state@, event@),
{
    match state {
        LoginState::ReadingSecret { code } => match event {
            LoginEvent::SecretRead(Some(secret)) => (
                LoginState::ExchangingCode,
                LoginAction::ExchangeCode {
                    code,
                    client_secret: secret,
                    client_id: String::from_str(github_client_id()),
                    auth_url: String::from_str(github_auth_url()),
                    token_url: String::from_str(github_token_url()),
                    redirect_url: String::from_str(github_redirect_url()),
                },
            ),
            LoginEvent::SecretRead(None) => (
                LoginState::Finished,
                LoginAction::Reply(Err(String::from_str("GITHUB_OAUTH_SECRET not set"))),
            ),
            _ => (LoginState::Finished, LoginAction::Reply(Err(String::new()))),
        },
        LoginState::ExchangingCode => match event {
            LoginEvent::TokenReceived(Ok(token)) => {
                let get = github_request("https://api.github.com/user", token.as_str());
                (LoginState::FetchingUser { access_token: token }, LoginAction::Fetch(get))
            },
            LoginEvent::TokenReceived(Err(e)) => (LoginState::Finished, LoginAction::Reply(Err(e))),
            _ => (LoginState::Finished, LoginAction::Reply(Err(String::new()))),
        },
        LoginState::FetchingUser { access_token } => match event {
            LoginEvent::BodyReceived(Ok(info)) => {
                let get = github_request("https://api.github.com/user/emails", access_token.as_str());
                (
                    LoginState::FetchingEmails { access_token, user_info: info },
                    LoginAction::Fetch(get),
                )
            },
            LoginEvent::BodyReceived(Err(e)) => (LoginState::Finished, LoginAction::Reply(Err(e))),
            _ => (LoginState::Finished, LoginAction::Reply(Err(String::new()))),
        },
        LoginState::FetchingEmails { access_token, user_info } => match event {
            LoginEvent::BodyReceived(Ok(emails)) => (
                LoginState::Finished,
                LoginAction::Reply(Ok((user_info, emails))),
            ),
            LoginEvent::BodyReceived(Err(e)) => (LoginState::Finished, LoginAction::Reply(Err(e))),
            _ => (LoginState::Finished, LoginAction::Reply(Err(String::new()))),
        },
        LoginState::Finished => (LoginState::Finished, LoginAction::Reply(Err(String::new()))),
    }
}

/// A sign-in in which every step succeeds: the code is exchanged with the
/// secret, both GitHub requests carry the access token as a bearer token, and
/// the reply is exactly the two bodies that GitHub sent.
pub proof fn lemma_sign_in_succeeds(
    code: Seq<char>,
    secret: Seq<char>,
    token: Seq<char>,
    info: Seq<char>,
    emails: Seq<char>,
)
    ensures
        next(Stage::ReadingSecret { code }, Report::SecretRead(Some(secret))) == (
            Stage::ExchangingCode,
            exchange_step(code, secret),
        ),
        next(Stage::ExchangingCode, Report::TokenReceived(Ok(token))) == (
            Stage::FetchingUser { token },
            github_get(user_url(), token),
        ),
        next(Stage::FetchingUser { token }, Report::BodyReceived(Ok(info))) == (
            Stage::FetchingEmails { token, user_info: info },
            github_get(emails_url(), token),
        ),
        next(Stage::FetchingEmails { token, user_info: info }, Report::BodyReceived(Ok(emails)))
            == (Stage::Finished, Step::Reply(Ok((info, emails)))),
{
}

/// Without a client secret the sign-in answers at once with the missing-secret
/// message, and nothing is sent to GitHub.
pub proof fn lemma_missing_secret(code: Seq<char>)
    ensures
        next(Stage::ReadingSecret { code }, Report::SecretRead(None)) == (
            Stage::Finished,
            Step::Reply(Err::<(Seq<char>, Seq<char>), Seq<char>>(missing_secret_message())),
        ),
{
}

/// A failed exchange or request ends the sign-in with its own message.
pub proof fn lemma_failure_finishes(stage: Stage, message: Seq<char>)
    requires
        !(stage is ReadingSecret),
        !(stage is Finished),
    ensures
        ({
            let report = if stage is ExchangingCode {
                Report::TokenReceived(Err(message))
            } else {
                Report::BodyReceived(Err(message))
            };
            expects(stage, report) && next(stage, report) == (
                Stage::Finished,
                Step::Reply(Err::<(Seq<char>, Seq<char>), Seq<char>>(message)),
            )
        }),
{
}

/// A sign-in replies exactly when it finishes, and once finished it waits for
/// nothing more.
pub proof fn lemma_reply_iff_finished(stage: Stage, report: Report)
    requires
        expects(stage, report),
    ensures
        next(stage, report).1 is Reply <==> next(stage, report).0 is Finished,
        forall|r: Report| !expects(Stage::Finished, r),
{
}

/// A successful reply carries the profile fetched before and the body of the
/// e-mail request just answered.
pub proof fn lemma_success_carries_bodies(
    stage: Stage,
    report: Report,
    info: Seq<char>,
    emails: Seq<char>,
)
    requires
        expects(stage, report),
        next(stage, report).1 == Step::Reply(Ok::<(Seq<char>, Seq<char>), Seq<char>>((info, emails))),
    ensures
        stage matches Stage::FetchingEmails { user_info, .. } && user_info == info,
        report == Report::BodyReceived(Ok::<Seq<char>, Seq<char>>(emails)),
{
}

/// The steps of a sign-in from `stage` on a series of reports, up to the
/// first report that the sign-in does not wait for.
pub open spec fn steps(stage: Stage, reports: Seq<Report>) -> Seq<Step>
    decreases reports.len(),
{
    if reports.len() == 0 || !expects(stage, reports[0]) {
        Seq::empty()
    } else {
        let (s2, step) = next(stage, reports[0]);
        seq![step] + steps(s2, reports.drop_first())
    }
}

/// The client secret reaches nothing but the exchange: two sign-ins with the
/// same code and the same later reports, but different secrets, take the same
/// steps after the exchange, so they fetch the same requests and give the same
/// reply; and their exchanges differ in the secret alone.
pub proof fn lemma_secret_only_reaches_the_exchange(
    code: Seq<char>,
    secret1: Seq<char>,
    secret2: Seq<char>,
    later: Seq<Report>,
)
    ensures
        ({
            let run1 = steps(
                Stage::ReadingSecret { code },
                seq![Report::SecretRead(Some(secret1))] + later,
            );
            let run2 = steps(
                Stage::ReadingSecret { code },
                seq![Report::SecretRead(Some(secret2))] + later,
            );
            &&& run1.len() == run2.len()
            &&& run1.len() >= 1
            &&& run1[0] == exchange_step(code, secret1)
            &&& run2[0] == exchange_step(code, secret2)
            &&& run1.drop_first() == run2.drop_first()
        }),
{
    let r1 = seq![Report::SecretRead(Some(secret1))] + later;
    let r2 = seq![Report::SecretRead(Some(secret2))] + later;
    assert(r1.drop_first() =~= later);
    assert(r2.drop_first() =~= later);
    assert(r1[0] == Report::SecretRead(Some(secret1)));
    assert(r2[0] == Report::SecretRead(Some(secret2)));
    let run1 = steps(Stage::ReadingSecret { code }, r1);
    let run2 = steps(Stage::ReadingSecret { code }, r2);
    assert(run1 == seq![exchange_step(code, secret1)] + steps(Stage::ExchangingCode, later));
    assert(run2 == seq![exchange_step(code, secret2)] + steps(Stage::ExchangingCode, later));
    assert(run1.drop_first() =~= steps(Stage::ExchangingCode, later));
    assert(run2.drop_first() =~= steps(Stage::ExchangingCode, later));
}

/// The exchange uses the OAuth client that the sign-in link names: the same
/// client id, authorization endpoint and redirect URL that `sign_in_link`
/// hands to the link it builds (see its contract), and GitHub's token endpoint.
pub proof fn lemma_exchange_matches_sign_in_link(code: Seq<char>, secret: Seq<char>)
    ensures
        next(Stage::ReadingSecret { code }, Report::SecretRead(Some(secret))).1 matches Step::ExchangeCode {
            client_id,
            auth_url,
            token_url,
            redirect_url,
            ..
        } && client_id == client_id_text() && auth_url == auth_url_text() && redirect_url
            == redirect_url_text() && token_url == token_url_text(),
{
}

/// Every stage that has not finished waits for every report of the kind it
/// consumes, successful or failed: the secret stage for any secret reading,
/// the exchange for any token result, and both GitHub fetches for any body
/// result. Only a finished sign-in waits for nothing.
pub proof fn lemma_stages_wait_for_their_reports()
    ensures
        forall|code: Seq<char>, secret: Option<Seq<char>>|
            #[trigger] expects(Stage::ReadingSecret { code }, Report::SecretRead(secret)),
        forall|r: Result<Seq<char>, Seq<char>>| #[trigger]
            expects(Stage::ExchangingCode, Report::TokenReceived(r)),
        forall|token: Seq<char>, r: Result<Seq<char>, Seq<char>>|
            #[trigger] expects(Stage::FetchingUser { token }, Report::BodyReceived(r)),
        forall|token: Seq<char>, info: Seq<char>, r: Result<Seq<char>, Seq<char>>|
            #[trigger] expects(Stage::FetchingEmails { token, user_info: info }, Report::BodyReceived(r)),
        forall|r: Report| !#[trigger] expects(Stage::Finished, r),
{
}

} // verus!
