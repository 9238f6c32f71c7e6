use erudify::github::{callback_code, github_client_id, github_endpoints, github_scope, parse_endpoints, EndpointError};
use erudify::login::{login_step, start_login, GithubGet, LoginAction, LoginEvent, LoginState};
use leptos_router::params::ParamsMap;

#[test]
fn site_configuration() {
    assert_eq!(github_client_id(), "Ov23li9etcgfYorMCgM1");
    assert_eq!(github_scope(), "user:email");
}

#[test]
fn site_endpoints_parse() {
    let e = github_endpoints().ok().expect("endpoints parse");
    assert_eq!(e.auth_url.as_str(), "https://github.com/login/oauth/authorize");
    assert_eq!(e.token_url.as_str(), "https://github.com/login/oauth/access_token");
    assert_eq!(e.redirect_url.as_str(), "http://127.0.0.1:6767/oauth/github");
}

#[test]
fn invalid_endpoints_are_reported_in_order() {
    let good = "https://example.com/a";
    assert!(matches!(
        parse_endpoints("not a url", "also bad", "bad"),
        Err(EndpointError::InvalidAuthorizationEndpoint)
    ));
    assert!(matches!(
        parse_endpoints(good, "also bad", "bad"),
        Err(EndpointError::InvalidTokenEndpoint)
    ));
    assert!(matches!(parse_endpoints(good, good, "bad"), Err(EndpointError::InvalidRedirectUrl)));
    assert!(parse_endpoints(good, good, good).is_ok());
}

#[test]
fn endpoint_error_messages() {
    assert_eq!(EndpointError::InvalidAuthorizationEndpoint.message(), "Invalid authorization endpoint URL");
    assert_eq!(EndpointError::InvalidTokenEndpoint.message(), "Invalid token endpoint URL");
    assert_eq!(EndpointError::InvalidRedirectUrl.message(), "Invalid redirect URL");
}

#[test]
fn callback_reads_the_code() {
    let mut q = ParamsMap::new();
    q.insert("state", "xyz".to_string());
    q.insert("code", "abc123".to_string());
    assert_eq!(callback_code(&q), "abc123");
}

#[test]
fn callback_without_code_gives_empty_text() {
    let mut q = ParamsMap::new();
    q.insert("state", "xyz".to_string());
    assert_eq!(callback_code(&q), "");
    assert_eq!(callback_code(&ParamsMap::new()), "");
}

#[test]
fn callback_takes_the_newest_code() {
    let mut q = ParamsMap::new();
    q.insert("code", "old".to_string());
    q.insert("code", "new".to_string());
    assert_eq!(callback_code(&q), "new");
}

fn get(url: &str, token: &str) -> LoginAction {
    LoginAction::Fetch(GithubGet {
        url: url.to_string(),
        authorization: format!("Bearer {}", token),
        user_agent: "Erudify".to_string(),
    })
}

#[test]
fn sign_in_walks_through_all_steps() {
    let s = start_login("the-code".to_string());
    let (s, a) = login_step(s, LoginEvent::SecretRead(Some("s3cret".to_string())));
    assert_eq!(
        a,
        LoginAction::ExchangeCode {
            code: "the-code".to_string(),
            client_secret: "s3cret".to_string(),
            client_id: "Ov23li9etcgfYorMCgM1".to_string(),
            auth_url: "https://github.com/login/oauth/authorize".to_string(),
            token_url: "https://github.com/login/oauth/access_token".to_string(),
            redirect_url: "http://127.0.0.1:6767/oauth/github".to_string(),
        }
    );
    assert_eq!(s, LoginState::ExchangingCode);
    let (s, a) = login_step(s, LoginEvent::TokenReceived(Ok("tok".to_string())));
    assert_eq!(a, get("https://api.github.com/user", "tok"));
    let (s, a) = login_step(s, LoginEvent::BodyReceived(Ok("{\"login\":\"me\"}".to_string())));
    assert_eq!(a, get("https://api.github.com/user/emails", "tok"));
    let (s, a) = login_step(s, LoginEvent::BodyReceived(Ok("[]".to_string())));
    assert_eq!(a, LoginAction::Reply(Ok(("{\"login\":\"me\"}".to_string(), "[]".to_string()))));
    assert_eq!(s, LoginState::Finished);
}

#[test]
fn sign_in_without_secret_fails_at_once() {
    let (s, a) = login_step(start_login("c".to_string()), LoginEvent::SecretRead(None));
    assert_eq!(a, LoginAction::Reply(Err("GITHUB_OAUTH_SECRET not set".to_string())));
    assert_eq!(s, LoginState::Finished);
}

#[test]
fn failed_exchange_reports_its_message() {
    let (s, _) = login_step(start_login("c".to_string()), LoginEvent::SecretRead(Some("x".to_string())));
    let (s, a) = login_step(s, LoginEvent::TokenReceived(Err("bad code".to_string())));
    assert_eq!(a, LoginAction::Reply(Err("bad code".to_string())));
    assert_eq!(s, LoginState::Finished);
}

#[test]
fn failed_requests_report_their_message() {
    let s = LoginState::FetchingUser { access_token: "t".to_string() };
    let (s2, a) = login_step(s, LoginEvent::BodyReceived(Err("timeout".to_string())));
    assert_eq!(a, LoginAction::Reply(Err("timeout".to_string())));
    assert_eq!(s2, LoginState::Finished);
    let s = LoginState::FetchingEmails { access_token: "t".to_string(), user_info: "i".to_string() };
    let (s2, a) = login_step(s, LoginEvent::BodyReceived(Err("403".to_string())));
    assert_eq!(a, LoginAction::Reply(Err("403".to_string())));
    assert_eq!(s2, LoginState::Finished);
}

#[test]
fn parsed_endpoints_keep_their_texts() {
    let e = parse_endpoints("https://a.example/auth", "https://a.example/token", "http://localhost:1/cb")
        .ok()
        .expect("all three parse");
    assert_eq!(e.auth_url.as_str(), "https://a.example/auth");
    assert_eq!(e.token_url.as_str(), "https://a.example/token");
    assert_eq!(e.redirect_url.as_str(), "http://localhost:1/cb");
}

#[test]
fn sign_in_link_points_at_github_with_the_site_settings() {
    let (link, state) = erudify::github::sign_in_link().ok().expect("site endpoints parse");
    assert_eq!(state.len(), 22);
    assert!(state.chars().all(|c| c.is_ascii_alphanumeric() || c == '-' || c == '_'));
    let expected = format!(
        "https://github.com/login/oauth/authorize?response_type=code&client_id=Ov23li9etcgfYorMCgM1&state={}&redirect_uri=http%3A%2F%2F127.0.0.1%3A6767%2Foauth%2Fgithub&scope=user%3Aemail",
        state
    );
    assert_eq!(link, expected);
}

#[test]
fn sign_in_links_differ_in_their_state() {
    let (a, sa) = erudify::github::sign_in_link().ok().unwrap();
    let (b, sb) = erudify::github::sign_in_link().ok().unwrap();
    assert_ne!(sa, sb);
    assert_ne!(a, b);
}

#[test]
fn secret_only_reaches_the_exchange() {
    let run = |secret: &str| {
        let mut actions = Vec::new();
        let mut s = start_login("c".to_string());
        for e in [
            LoginEvent::SecretRead(Some(secret.to_string())),
            LoginEvent::TokenReceived(Ok("tok".to_string())),
            LoginEvent::BodyReceived(Ok("me".to_string())),
            LoginEvent::BodyReceived(Ok("mails".to_string())),
        ] {
            let (next, a) = login_step(s, e);
            s = next;
            actions.push(a);
        }
        actions
    };
    let a = run("one");
    let b = run("two");
    assert_ne!(a[0], b[0]);
    assert_eq!(a[1..], b[1..]);
}

#[test]
fn unexpected_event_ends_with_empty_error() {
    let (s, a) = login_step(LoginState::ExchangingCode, LoginEvent::SecretRead(None));
    assert_eq!(s, LoginState::Finished);
    assert_eq!(a, LoginAction::Reply(Err(String::new())));
    let (s, a) = login_step(LoginState::Finished, LoginEvent::BodyReceived(Ok("x".to_string())));
    assert_eq!(s, LoginState::Finished);
    assert_eq!(a, LoginAction::Reply(Err(String::new())));
}

#[test]
fn exchange_uses_the_sign_in_link_settings() {
    let (link, _) = erudify::github::sign_in_link().ok().unwrap();
    let (_, a) = login_step(start_login("c".to_string()), LoginEvent::SecretRead(Some("s".to_string())));
    match a {
        LoginAction::ExchangeCode { client_id, auth_url, redirect_url, .. } => {
            assert!(link.starts_with(&auth_url));
            assert!(link.contains(&format!("client_id={}", client_id)));
            assert!(link.contains("redirect_uri=http%3A%2F%2F127.0.0.1%3A6767%2Foauth%2Fgithub"));
            assert_eq!(redirect_url, "http://127.0.0.1:6767/oauth/github");
        }
        other => panic!("unexpected action {:?}", other),
    }
}
