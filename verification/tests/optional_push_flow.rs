use auth_server::application::authorize::push::{
    begin_authorize_push, finish_authorize_push, AuthorizePushError, AuthorizePushSuccess,
    FatalAuthorizePushError, PendingPar, RedirectableAuthorizePushError, PAR_TTL_SECONDS,
};
use auth_server::domain::entity::client::Client;
use auth_server::persistence::pars::SaveParError;

const CLIENT_ID: u128 = 0x6f1c_2a3b_4c5d_4e6f_8a9b_0c1d_2e3f_4a5b;
const REQUEST_URI_PREFIX: &str = "urn:authorize:request_uri:";

fn make_client(id: u128) -> Client {
    Client::new(
        id,
        "Test Client".to_string(),
        vec!["https://example.com/callback".to_string()],
        vec!["read".to_string(), "write".to_string()],
    )
}

fn valid_params() -> (
    Option<String>,
    Option<String>,
    Option<String>,
    Option<String>,
    Option<String>,
    Option<String>,
) {
    (
        Some("https://example.com/callback".to_string()),
        Some("code".to_string()),
        Some("read write".to_string()),
        Some("some-state".to_string()),
        Some("some-code-challenge".to_string()),
        Some("S256".to_string()),
    )
}

fn begin(client: Option<Client>) -> Result<PendingPar, AuthorizePushError> {
    let (redirect_uri, response_type, scope, state, code_challenge, code_challenge_method) =
        valid_params();
    begin_authorize_push(
        CLIENT_ID,
        redirect_uri,
        response_type,
        scope,
        state,
        code_challenge,
        code_challenge_method,
        client,
    )
}

#[test]
fn optional_push_succeeds_and_returns_request_uri_with_ttl_for_a_valid_request() {
    let pending = begin(Some(make_client(CLIENT_ID))).ok().expect("expected a successful result");
    assert!(pending.request_uri.starts_with(REQUEST_URI_PREFIX));
    assert_eq!(pending.ttl_seconds, PAR_TTL_SECONDS);
    assert_eq!(pending.request.client_id(), CLIENT_ID);
    assert_eq!(pending.request.redirect_uri(), Some("https://example.com/callback"));
    assert_eq!(pending.request.state(), Some("some-state"));
    assert_eq!(
        pending.request.scope(),
        Some(&vec!["read".to_string(), "write".to_string()])
    );

    let request_uri = pending.request_uri.clone();
    let success = finish_authorize_push(pending, Ok(())).expect("expected a successful result");
    assert_eq!(success, AuthorizePushSuccess { request_uri, expires_in: 180 });
}

#[test]
fn optional_push_fails_with_database_error_when_save_par_fails() {
    let pending = begin(Some(make_client(CLIENT_ID))).ok().unwrap();
    assert_eq!(
        finish_authorize_push(pending, Err(SaveParError::DatabaseError)),
        Err(AuthorizePushError::Redirectable(RedirectableAuthorizePushError::DatabaseError))
    );
}

#[test]
fn optional_push_fails_when_client_is_not_found() {
    assert!(matches!(
        begin(None),
        Err(AuthorizePushError::Fatal(FatalAuthorizePushError::ClientNotFound))
    ));
}

#[test]
fn optional_push_maps_each_validation_error() {
    let client = || Some(make_client(CLIENT_ID));
    let cases: Vec<(Option<&str>, Option<&str>, Option<&str>, Option<&str>, Option<&str>, Option<&str>, AuthorizePushError)> = vec![
        (None, Some("code"), Some("read"), Some("s"), Some("c"), Some("S256"),
            AuthorizePushError::Fatal(FatalAuthorizePushError::InvalidRedirectUri)),
        (Some("https://example.com/callback"), Some("token"), Some("read"), Some("s"), Some("c"), Some("S256"),
            AuthorizePushError::Redirectable(RedirectableAuthorizePushError::InvalidResponseType)),
        (Some("https://example.com/callback"), Some("code"), Some("read admin"), Some("s"), Some("c"), Some("S256"),
            AuthorizePushError::Redirectable(RedirectableAuthorizePushError::InvalidScope)),
        (Some("https://example.com/callback"), Some("code"), Some("read"), Some(""), Some("c"), Some("S256"),
            AuthorizePushError::Redirectable(RedirectableAuthorizePushError::InvalidState)),
        (Some("https://example.com/callback"), Some("code"), Some("read"), Some("s"), Some("c"), None,
            AuthorizePushError::Redirectable(RedirectableAuthorizePushError::InvalidCodeChallengeMethod)),
        (Some("https://example.com/callback"), Some("code"), Some("read"), Some("s"), Some(""), Some("S256"),
            AuthorizePushError::Redirectable(RedirectableAuthorizePushError::InvalidCodeChallenge)),
    ];
    for (redirect_uri, response_type, scope, state, challenge, method, expected) in cases {
        let o = |v: Option<&str>| v.map(|s| s.to_string());
        let result = begin_authorize_push(
            CLIENT_ID,
            o(redirect_uri),
            o(response_type),
            o(scope),
            o(state),
            o(challenge),
            o(method),
            client(),
        );
        assert!(matches!(result, Err(e) if e == expected));
    }
}
