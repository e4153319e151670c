use auth_server::application::authorization_code::error::{
    AuthCodeError, FatalAuthCodeError, RedirectableAuthCodeError,
};
use auth_server::application::authorization_code::push::{
    begin_authorize_push, finish_authorize_push, generate_request_uri, AuthorizePushSuccess,
    PAR_TTL_SECONDS,
};
use auth_server::application::authorization_code::submit::{
    accept_taken_par, finish_code_issue, generate_auth_code, issue_authorization_code,
    CODE_TTL_SECONDS,
};
use auth_server::domain::entity::authorization_code::request::validate::{
    FatalValidationError, RedirectableValidationError, ValidationError,
};
use auth_server::domain::entity::authorization_code::request::AuthorizationRequest;
use auth_server::domain::entity::client::Client;
use auth_server::persistence::authorization_codes::{self, SaveAuthorizationCodeError};
use auth_server::persistence::pars::{self, SaveParError, TakeParError};
use base64::Engine;

const CLIENT_ID: u128 = 0x6f1c_2a3b_4c5d_4e6f_8a9b_0c1d_2e3f_4a5b;
const REQUEST_URI_PREFIX: &str = "urn:authorize:request_uri:";

fn make_client(id: u128) -> Client {
    Client::new(
        id,
        "Test Client".to_string(),
        vec!["https://example.com/callback".to_string()],
        vec!["read".to_string(), "write".to_string()],
    )
}

fn make_request(client_id: u128) -> AuthorizationRequest {
    AuthorizationRequest::new(
        client_id,
        "https://example.com/callback".to_string(),
        "code".to_string(),
        "read write".to_string(),
        "some-state".to_string(),
        "some-code-challenge".to_string(),
        "S256".to_string(),
    )
}

fn push(client: Option<Client>, scope: &str) -> Result<auth_server::application::authorization_code::push::PendingPar, AuthCodeError> {
    begin_authorize_push(
        CLIENT_ID,
        "https://example.com/callback".to_string(),
        "code".to_string(),
        scope.to_string(),
        "some-state".to_string(),
        "some-code-challenge".to_string(),
        "S256".to_string(),
        client,
    )
}

#[test]
fn push_succeeds_and_returns_request_uri_with_ttl_for_a_valid_request() {
    let pending = push(Some(make_client(CLIENT_ID)), "read write")
        .ok()
        .expect("expected a successful result");
    assert!(pending.request_uri.starts_with(REQUEST_URI_PREFIX));
    assert_eq!(pending.ttl_seconds, PAR_TTL_SECONDS);
    assert_eq!(pending.request.client_id(), CLIENT_ID);
    assert_eq!(pending.request.redirect_uri(), "https://example.com/callback");
    assert_eq!(pending.request.state(), "some-state");

    let request_uri = pending.request_uri.clone();
    let success = finish_authorize_push(pending, Ok(())).expect("expected a successful result");
    assert_eq!(success, AuthorizePushSuccess { request_uri, expires_in: PAR_TTL_SECONDS });
    assert_eq!(success.expires_in, 180);
}

#[test]
fn push_fails_with_database_error_when_save_par_fails() {
    let pending = push(Some(make_client(CLIENT_ID)), "read write").ok().unwrap();
    let result = finish_authorize_push(pending, Err(SaveParError::DatabaseError));
    assert_eq!(
        result,
        Err(AuthCodeError::Redirectable {
            error: RedirectableAuthCodeError::DatabaseError,
            redirect_uri: "https://example.com/callback".to_string(),
            state: "some-state".to_string(),
        })
    );
}

#[test]
fn push_fails_when_client_is_not_found() {
    assert!(matches!(
        push(None, "read"),
        Err(AuthCodeError::Fatal { error: FatalAuthCodeError::ClientNotFound })
    ));
}

#[test]
fn push_reports_validation_errors_of_the_request() {
    let result = push(Some(make_client(CLIENT_ID)), "read delete");
    assert!(matches!(
        result,
        Err(AuthCodeError::Redirectable { error: RedirectableAuthCodeError::InvalidScope, .. })
    ));
}

#[test]
fn generated_request_uris_are_a_prefix_and_a_uuid() {
    let a = generate_request_uri();
    let b = generate_request_uri();
    assert!(a.starts_with(REQUEST_URI_PREFIX));
    let id = uuid::Uuid::parse_str(&a[REQUEST_URI_PREFIX.len()..]).expect("a UUID");
    assert_eq!(id.get_version_num(), 4);
    assert_eq!(a.len(), REQUEST_URI_PREFIX.len() + 36);
    assert_eq!(a.len(), 62);
    let text: Vec<char> = a[REQUEST_URI_PREFIX.len()..].chars().collect();
    for (k, c) in text.iter().enumerate() {
        if k == 8 || k == 13 || k == 18 || k == 23 {
            assert_eq!(*c, '-');
        } else {
            assert!(c.is_ascii_digit() || ('a'..='f').contains(c));
        }
    }
    assert_eq!(text[14], '4');
    assert!(['8', '9', 'a', 'b'].contains(&text[19]));
    assert_ne!(a, b);
}

#[test]
fn generated_auth_codes_encode_256_random_bits() {
    let a = generate_auth_code();
    let b = generate_auth_code();
    assert_eq!(a.len(), 43);
    let bytes = base64::engine::general_purpose::URL_SAFE_NO_PAD
        .decode(a.as_bytes())
        .expect("URL-safe base64");
    assert_eq!(bytes.len(), 32);
    assert!(a.chars().all(|c| c.is_ascii_alphanumeric() || c == '-' || c == '_'));
    assert_ne!(a, b);
}

#[test]
fn succeeds_and_returns_code_with_ttl_for_a_valid_request() {
    let request = accept_taken_par(Ok(Some(make_request(CLIENT_ID)))).expect("a pushed request");
    let pending = issue_authorization_code(request, Some(make_client(CLIENT_ID)))
        .ok()
        .expect("expected a successful result");
    assert_eq!(pending.code.code().len(), 43);
    assert_eq!(pending.code.client_id(), CLIENT_ID);
    assert_eq!(pending.code.redirect_uri(), "https://example.com/callback");
    assert_eq!(pending.code.scope(), "read write");
    assert_eq!(pending.code.code_challenge(), "some-code-challenge");
    assert_eq!(pending.code.code_challenge_method(), "S256");
    assert_eq!(pending.ttl_seconds, CODE_TTL_SECONDS);

    let code = pending.code.code().to_string();
    let success = finish_code_issue(pending, Ok(())).expect("expected a successful result");
    assert_eq!(success.code, code);
    assert_eq!(success.redirect_uri, "https://example.com/callback");
    assert_eq!(success.state, "some-state");
    assert_eq!(success.expires_in, CODE_TTL_SECONDS);
    assert_eq!(success.expires_in, 300);
}

#[test]
fn fails_with_database_error_when_take_par_fails() {
    assert_eq!(
        accept_taken_par(Err(TakeParError::DatabaseError)),
        Err(AuthCodeError::fatal(FatalAuthCodeError::DatabaseError))
    );
    assert_eq!(
        accept_taken_par(Err(TakeParError::InvalidData)),
        Err(AuthCodeError::fatal(FatalAuthCodeError::DatabaseError))
    );
}

#[test]
fn fails_when_pushed_request_is_not_found() {
    assert_eq!(
        accept_taken_par(Ok(None)),
        Err(AuthCodeError::fatal(FatalAuthCodeError::PushedRequestNotFound))
    );
}

#[test]
fn fails_when_client_is_not_found() {
    let result = issue_authorization_code(make_request(CLIENT_ID), None);
    assert!(matches!(
        result,
        Err(AuthCodeError::Fatal { error: FatalAuthCodeError::ClientNotFound })
    ));
}

#[test]
fn fails_with_fatal_error_when_redirect_uri_is_not_registered() {
    let request = AuthorizationRequest::new(
        CLIENT_ID,
        "https://evil.example.com/callback".to_string(),
        "code".to_string(),
        "read write".to_string(),
        "some-state".to_string(),
        "some-code-challenge".to_string(),
        "S256".to_string(),
    );
    let result = issue_authorization_code(request, Some(make_client(CLIENT_ID)));
    assert!(matches!(
        result,
        Err(AuthCodeError::Fatal { error: FatalAuthCodeError::InvalidRedirectUri })
    ));
}

#[test]
fn fails_with_redirectable_error_when_scope_is_not_allowed() {
    let request = AuthorizationRequest::new(
        CLIENT_ID,
        "https://example.com/callback".to_string(),
        "code".to_string(),
        "delete".to_string(),
        "some-state".to_string(),
        "some-code-challenge".to_string(),
        "S256".to_string(),
    );
    match issue_authorization_code(request, Some(make_client(CLIENT_ID))) {
        Err(error) => assert_eq!(
            error,
            AuthCodeError::redirectable(
                RedirectableAuthCodeError::InvalidScope,
                "https://example.com/callback".to_string(),
                "some-state".to_string(),
            )
        ),
        Ok(_) => panic!("expected an error"),
    }
}

#[test]
fn fails_with_redirectable_database_error_when_save_authorization_code_fails() {
    let pending = issue_authorization_code(make_request(CLIENT_ID), Some(make_client(CLIENT_ID)))
        .ok()
        .unwrap();
    let result = finish_code_issue(pending, Err(SaveAuthorizationCodeError::DatabaseError));
    assert_eq!(
        result,
        Err(AuthCodeError::redirectable(
            RedirectableAuthCodeError::DatabaseError,
            "https://example.com/callback".to_string(),
            "some-state".to_string(),
        ))
    );
}

#[test]
fn code_request_of_another_client_is_refused() {
    let other: u128 = 7;
    let result = issue_authorization_code(make_request(CLIENT_ID), Some(make_client(other)));
    assert!(matches!(
        result,
        Err(AuthCodeError::Fatal { error: FatalAuthCodeError::ClientIdMismatch })
    ));
}

#[test]
fn validation_errors_keep_their_class_and_target() {
    assert_eq!(
        AuthCodeError::from(ValidationError::fatal(FatalValidationError::InvalidState)),
        AuthCodeError::fatal(FatalAuthCodeError::InvalidState)
    );
    assert_eq!(
        AuthCodeError::from(ValidationError::fatal(FatalValidationError::ClientIdMismatch)),
        AuthCodeError::fatal(FatalAuthCodeError::ClientIdMismatch)
    );
    assert_eq!(
        AuthCodeError::from(ValidationError::redirectable(
            RedirectableValidationError::InvalidCodeChallengeMethod,
            "https://a.example/cb".to_string(),
            "st".to_string(),
        )),
        AuthCodeError::redirectable(
            RedirectableAuthCodeError::InvalidCodeChallengeMethod,
            "https://a.example/cb".to_string(),
            "st".to_string(),
        )
    );
}

#[test]
fn store_keys_are_prefixed_and_distinct() {
    assert_eq!(pars::key("urn:authorize:request_uri:x"), "par:urn:authorize:request_uri:x");
    assert_eq!(authorization_codes::key("abc"), "authorization_code:abc");
    assert_ne!(pars::key("abc"), authorization_codes::key("abc"));
}
