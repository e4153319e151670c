use auth_server::domain::entity::authorization_code::request::validate::{
    FatalValidationError, RedirectableValidationError, ValidationError,
};
use auth_server::domain::entity::authorization_code::request::AuthorizationRequest;
use auth_server::domain::entity::client::Client;

const CLIENT_ID: u128 = 0x6f1c_2a3b_4c5d_4e6f_8a9b_0c1d_2e3f_4a5b;
const OTHER_CLIENT_ID: u128 = 0x1234_5678_9abc_4def_8123_4567_89ab_cdef;

fn make_client(id: u128) -> Client {
    Client::new(
        id,
        "Test Client".to_string(),
        vec!["https://example.com/callback".to_string()],
        vec!["read".to_string(), "write".to_string()],
    )
}

fn make_authorization_request(client_id: u128) -> AuthorizationRequest {
    AuthorizationRequest::new(
        client_id,
        "https://example.com/callback".to_string(),
        "code".to_string(),
        "read".to_string(),
        "some-state".to_string(),
        "some-code-challenge".to_string(),
        "S256".to_string(),
    )
}

#[test]
fn test_has_redirect_uri() {
    let client = Client::new(
        CLIENT_ID,
        "Test Client".to_string(),
        vec!["https://example.com/callback".to_string()],
        vec!["read".to_string(), "write".to_string()],
    );

    assert!(client.has_redirect_uri("https://example.com/callback"));
    assert!(!client.has_redirect_uri("https://example.com/other"));
}

#[test]
fn test_has_scopes() {
    let client = Client::new(
        CLIENT_ID,
        "Test Client".to_string(),
        vec!["https://example.com/callback".to_string()],
        vec!["read".to_string(), "write".to_string()],
    );

    assert!(client.has_scope("read"));
    assert!(client.has_scope("read write"));
    assert!(!client.has_scope("delete"));
    assert!(!client.has_scope("read delete"));
}

#[test]
fn has_scope_ignores_surrounding_and_repeated_whitespace() {
    let client = make_client(CLIENT_ID);
    assert!(client.has_scope("  read\twrite\n"));
    assert!(client.has_scope(""));
    assert!(client.has_scope("read\u{3000}write"));
    assert!(!client.has_scope("readwrite"));
}

#[test]
fn has_scopes_checks_every_entry() {
    let client = make_client(CLIENT_ID);
    assert!(client.has_scopes(&vec!["write".to_string(), "read".to_string()]));
    assert!(client.has_scopes(&vec![]));
    assert!(!client.has_scopes(&vec!["read".to_string(), "Read".to_string()]));
}

#[test]
fn client_getters_return_what_it_was_made_with() {
    let client = make_client(CLIENT_ID);
    assert_eq!(client.id(), CLIENT_ID);
    assert_eq!(client.client_name(), "Test Client");
    assert_eq!(client.duplicate(), client);
}

#[test]
fn valid_request_passes_validation() {
    let client = make_client(CLIENT_ID);
    let request = make_authorization_request(CLIENT_ID);

    assert_eq!(request.validate_against_client(&client), Ok(()));
}

#[test]
fn validate_rejects_client_id_mismatch() {
    let client = make_client(CLIENT_ID);
    let request = make_authorization_request(OTHER_CLIENT_ID);

    assert_eq!(
        request.validate_against_client(&client),
        Err(ValidationError::fatal(FatalValidationError::ClientIdMismatch))
    );
}

#[test]
fn validate_rejects_invalid_response_type() {
    let client = make_client(CLIENT_ID);
    let request = AuthorizationRequest::new(
        CLIENT_ID,
        "https://example.com/callback".to_string(),
        "token".to_string(),
        "read".to_string(),
        "some-state".to_string(),
        "some-code-challenge".to_string(),
        "S256".to_string(),
    );

    assert_eq!(
        request.validate_against_client(&client),
        Err(ValidationError::redirectable(
            RedirectableValidationError::InvalidResponseType,
            "https://example.com/callback".to_string(),
            "some-state".to_string(),
        ))
    );
}

#[test]
fn validate_rejects_unregistered_redirect_uri() {
    let client = make_client(CLIENT_ID);
    let request = AuthorizationRequest::new(
        CLIENT_ID,
        "https://evil.example.com/callback".to_string(),
        "code".to_string(),
        "read".to_string(),
        "some-state".to_string(),
        "some-code-challenge".to_string(),
        "S256".to_string(),
    );

    assert_eq!(
        request.validate_against_client(&client),
        Err(ValidationError::fatal(FatalValidationError::InvalidRedirectUri))
    );
}

#[test]
fn validate_rejects_unregistered_scope() {
    let client = make_client(CLIENT_ID);
    let request = AuthorizationRequest::new(
        CLIENT_ID,
        "https://example.com/callback".to_string(),
        "code".to_string(),
        "delete".to_string(),
        "some-state".to_string(),
        "some-code-challenge".to_string(),
        "S256".to_string(),
    );

    assert_eq!(
        request.validate_against_client(&client),
        Err(ValidationError::redirectable(
            RedirectableValidationError::InvalidScope,
            "https://example.com/callback".to_string(),
            "some-state".to_string(),
        ))
    );
}

#[test]
fn validate_rejects_empty_state() {
    let client = make_client(CLIENT_ID);
    let request = AuthorizationRequest::new(
        CLIENT_ID,
        "https://example.com/callback".to_string(),
        "code".to_string(),
        "read".to_string(),
        "".to_string(),
        "some-code-challenge".to_string(),
        "S256".to_string(),
    );

    assert_eq!(
        request.validate_against_client(&client),
        Err(ValidationError::fatal(FatalValidationError::InvalidState))
    );
}

#[test]
fn validate_rejects_non_s256_code_challenge_method() {
    let client = make_client(CLIENT_ID);
    let request = AuthorizationRequest::new(
        CLIENT_ID,
        "https://example.com/callback".to_string(),
        "code".to_string(),
        "read".to_string(),
        "some-state".to_string(),
        "some-code-challenge".to_string(),
        "plain".to_string(),
    );

    assert_eq!(
        request.validate_against_client(&client),
        Err(ValidationError::redirectable(
            RedirectableValidationError::InvalidCodeChallengeMethod,
            "https://example.com/callback".to_string(),
            "some-state".to_string(),
        ))
    );
}

#[test]
fn validate_rejects_empty_code_challenge() {
    let client = make_client(CLIENT_ID);
    let request = AuthorizationRequest::new(
        CLIENT_ID,
        "https://example.com/callback".to_string(),
        "code".to_string(),
        "read".to_string(),
        "some-state".to_string(),
        "".to_string(),
        "S256".to_string(),
    );

    assert_eq!(
        request.validate_against_client(&client),
        Err(ValidationError::redirectable(
            RedirectableValidationError::InvalidCodeChallenge,
            "https://example.com/callback".to_string(),
            "some-state".to_string(),
        ))
    );
}

#[test]
fn validation_reports_the_first_failed_check() {
    // Wrong redirect URI and empty state: the redirect URI is checked first.
    let client = make_client(CLIENT_ID);
    let request = AuthorizationRequest::new(
        CLIENT_ID,
        "https://evil.example.com/callback".to_string(),
        "token".to_string(),
        "delete".to_string(),
        "".to_string(),
        "".to_string(),
        "plain".to_string(),
    );
    assert_eq!(
        request.validate_against_client(&client),
        Err(ValidationError::fatal(FatalValidationError::InvalidRedirectUri))
    );
}

#[test]
fn validate_and_unpack_hands_out_the_fields_of_a_valid_request() {
    let client = make_client(CLIENT_ID);
    let request = AuthorizationRequest::new(
        CLIENT_ID,
        "https://example.com/callback".to_string(),
        "code".to_string(),
        "read write".to_string(),
        "some-state".to_string(),
        "some-code-challenge".to_string(),
        "S256".to_string(),
    );
    let validated = request.validate_and_unpack(&client).ok().expect("a valid request");
    assert_eq!(validated.client_id, CLIENT_ID);
    assert_eq!(validated.redirect_uri, "https://example.com/callback");
    assert_eq!(validated.scope, "read write");
    assert_eq!(validated.state, "some-state");
    assert_eq!(validated.code_challenge, "some-code-challenge");
    assert_eq!(validated.code_challenge_method, "S256");
}

#[test]
fn validate_and_unpack_refuses_what_validation_refuses() {
    let client = make_client(CLIENT_ID);
    let request = make_authorization_request(OTHER_CLIENT_ID);
    assert!(matches!(
        request.validate_and_unpack(&client),
        Err(ValidationError::Fatal { error: FatalValidationError::ClientIdMismatch })
    ));
}

#[test]
fn request_getters_return_what_it_was_made_with() {
    let request = make_authorization_request(CLIENT_ID);
    assert_eq!(request.client_id(), CLIENT_ID);
    assert_eq!(request.redirect_uri(), "https://example.com/callback");
    assert_eq!(request.response_type(), "code");
    assert_eq!(request.scope(), "read");
    assert_eq!(request.state(), "some-state");
    assert_eq!(request.code_challenge(), "some-code-challenge");
    assert_eq!(request.code_challenge_method(), "S256");
}
