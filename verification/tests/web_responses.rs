use auth_server::application::authorization_code::error::{
    AuthCodeError, FatalAuthCodeError, RedirectableAuthCodeError,
};
use auth_server::domain::entity::authorization_code::request::AuthorizationRequest;
use auth_server::domain::entity::client::Client;
use auth_server::persistence::pars::PeekParError;
use auth_server::web::authorize::page::error_response::AuthorizePageErrorResponse;
use auth_server::web::authorize::page::request::AuthorizePageQuery;
use auth_server::web::authorize::page::{check_page_query, check_peeked_par, page_response};
use auth_server::web::authorize::push::error_response::AuthorizePushErrorResponse;
use auth_server::web::authorize::push::parse_push_client_id;
use auth_server::web::authorize::submit::error_response::{
    AuthorizeSubmitErrorResponse, AuthorizeSubmitPageErrorResponse,
    AuthorizeSubmitRedirectErrorResponse, SubmitReply,
};
use auth_server::web::authorize::submit::response::AuthorizeSubmitResponse;

const CLIENT_ID: u128 = 0x6f1c_2a3b_4c5d_4e6f_8a9b_0c1d_2e3f_4a5b;
const CLIENT_ID_TEXT: &str = "6f1c2a3b-4c5d-4e6f-8a9b-0c1d2e3f4a5b";

fn make_request(client_id: u128) -> AuthorizationRequest {
    AuthorizationRequest::new(
        client_id,
        "https://example.com/callback".to_string(),
        "code".to_string(),
        "read write".to_string(),
        "some-state".to_string(),
        "some-code-challenge".to_string(),
        "S256".to_string(),
    )
}

#[test]
fn page_query_needs_a_uuid_client_id_and_a_request_uri() {
    let query = |c: Option<&str>, r: Option<&str>| AuthorizePageQuery {
        client_id: c.map(String::from),
        request_uri: r.map(String::from),
    };
    assert_eq!(
        check_page_query(query(Some(CLIENT_ID_TEXT), Some("urn:x"))),
        Ok((CLIENT_ID, "urn:x".to_string()))
    );
    assert_eq!(
        check_page_query(query(None, Some("urn:x"))),
        Err(AuthorizePageErrorResponse::MissingClientId)
    );
    assert_eq!(
        check_page_query(query(Some("not-a-uuid"), Some("urn:x"))),
        Err(AuthorizePageErrorResponse::InvalidClientId)
    );
    assert_eq!(
        check_page_query(query(Some(CLIENT_ID_TEXT), None)),
        Err(AuthorizePageErrorResponse::MissingRequestUri)
    );
}

#[test]
fn peeked_request_must_exist_and_belong_to_the_client() {
    assert!(matches!(
        check_peeked_par(CLIENT_ID, Err(PeekParError::DatabaseError)),
        Err(AuthorizePageErrorResponse::ServerError)
    ));
    assert!(matches!(
        check_peeked_par(CLIENT_ID, Ok(None)),
        Err(AuthorizePageErrorResponse::RequestNotFound)
    ));
    assert!(matches!(
        check_peeked_par(CLIENT_ID, Ok(Some(make_request(5)))),
        Err(AuthorizePageErrorResponse::ClientIdMismatch)
    ));
    assert_eq!(
        check_peeked_par(CLIENT_ID, Ok(Some(make_request(CLIENT_ID)))).ok(),
        Some(make_request(CLIENT_ID))
    );
}

#[test]
fn page_names_client_and_scope() {
    let client = Client::new(CLIENT_ID, "Test Client".to_string(), vec![], vec![]);
    let page = page_response(CLIENT_ID, "urn:x".to_string(), &make_request(CLIENT_ID), Some(client))
        .ok()
        .expect("a page");
    assert_eq!(page.client_name, "Test Client");
    assert_eq!(page.scope, "read write");
    assert_eq!(page.client_id, CLIENT_ID);
    assert_eq!(page.request_uri, "urn:x");
    assert!(matches!(
        page_response(CLIENT_ID, "urn:x".to_string(), &make_request(CLIENT_ID), None),
        Err(AuthorizePageErrorResponse::ClientNotFound)
    ));
}

#[test]
fn page_errors_have_status_code_and_description() {
    assert_eq!(
        AuthorizePageErrorResponse::MissingClientId.content(),
        (400, "invalid_request".to_string(), "The client_id parameter is missing.".to_string())
    );
    assert_eq!(
        AuthorizePageErrorResponse::ServerError.content(),
        (
            500,
            "server_error".to_string(),
            "An unexpected error occurred while processing the request.".to_string()
        )
    );
}

#[test]
fn push_client_id_must_be_a_uuid() {
    assert_eq!(parse_push_client_id(CLIENT_ID_TEXT), Ok(CLIENT_ID));
    assert_eq!(
        parse_push_client_id("urn:uuid:6f1c2a3b-4c5d-4e6f-8a9b-0c1d2e3f4a5b"),
        Ok(CLIENT_ID)
    );
    assert_eq!(parse_push_client_id("42"), Err(AuthorizePushErrorResponse::InvalidClientId));
}

#[test]
fn push_errors_map_to_json_errors() {
    assert_eq!(
        AuthorizePushErrorResponse::from(AuthCodeError::fatal(FatalAuthCodeError::ClientNotFound)),
        AuthorizePushErrorResponse::ClientNotFound
    );
    assert_eq!(
        AuthorizePushErrorResponse::from(AuthCodeError::fatal(FatalAuthCodeError::ClientIdMismatch)),
        AuthorizePushErrorResponse::InternalServerError
    );
    assert_eq!(
        AuthorizePushErrorResponse::from(AuthCodeError::redirectable(
            RedirectableAuthCodeError::InvalidScope,
            "u".to_string(),
            "s".to_string()
        )),
        AuthorizePushErrorResponse::InvalidScope
    );
    assert_eq!(
        AuthorizePushErrorResponse::ClientNotFound.content(),
        (404, "client_not_found".to_string(), "The client was not found.".to_string())
    );
    assert_eq!(
        AuthorizePushErrorResponse::DatabaseError.content(),
        (500, "database_error".to_string(), "A database error occurred.".to_string())
    );
}

#[test]
fn submit_errors_split_into_pages_and_redirects() {
    assert_eq!(
        AuthorizeSubmitErrorResponse::from(AuthCodeError::fatal(
            FatalAuthCodeError::PushedRequestNotFound
        )),
        AuthorizeSubmitErrorResponse::Page { error: AuthorizeSubmitPageErrorResponse::RequestNotFound }
    );
    assert_eq!(
        AuthorizeSubmitErrorResponse::from(AuthCodeError::redirectable(
            RedirectableAuthCodeError::InvalidCodeChallengeMethod,
            "https://example.com/callback".to_string(),
            "some-state".to_string()
        )),
        AuthorizeSubmitErrorResponse::Redirect {
            error: AuthorizeSubmitRedirectErrorResponse::InvalidCodeChallenge,
            redirect_uri: "https://example.com/callback".to_string(),
            state: "some-state".to_string(),
        }
    );
}

#[test]
fn redirect_errors_have_oauth_codes() {
    assert_eq!(AuthorizeSubmitRedirectErrorResponse::InvalidScope.code(), "invalid_scope");
    assert_eq!(
        AuthorizeSubmitRedirectErrorResponse::UnsupportedResponseType.code(),
        "invalid_request"
    );
    assert_eq!(
        AuthorizeSubmitRedirectErrorResponse::ServerError.description(),
        "A unexpected error occured."
    );
}

#[test]
fn submit_error_redirect_carries_error_and_state() {
    let reply = AuthorizeSubmitErrorResponse::Redirect {
        error: AuthorizeSubmitRedirectErrorResponse::InvalidScope,
        redirect_uri: "https://example.com/callback".to_string(),
        state: "some state".to_string(),
    }
    .reply();
    assert_eq!(
        reply,
        SubmitReply::Redirect {
            location: "https://example.com/callback?error=invalid_scope&error_description=The+scope+is+invalid.&state=some+state".to_string()
        }
    );
}

#[test]
fn submit_error_with_unparsable_redirect_uri_becomes_server_error_page() {
    let reply = AuthorizeSubmitErrorResponse::Redirect {
        error: AuthorizeSubmitRedirectErrorResponse::InvalidScope,
        redirect_uri: "not a url".to_string(),
        state: "s".to_string(),
    }
    .reply();
    assert_eq!(
        reply,
        SubmitReply::Page {
            status_code: 500,
            error: "server_error".to_string(),
            error_description: "An unexpected error occurred while processing the request."
                .to_string(),
        }
    );
}

#[test]
fn submit_page_errors_have_status_code_and_description() {
    assert_eq!(
        AuthorizeSubmitErrorResponse::Page { error: AuthorizeSubmitPageErrorResponse::InvalidState }
            .reply(),
        SubmitReply::Page {
            status_code: 400,
            error: "invalid_request".to_string(),
            error_description: "The state of the authorization request is invalid.".to_string(),
        }
    );
}

#[test]
fn issued_code_is_delivered_to_the_redirect_uri() {
    let reply = AuthorizeSubmitResponse {
        code: "test-code".to_string(),
        redirect_uri: "https://example.com/callback".to_string(),
        state: "some-state".to_string(),
        expires_in: 300,
    }
    .reply();
    assert_eq!(
        reply,
        SubmitReply::Redirect {
            location: "https://example.com/callback?code=test-code&state=some-state&expires_in=300"
                .to_string()
        }
    );
}

#[test]
fn code_delivery_keeps_the_existing_query() {
    let reply = AuthorizeSubmitResponse {
        code: "c".to_string(),
        redirect_uri: "https://example.com/cb?x=1".to_string(),
        state: "s".to_string(),
        expires_in: 7,
    }
    .reply();
    assert_eq!(
        reply,
        SubmitReply::Redirect {
            location: "https://example.com/cb?x=1&code=c&state=s&expires_in=7".to_string()
        }
    );
}
