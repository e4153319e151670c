use vstd::prelude::*;

use crate::error::HttpError;

verus! {

/// The OAuth error responses of the authorization endpoint (RFC 6749, section 4.1.2.1), answered
/// as JSON.
pub enum AuthorizeError {
    InvalidRequest { description: String },
    UnauthorizedClient,
    AccessDenied,
    UnsupportedResponseType,
    InvalidScope,
    ServerError,
}

/// The HTTP status, error code and description that `e` is answered with.
pub open spec fn http_error_content(e: AuthorizeError) -> (u16, Seq<char>, Seq<char>) {
    match e {
        AuthorizeError::InvalidRequest { description } => (400, "invalid_request"@, description@),
        AuthorizeError::UnauthorizedClient => (
            401,
            "unauthorized_client"@,
            "The client is not authorized to request an authorization code using this method."@,
        ),
        AuthorizeError::AccessDenied => (
            403,
            "access_denied"@,
            "The resource owner or authorization server denied the request."@,
        ),
        AuthorizeError::UnsupportedResponseType => (
            400,
            "unsupported_response_type"@,
            "The authorization server does not support obtaining an authorization code using this method."@,
        ),
        AuthorizeError::InvalidScope => (
            400,
            "invalid_scope"@,
            "The requested scope is invalid, unknown, or malformed."@,
        ),
        AuthorizeError::ServerError => (500, "server_error"@, "Internal server error."@),
    }
}

impl AuthorizeError {
    /// The JSON error this is answered with.
    pub fn into_http_error(self) -> (h: HttpError)
        ensures
            (h.http_status_code, h.error@, h.error_description@) == http_error_content(self),
    {
        match self {
            AuthorizeError::InvalidRequest { description } => {
                HttpError::new(400, String::from_str("invalid_request"), description)
            },
            AuthorizeError::UnauthorizedClient => HttpError::new(
                401,
                String::from_str("unauthorized_client"),
                String::from_str(
                    "The client is not authorized to request an authorization code using this method.",
                ),
            ),
            AuthorizeError::AccessDenied => HttpError::new(
                403,
                String::from_str("access_denied"),
                String::from_str("The resource owner or authorization server denied the request."),
            ),
            AuthorizeError::UnsupportedResponseType => HttpError::new(
                400,
                String::from_str("unsupported_response_type"),
                String::from_str(
                    "The authorization server does not support obtaining an authorization code using this method.",
                ),
            ),
            AuthorizeError::InvalidScope => HttpError::new(
                400,
                String::from_str("invalid_scope"),
                String::from_str("The requested scope is invalid, unknown, or malformed."),
            ),
            AuthorizeError::ServerError => HttpError::new(
                500,
                String::from_str("server_error"),
                String::from_str("Internal server error."),
            ),
        }
    }
}

} // verus!
