use vstd::prelude::*;

verus! {

/// Why the authorization confirmation page cannot be shown.
#[derive(Debug, PartialEq, Eq, Clone, Copy)]
pub enum AuthorizePageErrorResponse {
    MalformedRequest,
    MissingClientId,
    InvalidClientId,
    ClientNotFound,
    MissingRequestUri,
    RequestNotFound,
    ClientIdMismatch,
    ServerError,
}

/// The HTTP status, error code and description of the error page shown for `e`.
pub open spec fn page_error_content(e: AuthorizePageErrorResponse) -> (u16, Seq<char>, Seq<char>) {
    match e {
        AuthorizePageErrorResponse::MalformedRequest => (
            400,
            "invalid_request"@,
            "The request is malformed."@,
        ),
        AuthorizePageErrorResponse::MissingClientId => (
            400,
            "invalid_request"@,
            "The client_id parameter is missing."@,
        ),
        AuthorizePageErrorResponse::InvalidClientId => (
            400,
            "invalid_request"@,
            "The client_id parameter is invalid."@,
        ),
        AuthorizePageErrorResponse::ClientNotFound => (
            400,
            "invalid_request"@,
            "The client_id parameter does not match any registered client."@,
        ),
        AuthorizePageErrorResponse::MissingRequestUri => (
            400,
            "invalid_request"@,
            "The request_uri parameter is missing."@,
        ),
        AuthorizePageErrorResponse::RequestNotFound => (
            400,
            "invalid_request"@,
            "The request_uri parameter does not match a pending authorization request, or it has expired."@,
        ),
        AuthorizePageErrorResponse::ClientIdMismatch => (
            400,
            "invalid_request"@,
            "The client_id parameter does not match the client_id of the authorization request."@,
        ),
        AuthorizePageErrorResponse::ServerError => (
            500,
            "server_error"@,
            "An unexpected error occurred while processing the request."@,
        ),
    }
}

impl AuthorizePageErrorResponse {
    /// The HTTP status, error code and description of the error page shown for this error.
    pub fn content(&self) -> (r: (u16, String, String))
        ensures
            (r.0, r.1@, r.2@) == page_error_content(*self),
    {
        let (status_code, error, error_description) = match self {
            AuthorizePageErrorResponse::MalformedRequest => (
                400u16,
                "invalid_request",
                "The request is malformed.",
            ),
            AuthorizePageErrorResponse::MissingClientId => (
                400u16,
                "invalid_request",
                "The client_id parameter is missing.",
            ),
            AuthorizePageErrorResponse::InvalidClientId => (
                400u16,
                "invalid_request",
                "The client_id parameter is invalid.",
            ),
            AuthorizePageErrorResponse::ClientNotFound => (
                400u16,
                "invalid_request",
                "The client_id parameter does not match any registered client.",
            ),
            AuthorizePageErrorResponse::MissingRequestUri => (
                400u16,
                "invalid_request",
                "The request_uri parameter is missing.",
            ),
            AuthorizePageErrorResponse::RequestNotFound => (
                400u16,
                "invalid_request",
                "The request_uri parameter does not match a pending authorization request, or it has expired.",
            ),
            AuthorizePageErrorResponse::ClientIdMismatch => (
                400u16,
                "invalid_request",
                "The client_id parameter does not match the client_id of the authorization request.",
            ),
            AuthorizePageErrorResponse::ServerError => (
                500u16,
                "server_error",
                "An unexpected error occurred while processing the request.",
            ),
        };
        (status_code, String::from_str(error), String::from_str(error_description))
    }
}

} // verus!
