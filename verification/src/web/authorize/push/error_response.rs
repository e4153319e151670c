use vstd::prelude::*;

verus! {

/// The JSON errors of the pushed authorization request endpoint.
#[derive(Debug, PartialEq, Eq, Clone, Copy)]
pub enum AuthorizePushErrorResponse {
    InvalidRequestBody,
    InvalidClientId,
    ClientNotFound,
    InvalidRedirectUri,
    InvalidResponseType,
    InvalidScope,
    InvalidState,
    InvalidCodeChallengeMethod,
    InvalidCodeChallenge,
    DatabaseError,
    InternalServerError,
}

/// The HTTP status, error code and description that `e` is answered with.
pub open spec fn push_error_content(e: AuthorizePushErrorResponse) -> (u16, Seq<char>, Seq<char>) {
    match e {
        AuthorizePushErrorResponse::InvalidRequestBody => (
            400,
            "invalid_request"@,
            "Invalid request body."@,
        ),
        AuthorizePushErrorResponse::InvalidClientId => (
            400,
            "invalid_client_id"@,
            "The client_id parameter is missing or invalid."@,
        ),
        AuthorizePushErrorResponse::ClientNotFound => (
            404,
            "client_not_found"@,
            "The client was not found."@,
        ),
        AuthorizePushErrorResponse::InvalidRedirectUri => (
            400,
            "invalid_redirect_uri"@,
            "The redirect_uri parameter is missing or invalid."@,
        ),
        AuthorizePushErrorResponse::InvalidResponseType => (
            400,
            "invalid_response_type"@,
            "The response_type parameter is missing or invalid."@,
        ),
        AuthorizePushErrorResponse::InvalidScope => (
            400,
            "invalid_scope"@,
            "The scope parameter is missing or invalid."@,
        ),
        AuthorizePushErrorResponse::InvalidState => (
            400,
            "invalid_state"@,
            "The state parameter is missing or invalid."@,
        ),
        AuthorizePushErrorResponse::InvalidCodeChallengeMethod => (
            400,
            "invalid_code_challenge_method"@,
            "The code_challenge_method parameter is missing or invalid."@,
        ),
        AuthorizePushErrorResponse::InvalidCodeChallenge => (
            400,
            "invalid_code_challenge"@,
            "The code_challenge parameter is missing or invalid."@,
        ),
        AuthorizePushErrorResponse::DatabaseError => (
            500,
            "database_error"@,
            "A database error occurred."@,
        ),
        AuthorizePushErrorResponse::InternalServerError => (
            500,
            "internal_server_error"@,
            "An internal server error occurred."@,
        ),
    }
}

impl AuthorizePushErrorResponse {
    /// The HTTP status, error code and description that this error is answered with.
    pub fn content(&self) -> (r: (u16, String, String))
        ensures
            (r.0, r.1@, r.2@) == push_error_content(*self),
    {
        let (status_code, error, description) = match self {
            AuthorizePushErrorResponse::InvalidRequestBody => (
                400u16,
                "invalid_request",
                "Invalid request body.",
            ),
            AuthorizePushErrorResponse::InvalidClientId => (
                400u16,
                "invalid_client_id",
                "The client_id parameter is missing or invalid.",
            ),
            AuthorizePushErrorResponse::ClientNotFound => (
                404u16,
                "client_not_found",
                "The client was not found.",
            ),
            AuthorizePushErrorResponse::InvalidRedirectUri => (
                400u16,
                "invalid_redirect_uri",
                "The redirect_uri parameter is missing or invalid.",
            ),
            AuthorizePushErrorResponse::InvalidResponseType => (
                400u16,
                "invalid_response_type",
                "The response_type parameter is missing or invalid.",
            ),
            AuthorizePushErrorResponse::InvalidScope => (
                400u16,
                "invalid_scope",
                "The scope parameter is missing or invalid.",
            ),
            AuthorizePushErrorResponse::InvalidState => (
                400u16,
                "invalid_state",
                "The state parameter is missing or invalid.",
            ),
            AuthorizePushErrorResponse::InvalidCodeChallengeMethod => (
                400u16,
                "invalid_code_challenge_method",
                "The code_challenge_method parameter is missing or invalid.",
            ),
            AuthorizePushErrorResponse::InvalidCodeChallenge => (
                400u16,
                "invalid_code_challenge",
                "The code_challenge parameter is missing or invalid.",
            ),
            AuthorizePushErrorResponse::DatabaseError => (
                500u16,
                "database_error",
                "A database error occurred.",
            ),
            AuthorizePushErrorResponse::InternalServerError => (
                500u16,
                "internal_server_error",
                "An internal server error occurred.",
            ),
        };
        (status_code, String::from_str(error), String::from_str(description))
    }
}

} // verus!
