use vstd::prelude::*;
use vstd::std_specs::convert::FromSpecImpl;

use crate::application::authorization_code::error::{
    AuthCodeError, FatalAuthCodeError, RedirectableAuthCodeError,
};
use crate::support::urls::{pair_views, parse_with_params, url_with_query};

verus! {

/// Confirmation errors that are reported back to the client's redirect URI.
#[derive(Debug, PartialEq, Eq, Clone, Copy)]
pub enum AuthorizeSubmitRedirectErrorResponse {
    InvalidCodeChallenge,
    UnsupportedResponseType,
    InvalidScope,
    ServerError,
}

/// Confirmation errors that are shown to the user as a page.
#[derive(Debug, PartialEq, Eq, Clone, Copy)]
pub enum AuthorizeSubmitPageErrorResponse {
    MalformedRequest,
    ClientNotFound,
    ClientIdMismatch,
    InvalidRedirectUri,
    InvalidState,
    RequestNotFound,
    ServerError,
}

#[derive(Debug, PartialEq)]
pub enum AuthorizeSubmitErrorResponse {
    Redirect { error: AuthorizeSubmitRedirectErrorResponse, redirect_uri: String, state: String },
    Page { error: AuthorizeSubmitPageErrorResponse },
}

/// How an answer of the confirmation endpoint is sent: an HTML page with a status, error code and
/// description, or a redirect (302) to a location.
#[derive(Debug, PartialEq)]
pub enum SubmitReply {
    Page { status_code: u16, error: String, error_description: String },
    Redirect { location: String },
}

/// The page error that a fatal flow error is shown as.
pub open spec fn submit_page_error_for(error: FatalAuthCodeError) -> AuthorizeSubmitPageErrorResponse {
    match error {
        FatalAuthCodeError::ClientNotFound => AuthorizeSubmitPageErrorResponse::ClientNotFound,
        FatalAuthCodeError::ClientIdMismatch => AuthorizeSubmitPageErrorResponse::ClientIdMismatch,
        FatalAuthCodeError::InvalidRedirectUri => {
            AuthorizeSubmitPageErrorResponse::InvalidRedirectUri
        },
        FatalAuthCodeError::InvalidState => AuthorizeSubmitPageErrorResponse::InvalidState,
        FatalAuthCodeError::PushedRequestNotFound => {
            AuthorizeSubmitPageErrorResponse::RequestNotFound
        },
        FatalAuthCodeError::DatabaseError => AuthorizeSubmitPageErrorResponse::ServerError,
    }
}

/// The redirect error that a redirectable flow error is reported as.
pub open spec fn submit_redirect_error_for(
    error: RedirectableAuthCodeError,
) -> AuthorizeSubmitRedirectErrorResponse {
    match error {
        RedirectableAuthCodeError::InvalidResponseType => {
            AuthorizeSubmitRedirectErrorResponse::UnsupportedResponseType
        },
        RedirectableAuthCodeError::InvalidScope => AuthorizeSubmitRedirectErrorResponse::InvalidScope,
        RedirectableAuthCodeError::InvalidCodeChallengeMethod => {
            AuthorizeSubmitRedirectErrorResponse::InvalidCodeChallenge
        },
        RedirectableAuthCodeError::InvalidCodeChallenge => {
            AuthorizeSubmitRedirectErrorResponse::InvalidCodeChallenge
        },
        RedirectableAuthCodeError::DatabaseError => AuthorizeSubmitRedirectErrorResponse::ServerError,
    }
}

/// The answer that a flow error becomes: fatal errors are pages, redirectable errors go to the
/// redirect URI with the state.
pub open spec fn submit_error_response_for(error: AuthCodeError) -> AuthorizeSubmitErrorResponse {
    match error {
        AuthCodeError::Fatal { error } => AuthorizeSubmitErrorResponse::Page {
            error: submit_page_error_for(error),
        },
        AuthCodeError::Redirectable { error, redirect_uri, state } => {
            AuthorizeSubmitErrorResponse::Redirect {
                error: submit_redirect_error_for(error),
                redirect_uri,
                state,
            }
        },
    }
}

/// A flow error is redirected exactly when it is redirectable, to its redirect URI with its
/// state; every other error is shown as a page.
pub proof fn law_only_redirectable_errors_are_redirected(error: AuthCodeError)
    ensures
        submit_error_response_for(error) is Redirect <==> error is Redirectable,
        error matches AuthCodeError::Redirectable { redirect_uri, state, .. } ==> (
        submit_error_response_for(error) matches AuthorizeSubmitErrorResponse::Redirect {
            redirect_uri: r,
            state: s,
            ..
        } && r == redirect_uri && s == state),
{
}

impl From<AuthCodeError> for AuthorizeSubmitErrorResponse {
    fn from(error: AuthCodeError) -> (r: Self) {
        match error {
            AuthCodeError::Fatal { error } => AuthorizeSubmitErrorResponse::Page {
                error: match error {
                    FatalAuthCodeError::ClientNotFound => {
                        AuthorizeSubmitPageErrorResponse::ClientNotFound
                    },
                    FatalAuthCodeError::ClientIdMismatch => {
                        AuthorizeSubmitPageErrorResponse::ClientIdMismatch
                    },
                    FatalAuthCodeError::InvalidRedirectUri => {
                        AuthorizeSubmitPageErrorResponse::InvalidRedirectUri
                    },
                    FatalAuthCodeError::InvalidState => {
                        AuthorizeSubmitPageErrorResponse::InvalidState
                    },
                    FatalAuthCodeError::PushedRequestNotFound => {
                        AuthorizeSubmitPageErrorResponse::RequestNotFound
                    },
                    FatalAuthCodeError::DatabaseError => {
                        AuthorizeSubmitPageErrorResponse::ServerError
                    },
                },
            },
            AuthCodeError::Redirectable { error, redirect_uri, state } => {
                AuthorizeSubmitErrorResponse::Redirect {
                    error: match error {
                        RedirectableAuthCodeError::InvalidResponseType => {
                            AuthorizeSubmitRedirectErrorResponse::UnsupportedResponseType
                        },
                        RedirectableAuthCodeError::InvalidScope => {
                            AuthorizeSubmitRedirectErrorResponse::InvalidScope
                        },
                        RedirectableAuthCodeError::InvalidCodeChallengeMethod
                        | RedirectableAuthCodeError::InvalidCodeChallenge => {
                            AuthorizeSubmitRedirectErrorResponse::InvalidCodeChallenge
                        },
                        RedirectableAuthCodeError::DatabaseError => {
                            AuthorizeSubmitRedirectErrorResponse::ServerError
                        },
                    },
                    redirect_uri,
                    state,
                }
            },
        }
    }
}

impl FromSpecImpl<AuthCodeError> for AuthorizeSubmitErrorResponse {
    open spec fn obeys_from_spec() -> bool {
        true
    }

    open spec fn from_spec(v: AuthCodeError) -> AuthorizeSubmitErrorResponse {
        submit_error_response_for(v)
    }
}

/// The HTTP status, error code and description of the error page shown for `e`.
pub open spec fn submit_page_content(e: AuthorizeSubmitPageErrorResponse) -> (
    u16,
    Seq<char>,
    Seq<char>,
) {
    match e {
        AuthorizeSubmitPageErrorResponse::MalformedRequest => (
            400,
            "invalid_request"@,
            "The request is malformed."@,
        ),
        AuthorizeSubmitPageErrorResponse::ClientNotFound => (
            400,
            "invalid_request"@,
            "The client_id parameter does not match any registered client."@,
        ),
        AuthorizeSubmitPageErrorResponse::ClientIdMismatch => (
            400,
            "invalid_request"@,
            "The client_id parameter does not match the client_id of the authorization request."@,
        ),
        AuthorizeSubmitPageErrorResponse::InvalidRedirectUri => (
            400,
            "invalid_request"@,
            "The redirect_uri of the authorization request is not registered for the client."@,
        ),
        AuthorizeSubmitPageErrorResponse::InvalidState => (
            400,
            "invalid_request"@,
            "The state of the authorization request is invalid."@,
        ),
        AuthorizeSubmitPageErrorResponse::RequestNotFound => (
            400,
            "invalid_request"@,
            "The request_uri parameter does not match a pending authorization request, or it has expired."@,
        ),
        AuthorizeSubmitPageErrorResponse::ServerError => (
            500,
            "server_error"@,
            "An unexpected error occurred while processing the request."@,
        ),
    }
}

/// The page reply that shows `e`.
pub open spec fn submit_page_reply(e: AuthorizeSubmitPageErrorResponse, reply: SubmitReply) -> bool {
    reply matches SubmitReply::Page { status_code, error, error_description } && (
    status_code,
    error@,
    error_description@,
    ) == submit_page_content(e)
}

impl AuthorizeSubmitPageErrorResponse {
    /// The page reply that shows this error.
    pub fn reply(&self) -> (r: SubmitReply)
        ensures
            submit_page_reply(*self, r),
    {
        let (status_code, error, error_description) = match self {
            AuthorizeSubmitPageErrorResponse::MalformedRequest => (
                400u16,
                "invalid_request",
                "The request is malformed.",
            ),
            AuthorizeSubmitPageErrorResponse::ClientNotFound => (
                400u16,
                "invalid_request",
                "The client_id parameter does not match any registered client.",
            ),
            AuthorizeSubmitPageErrorResponse::ClientIdMismatch => (
                400u16,
                "invalid_request",
                "The client_id parameter does not match the client_id of the authorization request.",
            ),
            AuthorizeSubmitPageErrorResponse::InvalidRedirectUri => (
                400u16,
                "invalid_request",
                "The redirect_uri of the authorization request is not registered for the client.",
            ),
            AuthorizeSubmitPageErrorResponse::InvalidState => (
                400u16,
                "invalid_request",
                "The state of the authorization request is invalid.",
            ),
            AuthorizeSubmitPageErrorResponse::RequestNotFound => (
                400u16,
                "invalid_request",
                "The request_uri parameter does not match a pending authorization request, or it has expired.",
            ),
            AuthorizeSubmitPageErrorResponse::ServerError => (
                500u16,
                "server_error",
                "An unexpected error occurred while processing the request.",
            ),
        };
        SubmitReply::Page {
            status_code,
            error: String::from_str(error),
            error_description: String::from_str(error_description),
        }
    }
}

/// The OAuth error code reported to the client for `e`.
pub open spec fn redirect_error_code(e: AuthorizeSubmitRedirectErrorResponse) -> Seq<char> {
    match e {
        AuthorizeSubmitRedirectErrorResponse::InvalidCodeChallenge => "invalid_request"@,
        AuthorizeSubmitRedirectErrorResponse::UnsupportedResponseType => "invalid_request"@,
        AuthorizeSubmitRedirectErrorResponse::InvalidScope => "invalid_scope"@,
        AuthorizeSubmitRedirectErrorResponse::ServerError => "server_error"@,
    }
}

/// The error description reported to the client for `e`.
pub open spec fn redirect_error_description(e: AuthorizeSubmitRedirectErrorResponse) -> Seq<char> {
    match e {
        AuthorizeSubmitRedirectErrorResponse::InvalidCodeChallenge => {
            "The code challenge is invalid."@
        },
        AuthorizeSubmitRedirectErrorResponse::UnsupportedResponseType => {
            "The response type is unsupported."@
        },
        AuthorizeSubmitRedirectErrorResponse::InvalidScope => "The scope is invalid."@,
        AuthorizeSubmitRedirectErrorResponse::ServerError => "A unexpected error occured."@,
    }
}

impl AuthorizeSubmitRedirectErrorResponse {
    /// The OAuth error code reported to the client.
    pub fn code(&self) -> (r: &'static str)
        ensures
            r@ == redirect_error_code(*self),
    {
        match self {
            AuthorizeSubmitRedirectErrorResponse::InvalidCodeChallenge => "invalid_request",
            AuthorizeSubmitRedirectErrorResponse::UnsupportedResponseType => "invalid_request",
            AuthorizeSubmitRedirectErrorResponse::InvalidScope => "invalid_scope",
            AuthorizeSubmitRedirectErrorResponse::ServerError => "server_error",
        }
    }

    /// The error description reported to the client.
    pub fn description(&self) -> (r: &'static str)
        ensures
            r@ == redirect_error_description(*self),
    {
        match self {
            AuthorizeSubmitRedirectErrorResponse::InvalidCodeChallenge => {
                "The code challenge is invalid."
            },
            AuthorizeSubmitRedirectErrorResponse::UnsupportedResponseType => {
                "The response type is unsupported."
            },
            AuthorizeSubmitRedirectErrorResponse::InvalidScope => "The scope is invalid.",
            AuthorizeSubmitRedirectErrorResponse::ServerError => "A unexpected error occured.",
        }
    }
}

/// The query pairs that report `error` with `state` to the client.
pub open spec fn redirect_error_params(
    error: AuthorizeSubmitRedirectErrorResponse,
    state: Seq<char>,
) -> Seq<(Seq<char>, Seq<char>)> {
    seq![
        ("error"@, redirect_error_code(error)),
        ("error_description"@, redirect_error_description(error)),
        ("state"@, state),
    ]
}

/// The reply that `response` is sent as: a page shows a page error; a redirect goes to the
/// redirect URI with `error`, `error_description` and `state` appended to its query, or, where
/// the redirect URI does not parse as a URL, becomes the server-error page.
pub open spec fn submit_error_reply(response: AuthorizeSubmitErrorResponse, reply: SubmitReply) -> bool {
    match response {
        AuthorizeSubmitErrorResponse::Page { error } => submit_page_reply(error, reply),
        AuthorizeSubmitErrorResponse::Redirect { error, redirect_uri, state } => {
            match url_with_query(redirect_uri@, redirect_error_params(error, state@)) {
                Some(location) => reply matches SubmitReply::Redirect { location: l } && l@
                    == location,
                None => submit_page_reply(AuthorizeSubmitPageErrorResponse::ServerError, reply),
            }
        },
    }
}

impl AuthorizeSubmitErrorResponse {
    /// How this error is sent.
    pub fn reply(self) -> (r: SubmitReply)
        ensures
            submit_error_reply(self, r),
    {
        match self {
            AuthorizeSubmitErrorResponse::Page { error } => error.reply(),
            AuthorizeSubmitErrorResponse::Redirect { error, redirect_uri, state } => {
                let mut params: Vec<(String, String)> = Vec::new();
                params.push((String::from_str("error"), String::from_str(error.code())));
                params.push(
                    (String::from_str("error_description"), String::from_str(error.description())),
                );
                params.push((String::from_str("state"), state));
                assert(pair_views(params@) =~= redirect_error_params(error, state@));
                match parse_with_params(redirect_uri.as_str(), &params) {
                    Some(location) => SubmitReply::Redirect { location },
                    None => AuthorizeSubmitPageErrorResponse::ServerError.reply(),
                }
            },
        }
    }
}

} // verus!
