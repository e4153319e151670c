use vstd::prelude::*;

use crate::application::authorization_code::push::{
    generate_request_uri, is_generated_request_uri,
};
use crate::domain::entity::authorization_request::{
    optional_text, AuthorizationRequest, AuthorizationRequestModel,
};
use crate::domain::entity::client::Client;
use crate::domain::logic::authorization_request_validation::{
    first_authorization_error, validate_authorization_request_against_client, AuthorizationError,
    FatalAuthorizationError, RedirectableAuthorizationError,
};
use crate::persistence::pars::SaveParError;
use crate::support::text::{split_whitespace, whitespace_tokens};

verus! {

/// Push errors that are shown to the user, not redirected.
#[derive(Debug, PartialEq, Eq, Clone, Copy)]
pub enum FatalAuthorizePushError {
    ClientNotFound,
    InvalidRedirectUri,
}

/// Push errors that may be reported to the client's redirect URI.
#[derive(Debug, PartialEq, Eq, Clone, Copy)]
pub enum RedirectableAuthorizePushError {
    InvalidResponseType,
    InvalidScope,
    InvalidState,
    InvalidCodeChallengeMethod,
    InvalidCodeChallenge,
    DatabaseError,
}

#[derive(Debug, PartialEq, Eq, Clone, Copy)]
pub enum AuthorizePushError {
    Fatal(FatalAuthorizePushError),
    Redirectable(RedirectableAuthorizePushError),
}

#[derive(Debug, PartialEq)]
pub struct AuthorizePushSuccess {
    pub request_uri: String,
    /// Seconds until the pushed request expires.
    pub expires_in: u64,
}

/// How long a pushed authorization request stays usable: three minutes.
pub const PAR_TTL_SECONDS: u64 = 180;

/// The push error that stands for a validation error other than a client id mismatch (which
/// cannot happen here: the client was looked up by the pushed client id).
pub open spec fn push_error_for(e: AuthorizationError) -> AuthorizePushError {
    match e {
        AuthorizationError::Fatal(FatalAuthorizationError::InvalidRedirectUri) => {
            AuthorizePushError::Fatal(FatalAuthorizePushError::InvalidRedirectUri)
        },
        AuthorizationError::Fatal(FatalAuthorizationError::ClientIdMismatch) => arbitrary(),
        AuthorizationError::Redirectable(r) => AuthorizePushError::Redirectable(
            match r {
                RedirectableAuthorizationError::InvalidResponseType => {
                    RedirectableAuthorizePushError::InvalidResponseType
                },
                RedirectableAuthorizationError::InvalidScope => {
                    RedirectableAuthorizePushError::InvalidScope
                },
                RedirectableAuthorizationError::InvalidState => {
                    RedirectableAuthorizePushError::InvalidState
                },
                RedirectableAuthorizationError::InvalidCodeChallengeMethod => {
                    RedirectableAuthorizePushError::InvalidCodeChallengeMethod
                },
                RedirectableAuthorizationError::InvalidCodeChallenge => {
                    RedirectableAuthorizePushError::InvalidCodeChallenge
                },
            },
        ),
    }
}

fn push_error_from(err: AuthorizationError) -> (r: AuthorizePushError)
    requires
        err != AuthorizationError::Fatal(FatalAuthorizationError::ClientIdMismatch),
    ensures
        r == push_error_for(err),
{
    match err {
        AuthorizationError::Fatal(fatal) => AuthorizePushError::Fatal(
            match fatal {
                FatalAuthorizationError::InvalidRedirectUri => {
                    FatalAuthorizePushError::InvalidRedirectUri
                },
                FatalAuthorizationError::ClientIdMismatch => vstd::pervasive::unreached(),
            },
        ),
        AuthorizationError::Redirectable(redirectable) => AuthorizePushError::Redirectable(
            match redirectable {
                RedirectableAuthorizationError::InvalidCodeChallenge => {
                    RedirectableAuthorizePushError::InvalidCodeChallenge
                },
                RedirectableAuthorizationError::InvalidCodeChallengeMethod => {
                    RedirectableAuthorizePushError::InvalidCodeChallengeMethod
                },
                RedirectableAuthorizationError::InvalidResponseType => {
                    RedirectableAuthorizePushError::InvalidResponseType
                },
                RedirectableAuthorizationError::InvalidScope => {
                    RedirectableAuthorizePushError::InvalidScope
                },
                RedirectableAuthorizationError::InvalidState => {
                    RedirectableAuthorizePushError::InvalidState
                },
            },
        ),
    }
}

/// The scopes of a pushed `scope` parameter: its whitespace-separated parts.
pub open spec fn pushed_scopes(scope: Option<Seq<char>>) -> Option<Seq<Seq<char>>> {
    match scope {
        Some(s) => Some(whitespace_tokens(s)),
        None => None,
    }
}

/// A validated pushed request, waiting to be stored under `request_uri` for `ttl_seconds`.
pub struct PendingPar {
    pub request_uri: String,
    pub request: AuthorizationRequest,
    pub ttl_seconds: u64,
}

/// First step of a push: given the client found for `client_id` (if any), validates the pushed
/// (possibly missing) parameters and, when they pass, picks a request URI to store them under.
pub fn begin_authorize_push(
    client_id: u128,
    redirect_uri: Option<String>,
    response_type: Option<String>,
    scope: Option<String>,
    state: Option<String>,
    code_challenge: Option<String>,
    code_challenge_method: Option<String>,
    client: Option<Client>,
) -> (r: Result<PendingPar, AuthorizePushError>)
    requires
        client matches Some(c) ==> c@.id == client_id,
    ensures
        client is None ==> r == Err::<PendingPar, AuthorizePushError>(
            AuthorizePushError::Fatal(FatalAuthorizePushError::ClientNotFound),
        ),
        client matches Some(c) ==> {
            let request = AuthorizationRequestModel {
                client_id,
                redirect_uri: optional_text(
                    redirect_uri,
                ),
                response_type: optional_text(
                    response_type,
                ),
                scopes: pushed_scopes(
                    optional_text(scope),
                ),
                state: optional_text(state),
                code_challenge: optional_text(
                    code_challenge,
                ),
                code_challenge_method: optional_text(
                    code_challenge_method,
                ),
            };
            &&& r is Err <==> first_authorization_error(request, c@) is Some
            &&& r matches Err(e) ==> first_authorization_error(request, c@) matches Some(f)
                && e == push_error_for(f)
            &&& r matches Ok(p) ==> {
                &&& p.request@ == request
                &&& p.ttl_seconds == PAR_TTL_SECONDS
                &&& is_generated_request_uri(p.request_uri@)
            }
        },
{
    let client = match client {
        Some(c) => c,
        None => {
            return Err(AuthorizePushError::Fatal(FatalAuthorizePushError::ClientNotFound));
        },
    };
    let scopes = match scope {
        Some(s) => Some(split_whitespace(s.as_str())),
        None => None,
    };
    let request = AuthorizationRequest::new(
        client_id,
        redirect_uri,
        response_type,
        scopes,
        state,
        code_challenge,
        code_challenge_method,
    );
    match validate_authorization_request_against_client(&request, &client) {
        Ok(()) => {},
        Err(err) => {
            return Err(push_error_from(err));
        },
    }
    let request_uri = generate_request_uri();
    Ok(PendingPar { request_uri, request, ttl_seconds: PAR_TTL_SECONDS })
}

/// Last step of a push: once the store has answered, reports the request URI and its lifetime,
/// or a (redirectable) storage failure.
pub fn finish_authorize_push(pending: PendingPar, saved: Result<(), SaveParError>) -> (r: Result<
    AuthorizePushSuccess,
    AuthorizePushError,
>)
    ensures
        saved is Ok ==> (r matches Ok(s) && s.request_uri@ == pending.request_uri@
            && s.expires_in == pending.ttl_seconds),
        saved is Err ==> r == Err::<AuthorizePushSuccess, AuthorizePushError>(
            AuthorizePushError::Redirectable(RedirectableAuthorizePushError::DatabaseError),
        ),
{
    match saved {
        Ok(()) => Ok(
            AuthorizePushSuccess {
                request_uri: pending.request_uri,
                expires_in: pending.ttl_seconds,
            },
        ),
        Err(_) => Err(AuthorizePushError::Redirectable(RedirectableAuthorizePushError::DatabaseError)),
    }
}

} // verus!
