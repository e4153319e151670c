use vstd::prelude::*;
use vstd::std_specs::convert::FromSpecImpl;

use crate::application::authorization_code::error::{
    AuthCodeError, FatalAuthCodeError, RedirectableAuthCodeError,
};
use crate::support::ids::{parse_uuid, uuid_from_text};
use crate::web::authorize::push::error_response::AuthorizePushErrorResponse;

pub mod error_response;
pub mod request;
pub mod response;

verus! {

/// Reads the pushed client id; a text that is not a UUID is refused.
pub fn parse_push_client_id(client_id: &str) -> (r: Result<u128, AuthorizePushErrorResponse>)
    ensures
        uuid_from_text(client_id@) is None ==> r == Err::<u128, _>(
            AuthorizePushErrorResponse::InvalidClientId,
        ),
        uuid_from_text(client_id@) matches Some(id) ==> r == Ok::<_, AuthorizePushErrorResponse>(
            id,
        ),
{
    match parse_uuid(client_id) {
        Some(id) => Ok(id),
        None => Err(AuthorizePushErrorResponse::InvalidClientId),
    }
}

/// The JSON error that a push failure is answered with. A pushed request that was not found
/// cannot occur in a push; it is answered as a database error.
pub open spec fn push_error_response_for(err: AuthCodeError) -> AuthorizePushErrorResponse {
    match err {
        AuthCodeError::Fatal { error } => match error {
            FatalAuthCodeError::ClientNotFound => AuthorizePushErrorResponse::ClientNotFound,
            FatalAuthCodeError::DatabaseError => AuthorizePushErrorResponse::DatabaseError,
            FatalAuthCodeError::PushedRequestNotFound => AuthorizePushErrorResponse::DatabaseError,
            FatalAuthCodeError::ClientIdMismatch => AuthorizePushErrorResponse::InternalServerError,
            FatalAuthCodeError::InvalidRedirectUri => AuthorizePushErrorResponse::InvalidRedirectUri,
            FatalAuthCodeError::InvalidState => AuthorizePushErrorResponse::InvalidState,
        },
        AuthCodeError::Redirectable { error, .. } => match error {
            RedirectableAuthCodeError::InvalidResponseType => {
                AuthorizePushErrorResponse::InvalidResponseType
            },
            RedirectableAuthCodeError::InvalidScope => AuthorizePushErrorResponse::InvalidScope,
            RedirectableAuthCodeError::InvalidCodeChallengeMethod => {
                AuthorizePushErrorResponse::InvalidCodeChallengeMethod
            },
            RedirectableAuthCodeError::InvalidCodeChallenge => {
                AuthorizePushErrorResponse::InvalidCodeChallenge
            },
            RedirectableAuthCodeError::DatabaseError => AuthorizePushErrorResponse::DatabaseError,
        },
    }
}

/// Each push answer names the failure it comes from: an unknown client, an unregistered redirect
/// URI, an empty state and each rejected request parameter get their own answer, every storage
/// failure is a database error, and only the (unreachable) client id mismatch is an internal error.
pub proof fn law_push_errors_name_their_failure(err: AuthCodeError)
    ensures
        push_error_response_for(err) == AuthorizePushErrorResponse::ClientNotFound <==> err
            == (AuthCodeError::Fatal { error: FatalAuthCodeError::ClientNotFound }),
        push_error_response_for(err) == AuthorizePushErrorResponse::InvalidRedirectUri <==> err
            == (AuthCodeError::Fatal { error: FatalAuthCodeError::InvalidRedirectUri }),
        push_error_response_for(err) == AuthorizePushErrorResponse::InvalidState <==> err
            == (AuthCodeError::Fatal { error: FatalAuthCodeError::InvalidState }),
        push_error_response_for(err) == AuthorizePushErrorResponse::InternalServerError <==> err
            == (AuthCodeError::Fatal { error: FatalAuthCodeError::ClientIdMismatch }),
        push_error_response_for(err) == AuthorizePushErrorResponse::InvalidResponseType <==> (err
            matches AuthCodeError::Redirectable { error, .. } && error
            == RedirectableAuthCodeError::InvalidResponseType),
        push_error_response_for(err) == AuthorizePushErrorResponse::InvalidScope <==> (err matches AuthCodeError::Redirectable { error, .. } && error
            == RedirectableAuthCodeError::InvalidScope),
        push_error_response_for(err) == AuthorizePushErrorResponse::InvalidCodeChallengeMethod
            <==> (err matches AuthCodeError::Redirectable { error, .. } && error
            == RedirectableAuthCodeError::InvalidCodeChallengeMethod),
        push_error_response_for(err) == AuthorizePushErrorResponse::InvalidCodeChallenge <==> (err
            matches AuthCodeError::Redirectable { error, .. } && error
            == RedirectableAuthCodeError::InvalidCodeChallenge),
        push_error_response_for(err) == AuthorizePushErrorResponse::DatabaseError <==> {
            ||| err == (AuthCodeError::Fatal { error: FatalAuthCodeError::DatabaseError })
            ||| err == (AuthCodeError::Fatal { error: FatalAuthCodeError::PushedRequestNotFound })
            ||| (err matches AuthCodeError::Redirectable { error, .. } && error
                == RedirectableAuthCodeError::DatabaseError)
        },
        push_error_response_for(err) != AuthorizePushErrorResponse::InvalidRequestBody,
        push_error_response_for(err) != AuthorizePushErrorResponse::InvalidClientId,
{
}

impl From<AuthCodeError> for AuthorizePushErrorResponse {
    fn from(err: AuthCodeError) -> (r: Self) {
        match err {
            AuthCodeError::Fatal { error } => match error {
                FatalAuthCodeError::ClientNotFound => AuthorizePushErrorResponse::ClientNotFound,
                FatalAuthCodeError::DatabaseError => AuthorizePushErrorResponse::DatabaseError,
                FatalAuthCodeError::PushedRequestNotFound => {
                    AuthorizePushErrorResponse::DatabaseError
                },
                FatalAuthCodeError::ClientIdMismatch => {
                    AuthorizePushErrorResponse::InternalServerError
                },
                FatalAuthCodeError::InvalidRedirectUri => {
                    AuthorizePushErrorResponse::InvalidRedirectUri
                },
                FatalAuthCodeError::InvalidState => AuthorizePushErrorResponse::InvalidState,
            },
            AuthCodeError::Redirectable { error, .. } => match error {
                RedirectableAuthCodeError::InvalidResponseType => {
                    AuthorizePushErrorResponse::InvalidResponseType
                },
                RedirectableAuthCodeError::InvalidScope => AuthorizePushErrorResponse::InvalidScope,
                RedirectableAuthCodeError::InvalidCodeChallengeMethod => {
                    AuthorizePushErrorResponse::InvalidCodeChallengeMethod
                },
                RedirectableAuthCodeError::InvalidCodeChallenge => {
                    AuthorizePushErrorResponse::InvalidCodeChallenge
                },
                RedirectableAuthCodeError::DatabaseError => {
                    AuthorizePushErrorResponse::DatabaseError
                },
            },
        }
    }
}

impl FromSpecImpl<AuthCodeError> for AuthorizePushErrorResponse {
    open spec fn obeys_from_spec() -> bool {
        true
    }

    open spec fn from_spec(v: AuthCodeError) -> AuthorizePushErrorResponse {
        push_error_response_for(v)
    }
}

} // verus!
