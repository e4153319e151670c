use vstd::prelude::*;
use vstd::std_specs::convert::FromSpecImpl;

use crate::domain::entity::authorization_code::request::validate::{
    first_validation_error, law_redirectable_errors_go_to_registered_uris, FatalValidationError, RedirectableValidationError, ValidationError,
    ValidationErrorModel,
};
use crate::domain::entity::authorization_code::request::AuthorizationRequestModel;
use crate::domain::entity::client::ClientModel;

verus! {

/// Errors of the authorization-code flow that must be shown to the user, not redirected.
#[derive(Debug, PartialEq, Eq, Clone, Copy)]
pub enum FatalAuthCodeError {
    ClientNotFound,
    ClientIdMismatch,
    InvalidRedirectUri,
    InvalidState,
    DatabaseError,
    PushedRequestNotFound,
}

/// Errors of the authorization-code flow that are reported to the client's redirect URI.
#[derive(Debug, PartialEq, Eq, Clone, Copy)]
pub enum RedirectableAuthCodeError {
    InvalidResponseType,
    InvalidScope,
    InvalidCodeChallengeMethod,
    InvalidCodeChallenge,
    DatabaseError,
}

#[derive(Debug, PartialEq)]
pub enum AuthCodeError {
    Fatal { error: FatalAuthCodeError },
    Redirectable { error: RedirectableAuthCodeError, redirect_uri: String, state: String },
}

/// What an [`AuthCodeError`] holds, as plain values.
pub enum AuthCodeErrorModel {
    Fatal { error: FatalAuthCodeError },
    Redirectable { error: RedirectableAuthCodeError, redirect_uri: Seq<char>, state: Seq<char> },
}

impl View for AuthCodeError {
    type V = AuthCodeErrorModel;

    open spec fn view(&self) -> AuthCodeErrorModel {
        match self {
            AuthCodeError::Fatal { error } => AuthCodeErrorModel::Fatal { error: *error },
            AuthCodeError::Redirectable { error, redirect_uri, state } => {
                AuthCodeErrorModel::Redirectable {
                    error: *error,
                    redirect_uri: redirect_uri@,
                    state: state@,
                }
            },
        }
    }
}

impl AuthCodeError {
    pub fn fatal(error: FatalAuthCodeError) -> (e: Self)
        ensures
            e == (AuthCodeError::Fatal { error }),
    {
        AuthCodeError::Fatal { error }
    }

    pub fn redirectable(
        error: RedirectableAuthCodeError,
        redirect_uri: String,
        state: String,
    ) -> (e: Self)
        ensures
            e == (AuthCodeError::Redirectable { error, redirect_uri, state }),
    {
        AuthCodeError::Redirectable { error, redirect_uri, state }
    }
}

/// The flow error that stands for a fatal validation error: the variant of the same name.
pub open spec fn fatal_auth_code_error(error: FatalValidationError) -> FatalAuthCodeError {
    match error {
        FatalValidationError::ClientIdMismatch => FatalAuthCodeError::ClientIdMismatch,
        FatalValidationError::InvalidRedirectUri => FatalAuthCodeError::InvalidRedirectUri,
        FatalValidationError::InvalidState => FatalAuthCodeError::InvalidState,
    }
}

/// The flow error that stands for a redirectable validation error: the variant of the same name.
pub open spec fn redirectable_auth_code_error(
    error: RedirectableValidationError,
) -> RedirectableAuthCodeError {
    match error {
        RedirectableValidationError::InvalidResponseType => {
            RedirectableAuthCodeError::InvalidResponseType
        },
        RedirectableValidationError::InvalidScope => RedirectableAuthCodeError::InvalidScope,
        RedirectableValidationError::InvalidCodeChallengeMethod => {
            RedirectableAuthCodeError::InvalidCodeChallengeMethod
        },
        RedirectableValidationError::InvalidCodeChallenge => {
            RedirectableAuthCodeError::InvalidCodeChallenge
        },
    }
}

/// The flow error that a validation error becomes: same class, same kind, and for a redirectable
/// error the same redirect URI and state.
pub open spec fn auth_code_error_from(e: ValidationError) -> AuthCodeError {
    match e {
        ValidationError::Fatal { error } => AuthCodeError::Fatal {
            error: fatal_auth_code_error(error),
        },
        ValidationError::Redirectable { error, redirect_uri, state } => {
            AuthCodeError::Redirectable {
                error: redirectable_auth_code_error(error),
                redirect_uri,
                state,
            }
        },
    }
}

/// [`auth_code_error_from`] on plain values.
pub open spec fn auth_code_error_model(e: ValidationErrorModel) -> AuthCodeErrorModel {
    match e {
        ValidationErrorModel::Fatal { error } => AuthCodeErrorModel::Fatal {
            error: fatal_auth_code_error(error),
        },
        ValidationErrorModel::Redirectable { error, redirect_uri, state } => {
            AuthCodeErrorModel::Redirectable {
                error: redirectable_auth_code_error(error),
                redirect_uri,
                state,
            }
        },
    }
}

/// The error that the flow refuses `request` with, given the client that was looked up for it:
/// `ClientNotFound` without a client, else the first validation failure; `None` when it passes.
pub open spec fn flow_refusal(
    request: AuthorizationRequestModel,
    client: Option<ClientModel>,
) -> Option<AuthCodeErrorModel> {
    match client {
        None => Some(AuthCodeErrorModel::Fatal { error: FatalAuthCodeError::ClientNotFound }),
        Some(c) => match first_validation_error(request, c) {
            Some(e) => Some(auth_code_error_model(e)),
            None => None,
        },
    }
}

/// The flow never reports an error to a redirect URI that is not registered for the client: a
/// redirectable refusal needs a client, whose id the request names and whose registered redirect
/// URIs include the request's, and it carries that URI and the request's non-empty state.
pub proof fn law_flow_redirects_only_to_registered_uris(
    request: AuthorizationRequestModel,
    client: Option<ClientModel>,
)
    ensures
        flow_refusal(request, client) matches Some(
            AuthCodeErrorModel::Redirectable { redirect_uri, state, .. },
        ) ==> {
            &&& client matches Some(c) && c.id == request.client_id
                && c.redirect_uris.contains(redirect_uri)
            &&& redirect_uri == request.redirect_uri
            &&& state == request.state
            &&& state.len() > 0
        },
{
    if let Some(c) = client {
        law_redirectable_errors_go_to_registered_uris(request, c);
    }
}

/// Converting a validation error keeps its class, and for a redirectable error its redirect URI
/// and state.
pub proof fn law_conversion_keeps_class_and_target(e: ValidationError)
    ensures
        e is Fatal <==> auth_code_error_from(e) is Fatal,
        e matches ValidationError::Redirectable { redirect_uri, state, .. } ==> (auth_code_error_from(
            e,
        ) matches AuthCodeError::Redirectable { redirect_uri: r, state: s, .. } && r == redirect_uri
            && s == state),
        auth_code_error_from(e)@ == auth_code_error_model(e@),
{
}

impl From<ValidationError> for AuthCodeError {
    fn from(validation_error: ValidationError) -> (e: Self) {
        match validation_error {
            ValidationError::Fatal { error } => AuthCodeError::Fatal {
                error: match error {
                    FatalValidationError::ClientIdMismatch => FatalAuthCodeError::ClientIdMismatch,
                    FatalValidationError::InvalidRedirectUri => {
                        FatalAuthCodeError::InvalidRedirectUri
                    },
                    FatalValidationError::InvalidState => FatalAuthCodeError::InvalidState,
                },
            },
            ValidationError::Redirectable { error, redirect_uri, state } => {
                AuthCodeError::Redirectable {
                    error: match error {
                        RedirectableValidationError::InvalidResponseType => {
                            RedirectableAuthCodeError::InvalidResponseType
                        },
                        RedirectableValidationError::InvalidScope => {
                            RedirectableAuthCodeError::InvalidScope
                        },
                        RedirectableValidationError::InvalidCodeChallengeMethod => {
                            RedirectableAuthCodeError::InvalidCodeChallengeMethod
                        },
                        RedirectableValidationError::InvalidCodeChallenge => {
                            RedirectableAuthCodeError::InvalidCodeChallenge
                        },
                    },
                    redirect_uri,
                    state,
                }
            },
        }
    }
}

impl FromSpecImpl<ValidationError> for AuthCodeError {
    open spec fn obeys_from_spec() -> bool {
        true
    }

    open spec fn from_spec(v: ValidationError) -> AuthCodeError {
        auth_code_error_from(v)
    }
}

} // verus!
