use vstd::prelude::*;

use crate::domain::entity::authorization_code::request::{
    AuthorizationRequest, AuthorizationRequestModel,
};
use crate::domain::entity::client::{allows_scopes, Client, ClientModel};
use crate::support::text::{str_equals, whitespace_tokens};

verus! {

/// The parts of an authorization request that survive validation.
pub struct ValidatedAuthorizationRequest {
    pub client_id: u128,
    pub redirect_uri: String,
    pub scope: String,
    pub state: String,
    pub code_challenge: String,
    pub code_challenge_method: String,
}

/// Errors that must not be reported to the client's redirect URI.
#[derive(Debug, PartialEq, Eq, Clone, Copy)]
pub enum FatalValidationError {
    ClientIdMismatch,
    InvalidRedirectUri,
    InvalidState,
}

/// Errors that may be reported to the client's (already verified) redirect URI.
#[derive(Debug, PartialEq, Eq, Clone, Copy)]
pub enum RedirectableValidationError {
    InvalidResponseType,
    InvalidScope,
    InvalidCodeChallengeMethod,
    InvalidCodeChallenge,
}

#[derive(Debug, PartialEq)]
pub enum ValidationError {
    Fatal { error: FatalValidationError },
    Redirectable { error: RedirectableValidationError, redirect_uri: String, state: String },
}

/// What a [`ValidationError`] holds, as plain values.
pub enum ValidationErrorModel {
    Fatal { error: FatalValidationError },
    Redirectable {
        error: RedirectableValidationError,
        redirect_uri: Seq<char>,
        state: Seq<char>,
    },
}

impl View for ValidationError {
    type V = ValidationErrorModel;

    open spec fn view(&self) -> ValidationErrorModel {
        match self {
            ValidationError::Fatal { error } => ValidationErrorModel::Fatal { error: *error },
            ValidationError::Redirectable { error, redirect_uri, state } => {
                ValidationErrorModel::Redirectable {
                    error: *error,
                    redirect_uri: redirect_uri@,
                    state: state@,
                }
            },
        }
    }
}

impl ValidationError {
    pub fn fatal(error: FatalValidationError) -> (e: Self)
        ensures
            e == (ValidationError::Fatal { error }),
    {
        ValidationError::Fatal { error }
    }

    pub fn redirectable(
        error: RedirectableValidationError,
        redirect_uri: String,
        state: String,
    ) -> (e: Self)
        ensures
            e == (ValidationError::Redirectable { error, redirect_uri, state }),
    {
        ValidationError::Redirectable { error, redirect_uri, state }
    }
}

/// A redirectable error for `request`, carrying its redirect URI and state.
pub open spec fn redirect_error(
    request: AuthorizationRequestModel,
    error: RedirectableValidationError,
) -> ValidationErrorModel {
    ValidationErrorModel::Redirectable {
        error,
        redirect_uri: request.redirect_uri,
        state: request.state,
    }
}

/// The first check, in the order the server applies them, that `request` fails against `client`;
/// `None` when the request is valid for the client.
pub open spec fn first_validation_error(
    request: AuthorizationRequestModel,
    client: ClientModel,
) -> Option<ValidationErrorModel> {
    if request.client_id != client.id {
        Some(ValidationErrorModel::Fatal { error: FatalValidationError::ClientIdMismatch })
    } else if !client.redirect_uris.contains(request.redirect_uri) {
        Some(ValidationErrorModel::Fatal { error: FatalValidationError::InvalidRedirectUri })
    } else if request.state.len() == 0 {
        Some(ValidationErrorModel::Fatal { error: FatalValidationError::InvalidState })
    } else if request.response_type != "code"@ {
        Some(redirect_error(request, RedirectableValidationError::InvalidResponseType))
    } else if !allows_scopes(client, whitespace_tokens(request.scope)) {
        Some(redirect_error(request, RedirectableValidationError::InvalidScope))
    } else if request.code_challenge_method != "S256"@ {
        Some(redirect_error(request, RedirectableValidationError::InvalidCodeChallengeMethod))
    } else if request.code_challenge.len() == 0 {
        Some(redirect_error(request, RedirectableValidationError::InvalidCodeChallenge))
    } else {
        None
    }
}

/// Whether `request` passes every check against `client`, in no particular order.
pub open spec fn passes_all_checks(request: AuthorizationRequestModel, client: ClientModel) -> bool {
    &&& request.client_id == client.id
    &&& client.redirect_uris.contains(request.redirect_uri)
    &&& request.state.len() > 0
    &&& request.response_type == "code"@
    &&& allows_scopes(client, whitespace_tokens(request.scope))
    &&& request.code_challenge_method == "S256"@
    &&& request.code_challenge.len() > 0
}

/// A request is accepted exactly when it passes every check; the order of the checks only decides
/// which error a rejected request gets.
pub proof fn law_accepted_iff_all_checks_pass(
    request: AuthorizationRequestModel,
    client: ClientModel,
)
    ensures
        first_validation_error(request, client) is None <==> passes_all_checks(request, client),
{
}

/// An error that may be redirected is only ever produced for a request whose client id matches
/// and whose redirect URI is registered for the client; it carries that redirect URI and the
/// request's (non-empty) state.
pub proof fn law_redirectable_errors_go_to_registered_uris(
    request: AuthorizationRequestModel,
    client: ClientModel,
)
    ensures
        first_validation_error(request, client) matches Some(
            ValidationErrorModel::Redirectable { redirect_uri, state, .. },
        ) ==> {
            &&& request.client_id == client.id
            &&& client.redirect_uris.contains(redirect_uri)
            &&& redirect_uri == request.redirect_uri
            &&& state == request.state
            &&& state.len() > 0
        },
{
}

impl AuthorizationRequest {
    /// Validates the request against `client` and, when it is valid, hands out its fields.
    pub fn validate_and_unpack(self, client: &Client) -> (r: Result<
        ValidatedAuthorizationRequest,
        ValidationError,
    >)
        ensures
            r is Ok <==> first_validation_error(self@, client@) is None,
            r matches Err(e) ==> Some(e@) == first_validation_error(self@, client@),
            r matches Ok(v) ==> {
                &&& v.client_id == self@.client_id
                &&& v.redirect_uri@ == self@.redirect_uri
                &&& v.scope@ == self@.scope
                &&& v.state@ == self@.state
                &&& v.code_challenge@ == self@.code_challenge
                &&& v.code_challenge_method@ == self@.code_challenge_method
            },
    {
        self.validate_against_client(client)?;
        Ok(
            ValidatedAuthorizationRequest {
                client_id: self.client_id(),
                redirect_uri: self.redirect_uri().to_owned(),
                scope: self.scope().to_owned(),
                state: self.state().to_owned(),
                code_challenge: self.code_challenge().to_owned(),
                code_challenge_method: self.code_challenge_method().to_owned(),
            },
        )
    }

    /// Checks the request against `client`: client id, redirect URI and state first (failures
    /// there must not be redirected), then response type, scope and PKCE parameters.
    pub fn validate_against_client(&self, client: &Client) -> (r: Result<(), ValidationError>)
        ensures
            r is Ok <==> first_validation_error(self@, client@) is None,
            r matches Err(e) ==> Some(e@) == first_validation_error(self@, client@),
    {
        if self.client_id() != client.id() {
            return Err(ValidationError::fatal(FatalValidationError::ClientIdMismatch));
        }
        if !client.has_redirect_uri(self.redirect_uri()) {
            return Err(ValidationError::fatal(FatalValidationError::InvalidRedirectUri));
        }
        if self.state().is_empty() {
            return Err(ValidationError::fatal(FatalValidationError::InvalidState));
        }
        if !str_equals(self.response_type(), "code") {
            return Err(
                ValidationError::redirectable(
                    RedirectableValidationError::InvalidResponseType,
                    self.redirect_uri().to_owned(),
                    self.state().to_owned(),
                ),
            );
        }
        if !client.has_scope(self.scope()) {
            return Err(
                ValidationError::redirectable(
                    RedirectableValidationError::InvalidScope,
                    self.redirect_uri().to_owned(),
                    self.state().to_owned(),
                ),
            );
        }
        if !str_equals(self.code_challenge_method(), "S256") {
            return Err(
                ValidationError::redirectable(
                    RedirectableValidationError::InvalidCodeChallengeMethod,
                    self.redirect_uri().to_owned(),
                    self.state().to_owned(),
                ),
            );
        }
        if self.code_challenge().is_empty() {
            return Err(
                ValidationError::redirectable(
                    RedirectableValidationError::InvalidCodeChallenge,
                    self.redirect_uri().to_owned(),
                    self.state().to_owned(),
                ),
            );
        }
        Ok(())
    }
}

} // verus!
