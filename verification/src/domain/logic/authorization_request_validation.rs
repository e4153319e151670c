use vstd::prelude::*;

use crate::domain::entity::authorization_request::{
    AuthorizationRequest, AuthorizationRequestModel,
};
use crate::domain::entity::client::{allows_scopes, Client, ClientModel};
use crate::support::text::str_equals;

verus! {

/// Validation errors that must not be reported to the client's redirect URI.
#[derive(Debug, PartialEq, Eq, Clone, Copy)]
pub enum FatalAuthorizationError {
    ClientIdMismatch,
    InvalidRedirectUri,
}

/// Validation errors that may be reported to the client's (already verified) redirect URI.
#[derive(Debug, PartialEq, Eq, Clone, Copy)]
pub enum RedirectableAuthorizationError {
    InvalidResponseType,
    InvalidScope,
    InvalidState,
    InvalidCodeChallengeMethod,
    InvalidCodeChallenge,
}

#[derive(Debug, PartialEq, Eq, Clone, Copy)]
pub enum AuthorizationError {
    Fatal(FatalAuthorizationError),
    Redirectable(RedirectableAuthorizationError),
}

impl AuthorizationError {
    pub fn fatal(err: FatalAuthorizationError) -> (e: Self)
        ensures
            e == AuthorizationError::Fatal(err),
    {
        AuthorizationError::Fatal(err)
    }

    pub fn redirectable(err: RedirectableAuthorizationError) -> (e: Self)
        ensures
            e == AuthorizationError::Redirectable(err),
    {
        AuthorizationError::Redirectable(err)
    }
}

/// Whether an optional parameter is present and equal to `expected`.
pub open spec fn present_and_equal(value: Option<Seq<char>>, expected: Seq<char>) -> bool {
    value == Some(expected)
}

/// Whether an optional parameter is present and not empty.
pub open spec fn present_and_nonempty(value: Option<Seq<char>>) -> bool {
    value matches Some(v) && v.len() > 0
}

/// The first check, in the order the server applies them, that `request` fails against `client`;
/// `None` when the request is valid for the client. A missing parameter fails its check.
pub open spec fn first_authorization_error(
    request: AuthorizationRequestModel,
    client: ClientModel,
) -> Option<AuthorizationError> {
    if request.client_id != client.id {
        Some(AuthorizationError::Fatal(FatalAuthorizationError::ClientIdMismatch))
    } else if !(request.redirect_uri matches Some(uri) && client.redirect_uris.contains(uri)) {
        Some(AuthorizationError::Fatal(FatalAuthorizationError::InvalidRedirectUri))
    } else if !present_and_equal(request.response_type, "code"@) {
        Some(AuthorizationError::Redirectable(RedirectableAuthorizationError::InvalidResponseType))
    } else if !(request.scopes matches Some(scopes) && allows_scopes(client, scopes)) {
        Some(AuthorizationError::Redirectable(RedirectableAuthorizationError::InvalidScope))
    } else if !present_and_nonempty(request.state) {
        Some(AuthorizationError::Redirectable(RedirectableAuthorizationError::InvalidState))
    } else if !present_and_equal(request.code_challenge_method, "S256"@) {
        Some(
            AuthorizationError::Redirectable(
                RedirectableAuthorizationError::InvalidCodeChallengeMethod,
            ),
        )
    } else if !present_and_nonempty(request.code_challenge) {
        Some(AuthorizationError::Redirectable(RedirectableAuthorizationError::InvalidCodeChallenge))
    } else {
        None
    }
}

/// Whether `request` has every parameter and passes every check against `client`, in no
/// particular order.
pub open spec fn passes_all_checks(request: AuthorizationRequestModel, client: ClientModel) -> bool {
    &&& request.client_id == client.id
    &&& request.redirect_uri matches Some(uri) && client.redirect_uris.contains(uri)
    &&& request.response_type == Some("code"@)
    &&& request.scopes matches Some(scopes) && allows_scopes(client, scopes)
    &&& present_and_nonempty(request.state)
    &&& request.code_challenge_method == Some("S256"@)
    &&& present_and_nonempty(request.code_challenge)
}

/// A request is accepted exactly when every parameter is present and passes its check; the order
/// of the checks only decides which error a rejected request gets.
pub proof fn law_accepted_iff_all_checks_pass(
    request: AuthorizationRequestModel,
    client: ClientModel,
)
    ensures
        first_authorization_error(request, client) is None <==> passes_all_checks(request, client),
{
}

/// An error that may be redirected is only ever produced for a request whose client id matches
/// and whose redirect URI is present and registered for the client.
pub proof fn law_redirectable_errors_only_with_registered_uri(
    request: AuthorizationRequestModel,
    client: ClientModel,
)
    ensures
        first_authorization_error(request, client) matches Some(AuthorizationError::Redirectable(_))
            ==> {
            &&& request.client_id == client.id
            &&& request.redirect_uri matches Some(uri) && client.redirect_uris.contains(uri)
        },
{
}

/// Checks a (possibly incomplete) request against `client`: client id and redirect URI first
/// (failures there must not be redirected), then response type, scopes, state and PKCE
/// parameters.
pub fn validate_authorization_request_against_client(
    request: &AuthorizationRequest,
    client: &Client,
) -> (r: Result<(), AuthorizationError>)
    ensures
        r is Ok <==> first_authorization_error(request@, client@) is None,
        r matches Err(e) ==> Some(e) == first_authorization_error(request@, client@),
{
    if request.client_id() != client.id() {
        return Err(AuthorizationError::fatal(FatalAuthorizationError::ClientIdMismatch));
    }
    let redirect_uri = match request.redirect_uri() {
        Some(uri) => uri,
        None => {
            return Err(AuthorizationError::fatal(FatalAuthorizationError::InvalidRedirectUri));
        },
    };
    if !client.has_redirect_uri(redirect_uri) {
        return Err(AuthorizationError::fatal(FatalAuthorizationError::InvalidRedirectUri));
    }
    let response_type = match request.response_type() {
        Some(t) => t,
        None => {
            return Err(
                AuthorizationError::redirectable(RedirectableAuthorizationError::InvalidResponseType),
            );
        },
    };
    if !str_equals(response_type, "code") {
        return Err(
            AuthorizationError::redirectable(RedirectableAuthorizationError::InvalidResponseType),
        );
    }
    let scopes = match request.scope() {
        Some(s) => s,
        None => {
            return Err(
                AuthorizationError::redirectable(RedirectableAuthorizationError::InvalidScope),
            );
        },
    };
    if !client.has_scopes(scopes) {
        return Err(AuthorizationError::redirectable(RedirectableAuthorizationError::InvalidScope));
    }
    let state = match request.state() {
        Some(s) => s,
        None => {
            return Err(
                AuthorizationError::redirectable(RedirectableAuthorizationError::InvalidState),
            );
        },
    };
    if state.is_empty() {
        return Err(AuthorizationError::redirectable(RedirectableAuthorizationError::InvalidState));
    }
    let method = match request.code_challenge_method() {
        Some(m) => m,
        None => {
            return Err(
                AuthorizationError::redirectable(
                    RedirectableAuthorizationError::InvalidCodeChallengeMethod,
                ),
            );
        },
    };
    if !str_equals(method, "S256") {
        return Err(
            AuthorizationError::redirectable(
                RedirectableAuthorizationError::InvalidCodeChallengeMethod,
            ),
        );
    }
    let challenge = match request.code_challenge() {
        Some(c) => c,
        None => {
            return Err(
                AuthorizationError::redirectable(
                    RedirectableAuthorizationError::InvalidCodeChallenge,
                ),
            );
        },
    };
    if challenge.is_empty() {
        return Err(
            AuthorizationError::redirectable(RedirectableAuthorizationError::InvalidCodeChallenge),
        );
    }
    Ok(())
}

} // verus!
