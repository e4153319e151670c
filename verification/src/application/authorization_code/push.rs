use vstd::prelude::*;

use crate::application::authorization_code::error::{
    flow_refusal, AuthCodeError, AuthCodeErrorModel, FatalAuthCodeError, RedirectableAuthCodeError,
};
use crate::domain::entity::authorization_code::request::{
    AuthorizationRequest, AuthorizationRequestModel,
};
use crate::domain::entity::client::{optional_client_view, Client};
use crate::persistence::pars::SaveParError;
use crate::support::ids::{format_uuid, is_v4_id, random_uuid_v4, uuid_text};

verus! {

#[derive(Debug, PartialEq)]
pub struct AuthorizePushSuccess {
    pub request_uri: String,
    /// Seconds until the pushed request expires.
    pub expires_in: u64,
}

/// How long a pushed authorization request stays usable: three minutes.
pub const PAR_TTL_SECONDS: u64 = 180;

/// The scheme and namespace that every generated request URI starts with.
pub open spec fn request_uri_prefix() -> Seq<char> {
    "urn:authorize:request_uri:"@
}

/// Whether `uri` is a request URI as [`generate_request_uri`] makes them: the prefix followed by
/// the 36-character text of a version 4 UUID, 62 characters in all.
pub open spec fn is_generated_request_uri(uri: Seq<char>) -> bool {
    &&& uri.len() == 62
    &&& exists|id: u128| is_v4_id(id) && uri == request_uri_prefix() + #[trigger] uuid_text(id)
}

/// Generates a request URI for a pushed authorization request: the URN prefix followed by a
/// random (version 4) UUID, so that the URI is hard to guess (RFC 9126).
pub fn generate_request_uri() -> (uri: String)
    ensures
        is_generated_request_uri(uri@),
{
    let id = random_uuid_v4();
    let mut uri = String::from_str("urn:authorize:request_uri:");
    uri.append(format_uuid(id).as_str());
    proof {
        reveal_strlit("urn:authorize:request_uri:");
    }
    assert(uri@ == request_uri_prefix() + uuid_text(id));
    assert(is_v4_id(id));
    uri
}

/// A validated pushed request, waiting to be stored under `request_uri` for `ttl_seconds`.
pub struct PendingPar {
    pub request_uri: String,
    pub request: AuthorizationRequest,
    pub ttl_seconds: u64,
}

/// The request that the push parameters make.
pub open spec fn pushed_request(
    client_id: u128,
    redirect_uri: Seq<char>,
    response_type: Seq<char>,
    scope: Seq<char>,
    state: Seq<char>,
    code_challenge: Seq<char>,
    code_challenge_method: Seq<char>,
) -> AuthorizationRequestModel {
    AuthorizationRequestModel {
        client_id,
        redirect_uri,
        response_type,
        scope,
        state,
        code_challenge,
        code_challenge_method,
    }
}

/// First step of a push: given the client found for `client_id` (if any), validates the pushed
/// parameters and, when they pass, picks a request URI under which to store the request.
pub fn begin_authorize_push(
    client_id: u128,
    redirect_uri: String,
    response_type: String,
    scope: String,
    state: String,
    code_challenge: String,
    code_challenge_method: String,
    client: Option<Client>,
) -> (r: Result<PendingPar, AuthCodeError>)
    ensures
        ({
            let request = pushed_request(
                client_id,
                redirect_uri@,
                response_type@,
                scope@,
                state@,
                code_challenge@,
                code_challenge_method@,
            );
            &&& r is Err <==> flow_refusal(request, optional_client_view(client)) is Some
            &&& r matches Err(e) ==> Some(e@) == flow_refusal(request, optional_client_view(client))
            &&& r matches Ok(p) ==> {
                &&& p.request@ == request
                &&& p.ttl_seconds == PAR_TTL_SECONDS
                &&& is_generated_request_uri(p.request_uri@)
            }
        }),
{
    let client = match client {
        Some(c) => c,
        None => {
            return Err(AuthCodeError::fatal(FatalAuthCodeError::ClientNotFound));
        },
    };
    let request = AuthorizationRequest::new(
        client_id,
        redirect_uri,
        response_type,
        scope,
        state,
        code_challenge,
        code_challenge_method,
    );
    match request.validate_against_client(&client) {
        Ok(()) => {},
        Err(e) => {
            return Err(AuthCodeError::from(e));
        },
    }
    let request_uri = generate_request_uri();
    Ok(PendingPar { request_uri, request, ttl_seconds: PAR_TTL_SECONDS })
}

/// Last step of a push: once the store has answered, reports the request URI and its lifetime, or
/// a storage failure, redirected to the (already validated) redirect URI with the request's state.
pub fn finish_authorize_push(pending: PendingPar, saved: Result<(), SaveParError>) -> (r: Result<
    AuthorizePushSuccess,
    AuthCodeError,
>)
    ensures
        saved is Ok ==> (r matches Ok(s) && s.request_uri@ == pending.request_uri@
            && s.expires_in == pending.ttl_seconds),
        saved is Err ==> (r matches Err(e) && e@ == (AuthCodeErrorModel::Redirectable {
            error: RedirectableAuthCodeError::DatabaseError,
            redirect_uri: pending.request@.redirect_uri,
            state: pending.request@.state,
        })),
{
    match saved {
        Ok(()) => Ok(
            AuthorizePushSuccess {
                request_uri: pending.request_uri,
                expires_in: pending.ttl_seconds,
            },
        ),
        Err(_) => Err(
            AuthCodeError::Redirectable {
                error: RedirectableAuthCodeError::DatabaseError,
                redirect_uri: pending.request.redirect_uri().to_owned(),
                state: pending.request.state().to_owned(),
            },
        ),
    }
}

} // verus!
