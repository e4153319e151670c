use vstd::prelude::*;

use crate::application::authorization_code::error::{
    flow_refusal, AuthCodeError, AuthCodeErrorModel, FatalAuthCodeError, RedirectableAuthCodeError,
};
use crate::domain::entity::authorization_code::code::{AuthorizationCode, AuthorizationCodeModel};
use crate::domain::entity::authorization_code::request::AuthorizationRequest;
use crate::domain::entity::client::{optional_client_view, Client};
use crate::persistence::authorization_codes::SaveAuthorizationCodeError;
use crate::persistence::pars::TakeParError;
use crate::support::base64_text::{
    base64_url_no_pad, encode_url_safe_no_pad, is_url_safe_base64_char,
};
use crate::support::random::fill_random;

verus! {

#[derive(Debug, PartialEq)]
pub struct AuthorizeCodeSuccess {
    pub code: String,
    pub redirect_uri: String,
    pub state: String,
    /// Seconds until the code expires.
    pub expires_in: u64,
}

/// How long an authorization code stays usable: five minutes.
pub const CODE_TTL_SECONDS: u64 = 300;

/// Whether `code` is an authorization code as [`generate_auth_code`] makes them: the URL-safe,
/// unpadded base64 text of 32 bytes (256 bits), 43 characters long.
pub open spec fn is_generated_auth_code(code: Seq<char>) -> bool {
    &&& code.len() == 43
    &&& forall|i: int| 0 <= i < code.len() ==> is_url_safe_base64_char(#[trigger] code[i])
    &&& exists|bytes: Seq<u8>| bytes.len() == 32 && code == #[trigger] base64_url_no_pad(bytes)
}

/// Generates a random 256-bit authorization code, encoded in URL-safe base64 without padding.
pub fn generate_auth_code() -> (code: String)
    ensures
        is_generated_auth_code(code@),
{
    let mut bytes: Vec<u8> = vec![0u8; 32];
    fill_random(&mut bytes);
    let code = encode_url_safe_no_pad(bytes.as_slice());
    assert(code@ == base64_url_no_pad(bytes@));
    code
}

/// Second step of a code request: what the store answered when the pushed request was taken.
/// A store failure and a missing (or expired) request are both fatal.
pub fn accept_taken_par(taken: Result<Option<AuthorizationRequest>, TakeParError>) -> (r: Result<
    AuthorizationRequest,
    AuthCodeError,
>)
    ensures
        taken is Err ==> r == Err::<AuthorizationRequest, AuthCodeError>(
            AuthCodeError::Fatal { error: FatalAuthCodeError::DatabaseError },
        ),
        taken == Ok::<Option<AuthorizationRequest>, TakeParError>(None) ==> r == Err::<
            AuthorizationRequest,
            AuthCodeError,
        >(AuthCodeError::Fatal { error: FatalAuthCodeError::PushedRequestNotFound }),
        taken matches Ok(Some(request)) ==> r == Ok::<AuthorizationRequest, AuthCodeError>(
            request,
        ),
{
    match taken {
        Err(_) => Err(AuthCodeError::fatal(FatalAuthCodeError::DatabaseError)),
        Ok(None) => Err(AuthCodeError::fatal(FatalAuthCodeError::PushedRequestNotFound)),
        Ok(Some(request)) => Ok(request),
    }
}

/// A freshly generated code, waiting to be stored for `ttl_seconds`, with the redirect URI and
/// state that it is to be delivered to.
pub struct PendingCode {
    pub code: AuthorizationCode,
    pub redirect_uri: String,
    pub state: String,
    pub ttl_seconds: u64,
}

/// Third step of a code request: given the client found for the submitted client id (if any),
/// validates the pushed request against it and, when it passes, generates the code.
pub fn issue_authorization_code(request: AuthorizationRequest, client: Option<Client>) -> (r:
    Result<PendingCode, AuthCodeError>)
    ensures
        r is Err <==> flow_refusal(request@, optional_client_view(client)) is Some,
        r matches Err(e) ==> Some(e@) == flow_refusal(request@, optional_client_view(client)),
        r matches Ok(p) ==> {
            &&& is_generated_auth_code(p.code@.code)
            &&& p.code@ == (AuthorizationCodeModel {
                code: p.code@.code,
                client_id: request@.client_id,
                redirect_uri: request@.redirect_uri,
                scope: request@.scope,
                code_challenge: request@.code_challenge,
                code_challenge_method: request@.code_challenge_method,
            })
            &&& p.redirect_uri@ == request@.redirect_uri
            &&& p.state@ == request@.state
            &&& p.ttl_seconds == CODE_TTL_SECONDS
        },
{
    let client = match client {
        Some(c) => c,
        None => {
            return Err(AuthCodeError::fatal(FatalAuthCodeError::ClientNotFound));
        },
    };
    let validated = match request.validate_and_unpack(&client) {
        Ok(v) => v,
        Err(e) => {
            return Err(AuthCodeError::from(e));
        },
    };
    let code_text = generate_auth_code();
    let code = AuthorizationCode::new(
        code_text,
        validated.client_id,
        validated.redirect_uri.clone(),
        validated.scope,
        validated.code_challenge,
        validated.code_challenge_method,
    );
    Ok(
        PendingCode {
            code,
            redirect_uri: validated.redirect_uri,
            state: validated.state,
            ttl_seconds: CODE_TTL_SECONDS,
        },
    )
}

/// Last step of a code request: once the store has answered, hands out the code with the
/// redirect URI, state and lifetime, or reports a storage failure to the redirect URI.
pub fn finish_code_issue(
    pending: PendingCode,
    saved: Result<(), SaveAuthorizationCodeError>,
) -> (r: Result<AuthorizeCodeSuccess, AuthCodeError>)
    ensures
        saved is Ok ==> (r matches Ok(s) && s.code@ == pending.code@.code && s.redirect_uri@
            == pending.redirect_uri@ && s.state@ == pending.state@ && s.expires_in
            == pending.ttl_seconds),
        saved is Err ==> (r matches Err(e) && e@ == (AuthCodeErrorModel::Redirectable {
            error: RedirectableAuthCodeError::DatabaseError,
            redirect_uri: pending.redirect_uri@,
            state: pending.state@,
        })),
{
    match saved {
        Ok(()) => Ok(
            AuthorizeCodeSuccess {
                code: pending.code.code().to_owned(),
                redirect_uri: pending.redirect_uri,
                state: pending.state,
                expires_in: pending.ttl_seconds,
            },
        ),
        Err(_) => Err(
            AuthCodeError::redirectable(
                RedirectableAuthCodeError::DatabaseError,
                pending.redirect_uri,
                pending.state,
            ),
        ),
    }
}

} // verus!
