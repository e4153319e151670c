use vstd::prelude::*;

use crate::domain::entity::authorization_code::request::AuthorizationRequest;
use crate::domain::entity::client::{optional_client_view, Client};
use crate::persistence::pars::PeekParError;
use crate::support::ids::{parse_uuid, uuid_from_text};
use crate::web::authorize::page::error_response::AuthorizePageErrorResponse;
use crate::web::authorize::page::request::AuthorizePageQuery;
use crate::web::authorize::page::response::AuthorizePageResponse;

pub mod error_response;
pub mod request;
pub mod response;

verus! {

/// First step of the confirmation page: the client id must be present and a UUID, and the
/// request URI present.
pub fn check_page_query(query: AuthorizePageQuery) -> (r: Result<
    (u128, String),
    AuthorizePageErrorResponse,
>)
    ensures
        query.client_id is None ==> r == Err::<(u128, String), _>(
            AuthorizePageErrorResponse::MissingClientId,
        ),
        query.client_id matches Some(text) ==> {
            &&& uuid_from_text(text@) is None ==> r == Err::<(u128, String), _>(
                AuthorizePageErrorResponse::InvalidClientId,
            )
            &&& uuid_from_text(text@) is Some && query.request_uri is None ==> r == Err::<
                (u128, String),
                _,
            >(AuthorizePageErrorResponse::MissingRequestUri)
            &&& uuid_from_text(text@) is Some && query.request_uri is Some ==> (r matches Ok(
                pair,
            ) && Some(pair.0) == uuid_from_text(text@) && pair.1 == query.request_uri->0)
        },
{
    let client_id = match query.client_id {
        Some(text) => match parse_uuid(text.as_str()) {
            Some(id) => id,
            None => {
                return Err(AuthorizePageErrorResponse::InvalidClientId);
            },
        },
        None => {
            return Err(AuthorizePageErrorResponse::MissingClientId);
        },
    };
    match query.request_uri {
        Some(request_uri) => Ok((client_id, request_uri)),
        None => Err(AuthorizePageErrorResponse::MissingRequestUri),
    }
}

/// Second step: what the store answered when the pushed request was read (without consuming
/// it). The request must exist and belong to the client named in the query.
pub fn check_peeked_par(
    client_id: u128,
    peeked: Result<Option<AuthorizationRequest>, PeekParError>,
) -> (r: Result<AuthorizationRequest, AuthorizePageErrorResponse>)
    ensures
        peeked is Err ==> r == Err::<AuthorizationRequest, _>(
            AuthorizePageErrorResponse::ServerError,
        ),
        peeked == Ok::<Option<AuthorizationRequest>, PeekParError>(None) ==> r == Err::<
            AuthorizationRequest,
            _,
        >(AuthorizePageErrorResponse::RequestNotFound),
        peeked matches Ok(Some(par)) ==> {
            &&& par@.client_id != client_id ==> r == Err::<AuthorizationRequest, _>(
                AuthorizePageErrorResponse::ClientIdMismatch,
            )
            &&& par@.client_id == client_id ==> r == Ok::<_, AuthorizePageErrorResponse>(par)
        },
{
    let par = match peeked {
        Err(_) => {
            return Err(AuthorizePageErrorResponse::ServerError);
        },
        Ok(None) => {
            return Err(AuthorizePageErrorResponse::RequestNotFound);
        },
        Ok(Some(par)) => par,
    };
    if par.client_id() != client_id {
        return Err(AuthorizePageErrorResponse::ClientIdMismatch);
    }
    Ok(par)
}

/// Last step: with the client found for the id (if any), the page names the client and the
/// scope that the pushed request asks for.
pub fn page_response(
    client_id: u128,
    request_uri: String,
    par: &AuthorizationRequest,
    client: Option<Client>,
) -> (r: Result<AuthorizePageResponse, AuthorizePageErrorResponse>)
    ensures
        client is None ==> r == Err::<AuthorizePageResponse, _>(
            AuthorizePageErrorResponse::ClientNotFound,
        ),
        optional_client_view(client) matches Some(c) ==> (r matches Ok(page) && page.client_name@
            == c.client_name && page.scope@ == par@.scope && page.client_id == client_id
            && page.request_uri == request_uri),
{
    let client = match client {
        Some(c) => c,
        None => {
            return Err(AuthorizePageErrorResponse::ClientNotFound);
        },
    };
    Ok(
        AuthorizePageResponse {
            client_name: client.client_name().to_owned(),
            scope: par.scope().to_owned(),
            client_id,
            request_uri,
        },
    )
}

} // verus!
