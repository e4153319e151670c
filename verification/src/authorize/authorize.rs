use vstd::prelude::*;

use crate::authorize::error::fatal::{
    FatalAuthorizeError, FatalAuthorizeErrorKind, FatalAuthorizeErrorKindModel,
    FatalAuthorizeErrorModel,
};
use crate::authorize::error::recoverable::{RecoverableAuthorizeError, RecoverableAuthorizeErrorKind};
use crate::authorize::error::AuthorizeError;
use crate::authorize::request::AuthorizeRequest;
use crate::domain::client::Client;
use crate::domain::user::User;
use crate::persistence::PersistanceError;
use crate::service::client::{validate_redirect_uri, validate_scope};
use crate::service::user::check_password_authentication;
use crate::support::ids::{format_uuid, uuid_text};
use crate::support::text::{join_spaced, join_with_spaces, str_equals, string_views};

verus! {

/// A page error of `kind` with the given redirect link and no retry link.
pub open spec fn page_error(
    kind: FatalAuthorizeErrorKindModel,
    redirect_uri: Option<Seq<char>>,
) -> FatalAuthorizeErrorModel {
    FatalAuthorizeErrorModel { kind, redirect_uri, try_again_uri: None }
}

/// Whether every requested scope is one of the client's scopes.
pub open spec fn scopes_registered(client: Client, scope: Seq<String>) -> bool {
    forall|i: int| 0 <= i < scope.len() ==> string_views(client.scopes@).contains(#[trigger] scope[i]@)
}

/// What the client lookup and the client checks refuse `request` with, if anything: a store
/// failure, an unknown client, an unregistered redirect URI (not redirected), then, redirected to
/// the now trusted redirect URI, an unregistered scope or a response type other than `code`.
pub open spec fn client_refusal(
    request: AuthorizeRequest,
    lookup: Result<Option<Client>, PersistanceError>,
) -> Option<FatalAuthorizeErrorModel> {
    match lookup {
        Err(_) => Some(page_error(FatalAuthorizeErrorKindModel::ServerError, None)),
        Ok(None) => Some(page_error(FatalAuthorizeErrorKindModel::UnauthorizedClient, None)),
        Ok(Some(client)) => if !string_views(client.redirect_uris@).contains(request.redirect_uri@) {
            Some(
                page_error(
                    FatalAuthorizeErrorKindModel::InvalidRequest(
                        "The redirect_uri is not registered with the client."@,
                    ),
                    None,
                ),
            )
        } else if !scopes_registered(client, request.scope@) {
            Some(
                page_error(
                    FatalAuthorizeErrorKindModel::InvalidScope,
                    Some(request.redirect_uri@),
                ),
            )
        } else if request.response_type@ != "code"@ {
            Some(
                page_error(
                    FatalAuthorizeErrorKindModel::UnsupportedResponseType,
                    Some(request.redirect_uri@),
                ),
            )
        } else {
            None
        },
    }
}

/// Once the client is found and the redirect URI is registered for it, the request is refused for
/// its scope exactly when some requested scope, at any position, is not one of the client's
/// scopes; that refusal is then sent back to the request's redirect URI.
pub proof fn law_client_scope_refusal(request: AuthorizeRequest, client: Client)
    requires
        string_views(client.redirect_uris@).contains(request.redirect_uri@),
    ensures
        client_refusal(request, Ok(Some(client))) == Some(
            page_error(FatalAuthorizeErrorKindModel::InvalidScope, Some(request.redirect_uri@)),
        ) <==> exists|i: int|
            0 <= i < request.scope@.len() && !string_views(client.scopes@).contains(
                #[trigger] request.scope@[i]@,
            ),
{
}

/// A found client accepts the request exactly when the redirect URI is registered for it, every
/// requested scope is one of its scopes, and the response type is `code`; a failed lookup or an
/// unknown client is always refused.
pub proof fn law_client_accepts_exactly_valid_requests(
    request: AuthorizeRequest,
    client: Client,
    failure: PersistanceError,
)
    ensures
        client_refusal(request, Ok(Some(client))) is None <==> {
            &&& string_views(client.redirect_uris@).contains(request.redirect_uri@)
            &&& forall|i: int|
                0 <= i < request.scope@.len() ==> string_views(client.scopes@).contains(
                    #[trigger] request.scope@[i]@,
                )
            &&& request.response_type@ == "code"@
        },
        client_refusal(request, Ok(None)) is Some,
        client_refusal(request, Err(failure)) is Some,
{
}

/// First step of the authorize endpoint: checks the client that the store returned for the
/// request's client id.
pub fn check_client(
    request: &AuthorizeRequest,
    lookup: Result<Option<Client>, PersistanceError>,
) -> (r: Result<(), AuthorizeError>)
    ensures
        r is Err <==> client_refusal(*request, lookup) is Some,
        r matches Err(e) ==> (e matches AuthorizeError::Fatal(f) && Some(f@) == client_refusal(
            *request,
            lookup,
        )),
{
    let client = match lookup {
        Err(_) => {
            return Err(
                AuthorizeError::Fatal(FatalAuthorizeError::new(FatalAuthorizeErrorKind::ServerError)),
            );
        },
        Ok(None) => {
            return Err(
                AuthorizeError::Fatal(
                    FatalAuthorizeError::new(FatalAuthorizeErrorKind::UnauthorizedClient),
                ),
            );
        },
        Ok(Some(client)) => client,
    };
    if !validate_redirect_uri(&client, request.redirect_uri.as_str()) {
        return Err(
            AuthorizeError::Fatal(
                FatalAuthorizeError::new_invalid_request(
                    String::from_str("The redirect_uri is not registered with the client."),
                ),
            ),
        );
    }
    if !validate_scope(&client, request.scope.as_slice()) {
        return Err(
            AuthorizeError::Fatal(
                FatalAuthorizeError::new(FatalAuthorizeErrorKind::InvalidScope).with_redirect_uri(
                    request.redirect_uri.clone(),
                ),
            ),
        );
    }
    if !str_equals(request.response_type.as_str(), "code") {
        return Err(
            AuthorizeError::Fatal(
                FatalAuthorizeError::new(
                    FatalAuthorizeErrorKind::UnsupportedResponseType,
                ).with_redirect_uri(request.redirect_uri.clone()),
            ),
        );
    }
    Ok(())
}

/// Whether `e` is the "invalid credentials" error for `request`: the sign-in page is shown again
/// with the request's parameters and the email entered.
pub open spec fn is_invalid_credentials(e: AuthorizeError, request: AuthorizeRequest) -> bool {
    e matches AuthorizeError::Recoverable(rec) && rec.kind
        == RecoverableAuthorizeErrorKind::InvalidCredentials && rec.client_id@ == uuid_text(
        request.client_id,
    ) && rec.redirect_uri@ == request.redirect_uri@ && rec.scope@ == join_with_spaces(
        string_views(request.scope@),
    ) && rec.state@ == request.state@ && rec.user_name@ == request.user_email@
}

fn invalid_credentials(request: AuthorizeRequest) -> (e: AuthorizeError)
    ensures
        is_invalid_credentials(e, request),
{
    AuthorizeError::Recoverable(
        RecoverableAuthorizeError {
            kind: RecoverableAuthorizeErrorKind::InvalidCredentials,
            client_id: format_uuid(request.client_id),
            redirect_uri: request.redirect_uri,
            scope: join_spaced(&request.scope),
            state: request.state,
            user_name: request.user_email,
        },
    )
}

/// Second step of the authorize endpoint: authenticates the user that the store returned for the
/// request's email. A store failure is a page error; an unknown user and a wrong password get the
/// same answer, so that neither can be told from the other.
pub fn check_user(
    request: AuthorizeRequest,
    lookup: Result<Option<User>, PersistanceError>,
) -> (r: Result<(), AuthorizeError>)
    ensures
        lookup is Err ==> (r matches Err(e) && e matches AuthorizeError::Fatal(f) && f@
            == page_error(FatalAuthorizeErrorKindModel::ServerError, None)),
        lookup == Ok::<Option<User>, PersistanceError>(None) ==> (r matches Err(e)
            && is_invalid_credentials(e, request)),
        lookup matches Ok(Some(user)) ==> (r is Ok <==> user.password@ == request.user_password@),
        lookup matches Ok(Some(user)) ==> (r matches Err(e) ==> is_invalid_credentials(e, request)),
{
    let user = match lookup {
        Err(_) => {
            return Err(
                AuthorizeError::Fatal(FatalAuthorizeError::new(FatalAuthorizeErrorKind::ServerError)),
            );
        },
        Ok(None) => {
            return Err(invalid_credentials(request));
        },
        Ok(Some(user)) => user,
    };
    match check_password_authentication(&user, request.user_password.as_str()) {
        Ok(()) => Ok(()),
        Err(_) => Err(invalid_credentials(request)),
    }
}

} // verus!
