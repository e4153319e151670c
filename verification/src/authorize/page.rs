use vstd::prelude::*;

use crate::authorize::error::fatal::FatalAuthorizeError;
use crate::authorize::error::{is_invalid_request, AuthorizeError};
use crate::domain::entity::authorization_request::optional_text;

verus! {

/// The sign-in page of the password-based authorize endpoint.
pub struct AuthorizePage {
    pub client_id: String,
    pub redirect_uri: String,
    pub state: String,
    pub scope: String,
    pub user_name: Option<String>,
    pub error: Option<String>,
}

/// The query parameters of the sign-in page, each possibly missing.
pub struct AuthorizeQueryParams {
    pub client_id: Option<String>,
    pub redirect_uri: Option<String>,
    pub state: Option<String>,
    pub scope: Option<String>,
}

/// The description of the first missing query parameter, in the order client_id, redirect_uri,
/// state, scope; `None` when all are present.
pub open spec fn missing_query_parameter(query: AuthorizeQueryParams) -> Option<Seq<char>> {
    if query.client_id is None {
        Some("Missing client_id parameter."@)
    } else if query.redirect_uri is None {
        Some("Missing redirect_uri parameter."@)
    } else if query.state is None {
        Some("Missing state parameter."@)
    } else if query.scope is None {
        Some("Missing scope parameter."@)
    } else {
        None
    }
}

/// The sign-in page for `query`: all four parameters are required and copied to the page, which
/// starts without user name and without error.
pub fn authorize_page(query: AuthorizeQueryParams) -> (r: Result<AuthorizePage, AuthorizeError>)
    ensures
        r is Err <==> missing_query_parameter(query) is Some,
        r matches Err(e) ==> is_invalid_request(e, missing_query_parameter(query)->0),
        r matches Ok(page) ==> {
            &&& Some(page.client_id@) == optional_text(query.client_id)
            &&& Some(page.redirect_uri@) == optional_text(query.redirect_uri)
            &&& Some(page.state@) == optional_text(query.state)
            &&& Some(page.scope@) == optional_text(query.scope)
            &&& page.user_name is None
            &&& page.error is None
        },
{
    let client_id = match query.client_id {
        Some(v) => v,
        None => {
            return Err(
                AuthorizeError::Fatal(
                    FatalAuthorizeError::new_invalid_request(
                        String::from_str("Missing client_id parameter."),
                    ),
                ),
            );
        },
    };
    let redirect_uri = match query.redirect_uri {
        Some(v) => v,
        None => {
            return Err(
                AuthorizeError::Fatal(
                    FatalAuthorizeError::new_invalid_request(
                        String::from_str("Missing redirect_uri parameter."),
                    ),
                ),
            );
        },
    };
    let state = match query.state {
        Some(v) => v,
        None => {
            return Err(
                AuthorizeError::Fatal(
                    FatalAuthorizeError::new_invalid_request(
                        String::from_str("Missing state parameter."),
                    ),
                ),
            );
        },
    };
    let scope = match query.scope {
        Some(v) => v,
        None => {
            return Err(
                AuthorizeError::Fatal(
                    FatalAuthorizeError::new_invalid_request(
                        String::from_str("Missing scope parameter."),
                    ),
                ),
            );
        },
    };
    Ok(AuthorizePage { client_id, redirect_uri, state, scope, user_name: None, error: None })
}

} // verus!
