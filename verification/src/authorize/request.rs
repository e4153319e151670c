use vstd::prelude::*;

use crate::authorize::error::fatal::FatalAuthorizeError;
use crate::authorize::error::{is_invalid_request, AuthorizeError};
use crate::domain::entity::authorization_request::optional_text;
use crate::support::ids::{parse_uuid, uuid_from_text};
use crate::support::text::{split_whitespace, string_views, whitespace_tokens};

verus! {

/// The OAuth 2.0 authorization request (RFC 6749, section 4.1.1) with the user's credentials.
pub struct AuthorizeRequest {
    pub response_type: String,
    pub client_id: u128,
    pub redirect_uri: String,
    pub scope: Vec<String>,
    pub state: String,
    pub user_email: String,
    pub user_password: String,
}

/// The form fields of an authorization request as they arrived, each possibly missing.
pub struct RawAuthorizeRequest {
    pub response_type: Option<String>,
    pub client_id: Option<String>,
    pub redirect_uri: Option<String>,
    pub scope: Option<String>,
    pub state: Option<String>,
    pub user_email: Option<String>,
    pub user_password: Option<String>,
}

/// Whether the client id field is present and reads as a UUID.
pub open spec fn client_id_readable(client_id: Option<String>) -> bool {
    client_id matches Some(text) && uuid_from_text(text@) is Some
}

/// The description of the first field that is missing (or, for the client id, unreadable), in
/// the order response_type, client_id, redirect_uri, state, user_email, user_password; `None`
/// when the request is complete. The scope may be missing.
pub open spec fn raw_request_problem(raw: RawAuthorizeRequest) -> Option<Seq<char>> {
    if raw.response_type is None {
        Some("The response_type is missing."@)
    } else if !client_id_readable(raw.client_id) {
        Some("The client_id is missing."@)
    } else if raw.redirect_uri is None {
        Some("The redirect_uri is missing."@)
    } else if raw.state is None {
        Some("The state is missing."@)
    } else if raw.user_email is None {
        Some("The user_email is missing."@)
    } else if raw.user_password is None {
        Some("The user_password is missing."@)
    } else {
        None
    }
}

/// A form is accepted exactly when every required field is present, whatever its text (an empty
/// password too), and the client id reads as a UUID; the scope may be missing.
pub proof fn law_complete_forms_are_accepted(raw: RawAuthorizeRequest)
    ensures
        raw_request_problem(raw) is None <==> {
            &&& raw.response_type is Some
            &&& raw.client_id is Some
            &&& uuid_from_text(raw.client_id->0@) is Some
            &&& raw.redirect_uri is Some
            &&& raw.state is Some
            &&& raw.user_email is Some
            &&& raw.user_password is Some
        },
{
}

/// The scopes of the scope field: its whitespace-separated parts, none when it is missing.
pub open spec fn requested_scopes(scope: Option<String>) -> Seq<Seq<char>> {
    match scope {
        Some(s) => whitespace_tokens(s@),
        None => seq![],
    }
}

fn invalid_request(description: &str) -> (e: AuthorizeError)
    ensures
        is_invalid_request(e, description@),
{
    AuthorizeError::Fatal(FatalAuthorizeError::new_invalid_request(String::from_str(description)))
}

impl AuthorizeRequest {
    /// Checks that the required fields are present and the client id is a UUID, and splits the
    /// scope field at whitespace.
    pub fn from_raw(raw: RawAuthorizeRequest) -> (r: Result<Self, AuthorizeError>)
        ensures
            r is Err <==> raw_request_problem(raw) is Some,
            r matches Err(e) ==> is_invalid_request(e, raw_request_problem(raw)->0),
            r matches Ok(req) ==> {
                &&& Some(req.response_type@) == optional_text(raw.response_type)
                &&& Some(req.client_id) == uuid_from_text(raw.client_id->0@)
                &&& Some(req.redirect_uri@) == optional_text(raw.redirect_uri)
                &&& string_views(req.scope@) == requested_scopes(raw.scope)
                &&& Some(req.state@) == optional_text(raw.state)
                &&& Some(req.user_email@) == optional_text(raw.user_email)
                &&& Some(req.user_password@) == optional_text(raw.user_password)
            },
    {
        let response_type = match raw.response_type {
            Some(v) => v,
            None => {
                return Err(invalid_request("The response_type is missing."));
            },
        };
        let client_id = match &raw.client_id {
            Some(text) => match parse_uuid(text.as_str()) {
                Some(id) => id,
                None => {
                    return Err(invalid_request("The client_id is missing."));
                },
            },
            None => {
                return Err(invalid_request("The client_id is missing."));
            },
        };
        let redirect_uri = match raw.redirect_uri {
            Some(v) => v,
            None => {
                return Err(invalid_request("The redirect_uri is missing."));
            },
        };
        let scope = match &raw.scope {
            Some(s) => split_whitespace(s.as_str()),
            None => {
                let empty: Vec<String> = Vec::new();
                assert(string_views(empty@) =~= seq![]);
                empty
            },
        };
        let state = match raw.state {
            Some(v) => v,
            None => {
                return Err(invalid_request("The state is missing."));
            },
        };
        let user_email = match raw.user_email {
            Some(v) => v,
            None => {
                return Err(invalid_request("The user_email is missing."));
            },
        };
        let user_password = match raw.user_password {
            Some(v) => v,
            None => {
                return Err(invalid_request("The user_password is missing."));
            },
        };
        Ok(
            AuthorizeRequest {
                response_type,
                client_id,
                redirect_uri,
                scope,
                state,
                user_email,
                user_password,
            },
        )
    }
}

} // verus!
