use vstd::prelude::*;

use crate::authorize::page::AuthorizePage;
use crate::domain::entity::authorization_request::optional_text;

verus! {

pub enum RecoverableAuthorizeErrorKind {
    InvalidCredentials,
}

/// An authorize error after which the sign-in page is shown again, filled in as far as it was.
pub struct RecoverableAuthorizeError {
    pub kind: RecoverableAuthorizeErrorKind,
    pub client_id: String,
    pub redirect_uri: String,
    pub scope: String,
    pub state: String,
    pub user_name: String,
}

impl RecoverableAuthorizeError {
    /// The HTTP status and the sign-in page shown again: 401 with "Invalid email or password.",
    /// the request's parameters and the user name kept.
    pub fn into_page(self) -> (r: (u16, AuthorizePage))
        ensures
            r.0 == 401,
            r.1.client_id == self.client_id,
            r.1.redirect_uri == self.redirect_uri,
            r.1.scope == self.scope,
            r.1.state == self.state,
            optional_text(r.1.user_name) == Some(self.user_name@),
            optional_text(r.1.error) == Some("Invalid email or password."@),
    {
        let (status_code, error) = match self.kind {
            RecoverableAuthorizeErrorKind::InvalidCredentials => (
                401u16,
                String::from_str("Invalid email or password."),
            ),
        };
        (
            status_code,
            AuthorizePage {
                client_id: self.client_id,
                redirect_uri: self.redirect_uri,
                scope: self.scope,
                state: self.state,
                user_name: Some(self.user_name),
                error: Some(error),
            },
        )
    }
}

} // verus!
