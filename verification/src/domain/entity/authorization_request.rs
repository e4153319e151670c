use vstd::prelude::*;

use crate::support::text::string_views;

verus! {

/// An authorization request as it arrived, each parameter possibly missing, so that validation can
/// tell which errors may be redirected to the client and which may not.
#[derive(Debug, Clone, PartialEq)]
pub struct AuthorizationRequest {
    client_id: u128,
    redirect_uri: Option<String>,
    response_type: Option<String>,
    scopes: Option<Vec<String>>,
    state: Option<String>,
    code_challenge: Option<String>,
    code_challenge_method: Option<String>,
}

/// What an [`AuthorizationRequest`] holds, as plain values.
pub struct AuthorizationRequestModel {
    pub client_id: u128,
    pub redirect_uri: Option<Seq<char>>,
    pub response_type: Option<Seq<char>>,
    pub scopes: Option<Seq<Seq<char>>>,
    pub state: Option<Seq<char>>,
    pub code_challenge: Option<Seq<char>>,
    pub code_challenge_method: Option<Seq<char>>,
}

/// The characters of an optional string.
pub open spec fn optional_text(s: Option<String>) -> Option<Seq<char>> {
    match s {
        Some(t) => Some(t@),
        None => None,
    }
}

/// The character sequences of an optional list of strings.
pub open spec fn optional_texts(v: Option<Vec<String>>) -> Option<Seq<Seq<char>>> {
    match v {
        Some(t) => Some(string_views(t@)),
        None => None,
    }
}

/// The characters of an optional string slice.
pub open spec fn optional_str(s: Option<&str>) -> Option<Seq<char>> {
    match s {
        Some(t) => Some(t@),
        None => None,
    }
}

impl View for AuthorizationRequest {
    type V = AuthorizationRequestModel;

    closed spec fn view(&self) -> AuthorizationRequestModel {
        AuthorizationRequestModel {
            client_id: self.client_id,
            redirect_uri: optional_text(self.redirect_uri),
            response_type: optional_text(self.response_type),
            scopes: optional_texts(self.scopes),
            state: optional_text(self.state),
            code_challenge: optional_text(self.code_challenge),
            code_challenge_method: optional_text(self.code_challenge_method),
        }
    }
}

fn as_optional_str(s: &Option<String>) -> (r: Option<&str>)
    ensures
        optional_str(r) == optional_text(*s),
{
    match s {
        Some(t) => Some(t.as_str()),
        None => None,
    }
}

impl AuthorizationRequest {
    pub fn new(
        client_id: u128,
        redirect_uri: Option<String>,
        response_type: Option<String>,
        scopes: Option<Vec<String>>,
        state: Option<String>,
        code_challenge: Option<String>,
        code_challenge_method: Option<String>,
    ) -> (request: Self)
        ensures
            request@ == (AuthorizationRequestModel {
                client_id,
                redirect_uri: optional_text(redirect_uri),
                response_type: optional_text(response_type),
                scopes: optional_texts(scopes),
                state: optional_text(state),
                code_challenge: optional_text(code_challenge),
                code_challenge_method: optional_text(code_challenge_method),
            }),
    {
        Self {
            client_id,
            redirect_uri,
            response_type,
            scopes,
            state,
            code_challenge,
            code_challenge_method,
        }
    }

    pub fn client_id(&self) -> (r: u128)
        ensures
            r == self@.client_id,
    {
        self.client_id
    }

    pub fn redirect_uri(&self) -> (r: Option<&str>)
        ensures
            optional_str(r) == self@.redirect_uri,
    {
        as_optional_str(&self.redirect_uri)
    }

    pub fn response_type(&self) -> (r: Option<&str>)
        ensures
            optional_str(r) == self@.response_type,
    {
        as_optional_str(&self.response_type)
    }

    /// The requested scopes, one per entry.
    pub fn scope(&self) -> (r: Option<&Vec<String>>)
        ensures
            match r {
                Some(v) => self@.scopes == Some(string_views(v@)),
                None => self@.scopes is None,
            },
    {
        match &self.scopes {
            Some(v) => Some(v),
            None => None,
        }
    }

    pub fn state(&self) -> (r: Option<&str>)
        ensures
            optional_str(r) == self@.state,
    {
        as_optional_str(&self.state)
    }

    pub fn code_challenge(&self) -> (r: Option<&str>)
        ensures
            optional_str(r) == self@.code_challenge,
    {
        as_optional_str(&self.code_challenge)
    }

    pub fn code_challenge_method(&self) -> (r: Option<&str>)
        ensures
            optional_str(r) == self@.code_challenge_method,
    {
        as_optional_str(&self.code_challenge_method)
    }
}

} // verus!
