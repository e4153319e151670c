use vstd::prelude::*;

pub mod validate;

verus! {

/// An authorization request as the client pushed it, every parameter present.
#[derive(Debug, Clone, PartialEq)]
pub struct AuthorizationRequest {
    client_id: u128,
    redirect_uri: String,
    response_type: String,
    scope: String,
    state: String,
    code_challenge: String,
    code_challenge_method: String,
}

/// What an [`AuthorizationRequest`] holds, as plain values.
pub struct AuthorizationRequestModel {
    pub client_id: u128,
    pub redirect_uri: Seq<char>,
    pub response_type: Seq<char>,
    pub scope: Seq<char>,
    pub state: Seq<char>,
    pub code_challenge: Seq<char>,
    pub code_challenge_method: Seq<char>,
}

impl View for AuthorizationRequest {
    type V = AuthorizationRequestModel;

    closed spec fn view(&self) -> AuthorizationRequestModel {
        AuthorizationRequestModel {
            client_id: self.client_id,
            redirect_uri: self.redirect_uri@,
            response_type: self.response_type@,
            scope: self.scope@,
            state: self.state@,
            code_challenge: self.code_challenge@,
            code_challenge_method: self.code_challenge_method@,
        }
    }
}

impl AuthorizationRequest {
    pub fn new(
        client_id: u128,
        redirect_uri: String,
        response_type: String,
        scope: String,
        state: String,
        code_challenge: String,
        code_challenge_method: String,
    ) -> (request: Self)
        ensures
            request@ == (AuthorizationRequestModel {
                client_id,
                redirect_uri: redirect_uri@,
                response_type: response_type@,
                scope: scope@,
                state: state@,
                code_challenge: code_challenge@,
                code_challenge_method: code_challenge_method@,
            }),
    {
        Self {
            client_id,
            redirect_uri,
            response_type,
            scope,
            state,
            code_challenge,
            code_challenge_method,
        }
    }

    pub fn client_id(&self) -> (r: u128)
        ensures
            r == self@.client_id,
    {
        self.client_id
    }

    pub fn redirect_uri(&self) -> (r: &str)
        ensures
            r@ == self@.redirect_uri,
    {
        self.redirect_uri.as_str()
    }

    pub fn response_type(&self) -> (r: &str)
        ensures
            r@ == self@.response_type,
    {
        self.response_type.as_str()
    }

    pub fn scope(&self) -> (r: &str)
        ensures
            r@ == self@.scope,
    {
        self.scope.as_str()
    }

    pub fn state(&self) -> (r: &str)
        ensures
            r@ == self@.state,
    {
        self.state.as_str()
    }

    pub fn code_challenge(&self) -> (r: &str)
        ensures
            r@ == self@.code_challenge,
    {
        self.code_challenge.as_str()
    }

    pub fn code_challenge_method(&self) -> (r: &str)
        ensures
            r@ == self@.code_challenge_method,
    {
        self.code_challenge_method.as_str()
    }
}

} // verus!
