use vstd::prelude::*;

verus! {

/// An issued authorization code and what it was issued for.
#[derive(Debug, Clone, PartialEq)]
pub struct AuthorizationCode {
    code: String,
    client_id: u128,
    redirect_uri: String,
    scope: String,
    code_challenge: String,
    code_challenge_method: String,
}

/// What an [`AuthorizationCode`] holds, as plain values.
pub struct AuthorizationCodeModel {
    pub code: Seq<char>,
    pub client_id: u128,
    pub redirect_uri: Seq<char>,
    pub scope: Seq<char>,
    pub code_challenge: Seq<char>,
    pub code_challenge_method: Seq<char>,
}

impl View for AuthorizationCode {
    type V = AuthorizationCodeModel;

    closed spec fn view(&self) -> AuthorizationCodeModel {
        AuthorizationCodeModel {
            code: self.code@,
            client_id: self.client_id,
            redirect_uri: self.redirect_uri@,
            scope: self.scope@,
            code_challenge: self.code_challenge@,
            code_challenge_method: self.code_challenge_method@,
        }
    }
}

impl AuthorizationCode {
    pub fn new(
        code: String,
        client_id: u128,
        redirect_uri: String,
        scope: String,
        code_challenge: String,
        code_challenge_method: String,
    ) -> (r: Self)
        ensures
            r@ == (AuthorizationCodeModel {
                code: code@,
                client_id,
                redirect_uri: redirect_uri@,
                scope: scope@,
                code_challenge: code_challenge@,
                code_challenge_method: code_challenge_method@,
            }),
    {
        Self { code, client_id, redirect_uri, scope, code_challenge, code_challenge_method }
    }

    pub fn code(&self) -> (r: &str)
        ensures
            r@ == self@.code,
    {
        self.code.as_str()
    }

    pub fn client_id(&self) -> (r: u128)
        ensures
            r == self@.client_id,
    {
        self.client_id
    }

    pub fn redirect_uri(&self) -> (r: &str)
        ensures
            r@ == self@.redirect_uri,
    {
        self.redirect_uri.as_str()
    }

    pub fn scope(&self) -> (r: &str)
        ensures
            r@ == self@.scope,
    {
        self.scope.as_str()
    }

    pub fn code_challenge(&self) -> (r: &str)
        ensures
            r@ == self@.code_challenge,
    {
        self.code_challenge.as_str()
    }

    pub fn code_challenge_method(&self) -> (r: &str)
        ensures
            r@ == self@.code_challenge_method,
    {
        self.code_challenge_method.as_str()
    }
}

} // verus!
