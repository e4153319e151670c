use vstd::prelude::*;

verus! {

/// A pushed authorization request to be handled.
#[derive(Debug, Clone, PartialEq)]
pub struct PushedAuthorizationRequest {
    /// A hard-to-guess identifier for the request, which the client passes in the /authorize
    /// request.
    request_uri: String,
    client_id: String,
    response_type: String,
    scope: String,
    state: String,
    code_challenge: String,
    code_challenge_method: String,
}

/// What a [`PushedAuthorizationRequest`] holds, as plain values.
pub struct PushedAuthorizationRequestModel {
    pub request_uri: Seq<char>,
    pub client_id: Seq<char>,
    pub response_type: Seq<char>,
    pub scope: Seq<char>,
    pub state: Seq<char>,
    pub code_challenge: Seq<char>,
    pub code_challenge_method: Seq<char>,
}

impl View for PushedAuthorizationRequest {
    type V = PushedAuthorizationRequestModel;

    closed spec fn view(&self) -> PushedAuthorizationRequestModel {
        PushedAuthorizationRequestModel {
            request_uri: self.request_uri@,
            client_id: self.client_id@,
            response_type: self.response_type@,
            scope: self.scope@,
            state: self.state@,
            code_challenge: self.code_challenge@,
            code_challenge_method: self.code_challenge_method@,
        }
    }
}

impl PushedAuthorizationRequest {
    pub fn new(
        request_uri: String,
        client_id: String,
        response_type: String,
        scope: String,
        state: String,
        code_challenge: String,
        code_challenge_method: String,
    ) -> (r: Self)
        ensures
            r@ == (PushedAuthorizationRequestModel {
                request_uri: request_uri@,
                client_id: client_id@,
                response_type: response_type@,
                scope: scope@,
                state: state@,
                code_challenge: code_challenge@,
                code_challenge_method: code_challenge_method@,
            }),
    {
        Self {
            request_uri,
            client_id,
            response_type,
            scope,
            state,
            code_challenge,
            code_challenge_method,
        }
    }

    pub fn request_uri(&self) -> (r: &str)
        ensures
            r@ == self@.request_uri,
    {
        self.request_uri.as_str()
    }
}

} // verus!
