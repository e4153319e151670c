use vstd::prelude::*;

verus! {

/// The confirmation form: which pushed request the user approves, for which client.
pub struct AuthorizeSubmitRequest {
    pub request_uri: String,
    pub client_id: u128,
}

} // verus!
