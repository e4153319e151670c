use vstd::prelude::*;

verus! {

/// The authorization confirmation page: which client asks for which scope, for which pushed
/// request.
pub struct AuthorizePageResponse {
    pub client_name: String,
    pub scope: String,
    pub client_id: u128,
    pub request_uri: String,
}

} // verus!
