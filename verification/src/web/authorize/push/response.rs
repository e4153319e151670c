use vstd::prelude::*;

verus! {

/// The answer to an accepted pushed authorization request (status 201).
pub struct AuthorizePushResponse {
    pub request_uri: String,
    pub expires_in: u64,
}

} // verus!
