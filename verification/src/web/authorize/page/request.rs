use vstd::prelude::*;

verus! {

/// The query of the authorization confirmation page, each parameter possibly missing.
pub struct AuthorizePageQuery {
    pub client_id: Option<String>,
    pub request_uri: Option<String>,
}

} // verus!
