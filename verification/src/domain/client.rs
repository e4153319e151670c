use vstd::prelude::*;

verus! {

/// A client as the password-based authorize endpoint knows it.
pub struct Client {
    pub id: String,
    pub secret: String,
    pub redirect_uris: Vec<String>,
    pub scopes: Vec<String>,
}

} // verus!
