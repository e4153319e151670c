use vstd::prelude::*;

use crate::domain::client::Client;
use crate::support::text::{contains_str, string_views};

verus! {

/// Whether `redirect_uri` is registered for `client`.
pub fn validate_redirect_uri(client: &Client, redirect_uri: &str) -> (r: bool)
    ensures
        r == string_views(client.redirect_uris@).contains(redirect_uri@),
{
    contains_str(&client.redirect_uris, redirect_uri)
}

/// Whether every requested scope is one of the client's scopes.
pub fn validate_scope(client: &Client, scope: &[String]) -> (r: bool)
    ensures
        r == forall|i: int|
            0 <= i < scope@.len() ==> string_views(client.scopes@).contains(#[trigger] scope@[i]@),
{
    let mut i: usize = 0;
    while i < scope.len()
        invariant
            i <= scope@.len(),
            forall|k: int| 0 <= k < i ==> string_views(client.scopes@).contains(#[trigger] scope@[k]@),
        decreases scope@.len() - i,
    {
        if !contains_str(&client.scopes, scope[i].as_str()) {
            return false;
        }
        i = i + 1;
    }
    true
}

} // verus!
