use vstd::prelude::*;

use crate::persistence::authorization_codes::code_key;

verus! {

/// Why storing a pushed authorization request failed.
#[derive(Debug, PartialEq, Eq, Clone, Copy)]
pub enum SaveParError {
    SerializationError,
    DatabaseError,
}

/// Why reading a pushed authorization request without consuming it failed.
#[derive(Debug, PartialEq, Eq, Clone, Copy)]
pub enum PeekParError {
    InvalidData,
    DatabaseError,
}

/// Why reading and deleting a pushed authorization request failed.
#[derive(Debug, PartialEq, Eq, Clone, Copy)]
pub enum TakeParError {
    InvalidData,
    DatabaseError,
}

/// The store key under which the pushed request with `request_uri` is kept.
pub open spec fn par_key(request_uri: Seq<char>) -> Seq<char> {
    "par:"@ + request_uri
}

/// The store key of a pushed authorization request: `par:` followed by its request URI.
pub fn key(request_uri: &str) -> (k: String)
    ensures
        k@ == par_key(request_uri@),
{
    let mut k = String::from_str("par:");
    k.append(request_uri);
    k
}

/// Distinct request URIs are stored under distinct keys.
pub proof fn law_par_key_injective(a: Seq<char>, b: Seq<char>)
    ensures
        par_key(a) == par_key(b) ==> a == b,
{
    reveal_strlit("par:");
    if par_key(a) == par_key(b) {
        assert(a =~= par_key(a).skip(4));
        assert(b =~= par_key(b).skip(4));
    }
}

/// A pushed request and an authorization code are never stored under the same key.
pub proof fn law_par_and_code_keys_differ(request_uri: Seq<char>, code: Seq<char>)
    ensures
        par_key(request_uri) != code_key(code),
{
    reveal_strlit("par:");
    reveal_strlit("authorization_code:");
    assert(par_key(request_uri)[0] == 'p');
    assert(code_key(code)[0] == 'a');
}

} // verus!
