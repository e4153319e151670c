use vstd::prelude::*;

verus! {

/// Why storing an authorization code failed.
#[derive(Debug, PartialEq, Eq, Clone, Copy)]
pub enum SaveAuthorizationCodeError {
    SerializationError,
    DatabaseError,
}

/// The store key under which the authorization code `code` is kept.
pub open spec fn code_key(code: Seq<char>) -> Seq<char> {
    "authorization_code:"@ + code
}

/// The store key of an authorization code: `authorization_code:` followed by the code.
pub fn key(code: &str) -> (k: String)
    ensures
        k@ == code_key(code@),
{
    let mut k = String::from_str("authorization_code:");
    k.append(code);
    k
}

/// Distinct authorization codes are stored under distinct keys.
pub proof fn law_code_key_injective(a: Seq<char>, b: Seq<char>)
    ensures
        code_key(a) == code_key(b) ==> a == b,
{
    reveal_strlit("authorization_code:");
    if code_key(a) == code_key(b) {
        assert(a =~= code_key(a).skip(19));
        assert(b =~= code_key(b).skip(19));
    }
}

} // verus!
