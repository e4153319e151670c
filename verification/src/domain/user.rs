use vstd::prelude::*;

verus! {

/// A user who can sign in with email and password.
pub struct User {
    pub id: u128,
    pub email: String,
    pub password: String,
}

} // verus!
