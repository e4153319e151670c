use vstd::prelude::*;

use crate::domain::user::User;
use crate::support::text::str_equals;

verus! {

#[derive(Debug, PartialEq, Eq, Clone, Copy)]
pub enum UserHandlerError {
    InvalidPassword,
}

/// Accepts `password` only when it equals the user's stored password.
pub fn check_password_authentication(user: &User, password: &str) -> (r: Result<
    (),
    UserHandlerError,
>)
    ensures
        r is Ok <==> user.password@ == password@,
        r is Err ==> r == Err::<(), UserHandlerError>(UserHandlerError::InvalidPassword),
{
    if !str_equals(user.password.as_str(), password) {
        return Err(UserHandlerError::InvalidPassword);
    }
    Ok(())
}

} // verus!
