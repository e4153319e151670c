pub mod authorization_code;
pub mod authorize;
