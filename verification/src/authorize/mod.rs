pub mod authorize;
pub mod error;
pub mod oauth_error;
pub mod page;
pub mod request;
