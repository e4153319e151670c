pub mod authorization_code;
pub mod authorization_request;
pub mod client;
pub mod par;
