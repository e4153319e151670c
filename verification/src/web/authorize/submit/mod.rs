pub mod error_response;
pub mod request;
pub mod response;
