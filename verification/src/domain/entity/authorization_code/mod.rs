pub mod code;
pub mod request;
