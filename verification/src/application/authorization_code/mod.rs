pub mod error;
pub mod push;
pub mod submit;
