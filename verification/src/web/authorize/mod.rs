pub mod page;
pub mod push;
pub mod submit;
