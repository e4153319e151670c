pub mod client;
pub mod entity;
pub mod logic;
pub mod user;
