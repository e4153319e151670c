pub mod push;
