pub mod authorize;
