pub mod application;
pub mod authorize;
pub mod domain;
pub mod error;
pub mod persistence;
pub mod service;
pub mod support;
pub mod web;
