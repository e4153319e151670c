pub mod base64_text;
pub mod ids;
pub mod random;
pub mod text;
pub mod urls;
